//! Walking the syntax trees for their bind parameters: each tree hands the
//! bind parameters it holds, in reading order, to a collector.

use vstd::prelude::*;
use crate::token::IdentModel;
use crate::expr::{Expr, ExprModel, exprs_view, expr_view, lemma_exprs_view};
use crate::clause::{
    self, Field, FieldModel, Fields, fields_view, SelectClauseModel, KeywordExprModel, GroupBy, GroupByModel,
    GroupByItem, OrderBy, OrderByModel, OrderByItem, OrderByItemModel, Returning, ReturningModel, SetClause,
    SetClauseModel, SetItem, SetItemModel, Values, ValuesModel, ValuesRow, ValuesRowModel, ValuesItem,
    ValuesItemModel, Where, Having, Limit, Offset,
};
use crate::command::{
    From, FromItem, FromItemModel, Select, SelectModel, Delete, DeleteModel, Insert, InsertModel, Update,
    UpdateModel, Command, CommandModel, Using,
};
use crate::query::bind_params::{BindParamsBuilder, add_params, lemma_add_params_concat, lemma_add_params, distinct_names, has_name};

verus! {

// ---------------------------------------------------------------------------
// The bind parameters of each tree, in reading order.
// ---------------------------------------------------------------------------

/// The bind parameters of an expression. A parenthesized expression is not
/// looked into.
pub open spec fn expr_params(e: ExprModel) -> Seq<IdentModel>
    decreases e,
{
    match e {
        ExprModel::Binary { lhs, rhs, .. } => expr_params(*lhs) + expr_params(*rhs),
        ExprModel::BindParam { name, .. } => seq![name],
        ExprModel::Call { params, .. } => exprs_params(params),
        ExprModel::Cast { value, .. } => expr_params(*value),
        ExprModel::Unary { operand, .. } => expr_params(*operand),
        _ => Seq::empty(),
    }
}

pub open spec fn exprs_params(s: Seq<ExprModel>) -> Seq<IdentModel>
    decreases s,
{
    if s.len() == 0 {
        Seq::empty()
    } else {
        exprs_params(s.drop_last()) + expr_params(s.last())
    }
}

pub open spec fn fields_params(s: Seq<FieldModel>) -> Seq<IdentModel>
    decreases s.len(),
{
    if s.len() == 0 {
        Seq::empty()
    } else {
        fields_params(s.drop_last()) + expr_params(s.last().expr)
    }
}

pub open spec fn order_items_params(s: Seq<OrderByItemModel>) -> Seq<IdentModel>
    decreases s.len(),
{
    if s.len() == 0 {
        Seq::empty()
    } else {
        order_items_params(s.drop_last()) + expr_params(s.last().expr)
    }
}

pub open spec fn set_item_params(i: SetItemModel) -> Seq<IdentModel> {
    match i {
        SetItemModel::Expr { expr, .. } => expr_params(expr),
        SetItemModel::Default { .. } => Seq::empty(),
    }
}

pub open spec fn set_items_params(s: Seq<SetItemModel>) -> Seq<IdentModel>
    decreases s.len(),
{
    if s.len() == 0 {
        Seq::empty()
    } else {
        set_items_params(s.drop_last()) + set_item_params(s.last())
    }
}

pub open spec fn values_item_params(i: ValuesItemModel) -> Seq<IdentModel> {
    match i {
        ValuesItemModel::Expr(expr) => expr_params(expr),
        ValuesItemModel::Default(_) => Seq::empty(),
    }
}

pub open spec fn values_items_params(s: Seq<ValuesItemModel>) -> Seq<IdentModel>
    decreases s.len(),
{
    if s.len() == 0 {
        Seq::empty()
    } else {
        values_items_params(s.drop_last()) + values_item_params(s.last())
    }
}

pub open spec fn values_rows_params(s: Seq<ValuesRowModel>) -> Seq<IdentModel>
    decreases s.len(),
{
    if s.len() == 0 {
        Seq::empty()
    } else {
        values_rows_params(s.drop_last()) + values_items_params(s.last().items)
    }
}

pub open spec fn opt_kw_params(k: Option<KeywordExprModel>) -> Seq<IdentModel> {
    match k {
        Some(k) => expr_params(k.expr),
        None => Seq::empty(),
    }
}

/// The bind parameters of a `from` item; the condition of a join comes before
/// its two sides.
pub open spec fn from_item_params(f: FromItemModel) -> Seq<IdentModel>
    decreases f,
{
    match f {
        FromItemModel::Table { .. } => Seq::empty(),
        FromItemModel::Subquery { select, .. } => select_params(*select),
        FromItemModel::Join { left, right, on, .. } =>
            expr_params(on.expr) + from_item_params(*left) + from_item_params(*right),
        FromItemModel::NaturalJoin { left, right, .. } => from_item_params(*left) + from_item_params(*right),
        FromItemModel::CrossJoin { left, right, .. } => from_item_params(*left) + from_item_params(*right),
    }
}

/// The bind parameters of a `select` command, clause by clause.
pub open spec fn select_params(s: SelectModel) -> Seq<IdentModel>
    decreases s,
{
    fields_params(s.select.fields)
        + match s.from {
            Some(f) => from_item_params(f.item),
            None => Seq::empty(),
        }
        + opt_kw_params(s.where_clause)
        + match s.group_by {
            Some(g) => exprs_params(g.items),
            None => Seq::empty(),
        }
        + opt_kw_params(s.having)
        + match s.order_by {
            Some(o) => order_items_params(o.items),
            None => Seq::empty(),
        }
        + opt_kw_params(s.limit)
        + opt_kw_params(s.offset)
}

pub open spec fn returning_params(r: Option<ReturningModel>) -> Seq<IdentModel> {
    match r {
        Some(r) => fields_params(r.fields),
        None => Seq::empty(),
    }
}

pub open spec fn delete_params(d: DeleteModel) -> Seq<IdentModel> {
    let using = match d.using {
        Some(u) => from_item_params(u.item),
        None => Seq::empty(),
    };
    using + opt_kw_params(d.where_clause) + returning_params(d.returning)
}

pub open spec fn insert_params(i: InsertModel) -> Seq<IdentModel> {
    values_rows_params(i.values.rows) + returning_params(i.returning)
}

/// The bind parameters of an `update`; its `from` clause is not looked into.
pub open spec fn update_params(u: UpdateModel) -> Seq<IdentModel> {
    set_items_params(u.set.items) + opt_kw_params(u.where_clause) + returning_params(u.returning)
}

pub open spec fn command_params(c: CommandModel) -> Seq<IdentModel> {
    match c {
        CommandModel::Delete(d) => delete_params(d),
        CommandModel::Select(s) => select_params(s),
        CommandModel::Update(u) => update_params(u),
    }
}

// ---------------------------------------------------------------------------
// The walks.
// ---------------------------------------------------------------------------

proof fn lemma_visit_one(v: Seq<IdentModel>, p: IdentModel)
    ensures
        add_params(v, seq![p]) == crate::query::bind_params::add_param(v, p),
{
    assert(seq![p].drop_last() =~= Seq::<IdentModel>::empty());
    assert(add_params(v, Seq::<IdentModel>::empty()) == v);
    assert(seq![p].last() == p);
}

impl Expr {
    /// Hands the bind parameters of the expression to the collector.
    pub fn accept(&self, visitor: &mut BindParamsBuilder)
        ensures
            final(visitor)@ == add_params(old(visitor)@, expr_params(self@)),
        decreases self,
    {
        let ghost start = visitor@;
        match self {
            Expr::Binary(b) => {
                b.lhs.accept(visitor);
                b.rhs.accept(visitor);
                proof {
                    lemma_add_params_concat(start, expr_params(b.lhs@), expr_params(b.rhs@));
                }
            },
            Expr::BindParam(p) => {
                visitor.visit_bind_param(p);
                proof {
                    lemma_visit_one(start, p.name@);
                }
            },
            Expr::Call(c) => {
                let ghost ps = exprs_view(c.params@);
                proof {
                    lemma_exprs_view(c.params@);
                }
                let mut i: usize = 0;
                while i < c.params.len()
                    invariant
                        i <= c.params.len(),
                        *self is Call,
                        *c == self->Call_0,
                        ps == exprs_view(c.params@),
                        ps.len() == c.params.len(),
                        forall|k: int| 0 <= k < c.params.len() ==> #[trigger] ps[k] == expr_view(c.params@[k]),
                        visitor@ == add_params(start, exprs_params(ps.subrange(0, i as int))),
                    decreases c.params.len() - i,
                {
                    proof {
                        assert(decreases_to!(*self => self->Call_0));
                        assert(decreases_to!(self->Call_0 => c.params));
                        assert(decreases_to!(c.params => c.params@[i as int]));
                    }
                    c.params[i].accept(visitor);
                    proof {
                        lemma_add_params_concat(start, exprs_params(ps.subrange(0, i as int)), expr_params(ps[i as int]));
                        assert(ps.subrange(0, i + 1).drop_last() =~= ps.subrange(0, i as int));
                    }
                    i += 1;
                }
                assert(ps.subrange(0, c.params.len() as int) =~= ps);
            },
            Expr::Cast(c) => c.value.accept(visitor),
            Expr::Unary(u) => u.operand.accept(visitor),
            _ => {},
        }
    }
}

impl Field {
    pub fn accept(&self, visitor: &mut BindParamsBuilder)
        ensures
            final(visitor)@ == add_params(old(visitor)@, expr_params(self@.expr)),
    {
        self.expr.accept(visitor);
    }
}

impl Fields {
    pub fn accept(&self, visitor: &mut BindParamsBuilder)
        ensures
            final(visitor)@ == add_params(old(visitor)@, fields_params(fields_view(*self))),
    {
        let ghost start = visitor@;
        let ghost ms = fields_view(*self);
        let mut i: usize = 0;
        while i < self.0.len()
            invariant
                i <= self.0.len(),
                ms == fields_view(*self),
                ms.len() == self.0.len(),
                visitor@ == add_params(start, fields_params(ms.subrange(0, i as int))),
            decreases self.0.len() - i,
        {
            self.0[i].accept(visitor);
            proof {
                assert(ms[i as int] == self.0@[i as int]@);
                lemma_add_params_concat(start, fields_params(ms.subrange(0, i as int)), expr_params(ms[i as int].expr));
                assert(ms.subrange(0, i + 1).drop_last() =~= ms.subrange(0, i as int));
            }
            i += 1;
        }
        assert(ms.subrange(0, self.0.len() as int) =~= ms);
    }
}

impl clause::Select {
    pub fn accept(&self, visitor: &mut BindParamsBuilder)
        ensures
            final(visitor)@ == add_params(old(visitor)@, fields_params(self@.fields)),
    {
        self.fields.accept(visitor);
    }
}

impl Returning {
    pub fn accept(&self, visitor: &mut BindParamsBuilder)
        ensures
            final(visitor)@ == add_params(old(visitor)@, fields_params(self@.fields)),
    {
        self.fields.accept(visitor);
    }
}

impl Where {
    pub fn accept(&self, visitor: &mut BindParamsBuilder)
        ensures
            final(visitor)@ == add_params(old(visitor)@, expr_params(self.expr@)),
    {
        self.expr.accept(visitor);
    }
}

impl Having {
    pub fn accept(&self, visitor: &mut BindParamsBuilder)
        ensures
            final(visitor)@ == add_params(old(visitor)@, expr_params(self.expr@)),
    {
        self.expr.accept(visitor);
    }
}

impl Limit {
    pub fn accept(&self, visitor: &mut BindParamsBuilder)
        ensures
            final(visitor)@ == add_params(old(visitor)@, expr_params(self.expr@)),
    {
        self.expr.accept(visitor);
    }
}

impl Offset {
    pub fn accept(&self, visitor: &mut BindParamsBuilder)
        ensures
            final(visitor)@ == add_params(old(visitor)@, expr_params(self.expr@)),
    {
        self.expr.accept(visitor);
    }
}

impl GroupBy {
    pub fn accept(&self, visitor: &mut BindParamsBuilder)
        ensures
            final(visitor)@ == add_params(old(visitor)@, exprs_params(self@.items)),
    {
        let ghost start = visitor@;
        let ghost ms = self@.items;
        let mut i: usize = 0;
        while i < self.items.len()
            invariant
                i <= self.items.len(),
                ms == self@.items,
                ms.len() == self.items.len(),
                visitor@ == add_params(start, exprs_params(ms.subrange(0, i as int))),
            decreases self.items.len() - i,
        {
            self.items[i].expr.accept(visitor);
            proof {
                assert(ms[i as int] == self.items@[i as int]@);
                lemma_add_params_concat(start, exprs_params(ms.subrange(0, i as int)), expr_params(ms[i as int]));
                assert(ms.subrange(0, i + 1).drop_last() =~= ms.subrange(0, i as int));
            }
            i += 1;
        }
        assert(ms.subrange(0, self.items.len() as int) =~= ms);
    }
}

impl OrderBy {
    pub fn accept(&self, visitor: &mut BindParamsBuilder)
        ensures
            final(visitor)@ == add_params(old(visitor)@, order_items_params(self@.items)),
    {
        let ghost start = visitor@;
        let ghost ms = self@.items;
        let mut i: usize = 0;
        while i < self.items.len()
            invariant
                i <= self.items.len(),
                ms == self@.items,
                ms.len() == self.items.len(),
                visitor@ == add_params(start, order_items_params(ms.subrange(0, i as int))),
            decreases self.items.len() - i,
        {
            self.items[i].expr.accept(visitor);
            proof {
                assert(ms[i as int] == self.items@[i as int]@);
                lemma_add_params_concat(start, order_items_params(ms.subrange(0, i as int)), expr_params(ms[i as int].expr));
                assert(ms.subrange(0, i + 1).drop_last() =~= ms.subrange(0, i as int));
            }
            i += 1;
        }
        assert(ms.subrange(0, self.items.len() as int) =~= ms);
    }
}

impl SetItem {
    pub fn accept(&self, visitor: &mut BindParamsBuilder)
        ensures
            final(visitor)@ == add_params(old(visitor)@, set_item_params(self@)),
    {
        match self {
            SetItem::Default { .. } => {},
            SetItem::Expr { expr, .. } => expr.accept(visitor),
        }
    }
}

impl SetClause {
    pub fn accept(&self, visitor: &mut BindParamsBuilder)
        ensures
            final(visitor)@ == add_params(old(visitor)@, set_items_params(self@.items)),
    {
        let ghost start = visitor@;
        let ghost ms = self@.items;
        let mut i: usize = 0;
        while i < self.items.len()
            invariant
                i <= self.items.len(),
                ms == self@.items,
                ms.len() == self.items.len(),
                visitor@ == add_params(start, set_items_params(ms.subrange(0, i as int))),
            decreases self.items.len() - i,
        {
            self.items[i].accept(visitor);
            proof {
                assert(ms[i as int] == self.items@[i as int]@);
                lemma_add_params_concat(start, set_items_params(ms.subrange(0, i as int)), set_item_params(ms[i as int]));
                assert(ms.subrange(0, i + 1).drop_last() =~= ms.subrange(0, i as int));
            }
            i += 1;
        }
        assert(ms.subrange(0, self.items.len() as int) =~= ms);
    }
}

impl ValuesItem {
    pub fn accept(&self, visitor: &mut BindParamsBuilder)
        ensures
            final(visitor)@ == add_params(old(visitor)@, values_item_params(self@)),
    {
        match self {
            ValuesItem::Default(_) => {},
            ValuesItem::Expr(expr) => expr.accept(visitor),
        }
    }
}

impl ValuesRow {
    pub fn accept(&self, visitor: &mut BindParamsBuilder)
        ensures
            final(visitor)@ == add_params(old(visitor)@, values_items_params(self@.items)),
    {
        let ghost start = visitor@;
        let ghost ms = self@.items;
        let mut i: usize = 0;
        while i < self.items.len()
            invariant
                i <= self.items.len(),
                ms == self@.items,
                ms.len() == self.items.len(),
                visitor@ == add_params(start, values_items_params(ms.subrange(0, i as int))),
            decreases self.items.len() - i,
        {
            self.items[i].accept(visitor);
            proof {
                assert(ms[i as int] == self.items@[i as int]@);
                lemma_add_params_concat(start, values_items_params(ms.subrange(0, i as int)), values_item_params(ms[i as int]));
                assert(ms.subrange(0, i + 1).drop_last() =~= ms.subrange(0, i as int));
            }
            i += 1;
        }
        assert(ms.subrange(0, self.items.len() as int) =~= ms);
    }
}

impl Values {
    pub fn accept(&self, visitor: &mut BindParamsBuilder)
        ensures
            final(visitor)@ == add_params(old(visitor)@, values_rows_params(self@.rows)),
    {
        let ghost start = visitor@;
        let ghost ms = self@.rows;
        let mut i: usize = 0;
        while i < self.rows.len()
            invariant
                i <= self.rows.len(),
                ms == self@.rows,
                ms.len() == self.rows.len(),
                visitor@ == add_params(start, values_rows_params(ms.subrange(0, i as int))),
            decreases self.rows.len() - i,
        {
            self.rows[i].accept(visitor);
            proof {
                assert(ms[i as int] == self.rows@[i as int]@);
                lemma_add_params_concat(start, values_rows_params(ms.subrange(0, i as int)), values_items_params(ms[i as int].items));
                assert(ms.subrange(0, i + 1).drop_last() =~= ms.subrange(0, i as int));
            }
            i += 1;
        }
        assert(ms.subrange(0, self.rows.len() as int) =~= ms);
    }
}

impl FromItem {
    /// Hands the bind parameters of the item to the collector; a join's
    /// condition comes before its two sides.
    pub fn accept(&self, visitor: &mut BindParamsBuilder)
        ensures
            final(visitor)@ == add_params(old(visitor)@, from_item_params(self@)),
        decreases self,
    {
        let ghost start = visitor@;
        match self {
            FromItem::Table { .. } => {},
            FromItem::Subquery { select, .. } => select.accept(visitor),
            FromItem::Join { left, right, on, .. } => {
                on.expr.accept(visitor);
                left.accept(visitor);
                right.accept(visitor);
                proof {
                    let a = expr_params(on.expr@);
                    let b = from_item_params(left@);
                    let c = from_item_params(right@);
                    lemma_add_params_concat(start, a, b);
                    lemma_add_params_concat(start, a + b, c);
                }
            },
            FromItem::NaturalJoin { left, right, .. } => {
                left.accept(visitor);
                right.accept(visitor);
                proof {
                    lemma_add_params_concat(start, from_item_params(left@), from_item_params(right@));
                }
            },
            FromItem::CrossJoin { left, right, .. } => {
                left.accept(visitor);
                right.accept(visitor);
                proof {
                    lemma_add_params_concat(start, from_item_params(left@), from_item_params(right@));
                }
            },
        }
    }
}

impl From {
    pub fn accept(&self, visitor: &mut BindParamsBuilder)
        ensures
            final(visitor)@ == add_params(old(visitor)@, from_item_params(self@.item)),
    {
        self.item.accept(visitor);
    }
}

impl Using {
    pub fn accept(&self, visitor: &mut BindParamsBuilder)
        ensures
            final(visitor)@ == add_params(old(visitor)@, from_item_params(self@.item)),
    {
        self.item.accept(visitor);
    }
}

impl Select {
    /// Hands the bind parameters of the command to the collector, clause by
    /// clause in the order they are written.
    pub fn accept(&self, visitor: &mut BindParamsBuilder)
        ensures
            final(visitor)@ == add_params(old(visitor)@, select_params(self@)),
        decreases self,
    {
        let ghost start = visitor@;
        let ghost m = self@;
        self.select.accept(visitor);
        let ghost acc = fields_params(m.select.fields);
        assert(visitor@ == add_params(start, acc));
        if let Some(f) = &self.from {
            f.item.accept(visitor);
        }
        let ghost x = match m.from {
            Some(f) => from_item_params(f.item),
            None => Seq::<IdentModel>::empty(),
        };
        proof {
            lemma_add_params_concat(start, acc, x);
        }
        let ghost acc = acc + x;
        if let Some(w) = &self.where_clause {
            w.accept(visitor);
        }
        let ghost x = opt_kw_params(m.where_clause);
        proof {
            lemma_add_params_concat(start, acc, x);
        }
        let ghost acc = acc + x;
        if let Some(g) = &self.group_by {
            g.accept(visitor);
        }
        let ghost x = match m.group_by {
            Some(g) => exprs_params(g.items),
            None => Seq::<IdentModel>::empty(),
        };
        proof {
            lemma_add_params_concat(start, acc, x);
        }
        let ghost acc = acc + x;
        if let Some(h) = &self.having {
            h.accept(visitor);
        }
        let ghost x = opt_kw_params(m.having);
        proof {
            lemma_add_params_concat(start, acc, x);
        }
        let ghost acc = acc + x;
        if let Some(o) = &self.order_by {
            o.accept(visitor);
        }
        let ghost x = match m.order_by {
            Some(o) => order_items_params(o.items),
            None => Seq::<IdentModel>::empty(),
        };
        proof {
            lemma_add_params_concat(start, acc, x);
        }
        let ghost acc = acc + x;
        if let Some(l) = &self.limit {
            l.accept(visitor);
        }
        let ghost x = opt_kw_params(m.limit);
        proof {
            lemma_add_params_concat(start, acc, x);
        }
        let ghost acc = acc + x;
        if let Some(o) = &self.offset {
            o.accept(visitor);
        }
        let ghost x = opt_kw_params(m.offset);
        proof {
            lemma_add_params_concat(start, acc, x);
        }
    }
}

impl Delete {
    pub fn accept(&self, visitor: &mut BindParamsBuilder)
        ensures
            final(visitor)@ == add_params(old(visitor)@, delete_params(self@)),
    {
        let ghost start = visitor@;
        let ghost m = self@;
        if let Some(u) = &self.using {
            u.accept(visitor);
        }
        let ghost acc = match m.using {
            Some(u) => from_item_params(u.item),
            None => Seq::<IdentModel>::empty(),
        };
        assert(visitor@ == add_params(start, acc));
        if let Some(w) = &self.where_clause {
            w.accept(visitor);
        }
        let ghost x = opt_kw_params(m.where_clause);
        proof {
            lemma_add_params_concat(start, acc, x);
        }
        let ghost acc = acc + x;
        if let Some(r) = &self.returning {
            r.accept(visitor);
        }
        let ghost x = returning_params(m.returning);
        proof {
            lemma_add_params_concat(start, acc, x);
        }
    }
}

impl Insert {
    pub fn accept(&self, visitor: &mut BindParamsBuilder)
        ensures
            final(visitor)@ == add_params(old(visitor)@, insert_params(self@)),
    {
        let ghost start = visitor@;
        let ghost m = self@;
        self.values.accept(visitor);
        if let Some(r) = &self.returning {
            r.accept(visitor);
        }
        proof {
            lemma_add_params_concat(start, values_rows_params(m.values.rows), returning_params(m.returning));
        }
    }
}

impl Update {
    pub fn accept(&self, visitor: &mut BindParamsBuilder)
        ensures
            final(visitor)@ == add_params(old(visitor)@, update_params(self@)),
    {
        let ghost start = visitor@;
        let ghost m = self@;
        self.set.accept(visitor);
        let ghost acc = set_items_params(m.set.items);
        if let Some(w) = &self.where_clause {
            w.accept(visitor);
        }
        let ghost x = opt_kw_params(m.where_clause);
        proof {
            lemma_add_params_concat(start, acc, x);
        }
        let ghost acc = acc + x;
        if let Some(r) = &self.returning {
            r.accept(visitor);
        }
        let ghost x = returning_params(m.returning);
        proof {
            lemma_add_params_concat(start, acc, x);
        }
    }
}

impl Command {
    pub fn accept(&self, visitor: &mut BindParamsBuilder)
        ensures
            final(visitor)@ == add_params(old(visitor)@, command_params(self@)),
    {
        match self {
            Command::Delete(d) => d.accept(visitor),
            Command::Select(s) => s.accept(visitor),
            Command::Update(u) => u.accept(visitor),
        }
    }
}

/// The bind parameters collected from a command, starting from none, are
/// distinct, and a name is among them exactly when the command uses it.
pub proof fn lemma_command_bind_params(c: CommandModel)
    ensures
        distinct_names(add_params(Seq::empty(), command_params(c))),
        forall|n: Seq<char>| #[trigger] has_name(add_params(Seq::empty(), command_params(c)), n) <==> has_name(command_params(c), n),
{
    lemma_add_params(Seq::empty(), command_params(c));
    assert forall|n: Seq<char>| !has_name(Seq::<IdentModel>::empty(), n) by {}
}

// ---------------------------------------------------------------------------
// Law: every bind parameter that the visitor reaches is collected.
// ---------------------------------------------------------------------------

/// A bind parameter named `n` stands somewhere in the expression: in either
/// operand of a binary operator, among a call's arguments, in the value of a
/// cast or in the operand of a unary operator. The visitor does not enter a
/// parenthesized expression, so one there does not count.
pub open spec fn param_occurs(e: ExprModel, n: Seq<char>) -> bool
    decreases e,
{
    match e {
        ExprModel::Binary { lhs, rhs, .. } => param_occurs(*lhs, n) || param_occurs(*rhs, n),
        ExprModel::BindParam { name, .. } => name.name == n,
        ExprModel::Call { params, .. } => param_occurs_in(params, n),
        ExprModel::Cast { value, .. } => param_occurs(*value, n),
        ExprModel::Unary { operand, .. } => param_occurs(*operand, n),
        ExprModel::ColumnRef { .. } => false,
        ExprModel::Lit(_) => false,
        ExprModel::Paren { .. } => false,
    }
}

/// A bind parameter named `n` stands in one of the expressions.
pub open spec fn param_occurs_in(s: Seq<ExprModel>, n: Seq<char>) -> bool
    decreases s,
{
    if s.len() == 0 {
        false
    } else {
        param_occurs_in(s.drop_last(), n) || param_occurs(s.last(), n)
    }
}

proof fn lemma_has_name_concat(a: Seq<IdentModel>, b: Seq<IdentModel>, n: Seq<char>)
    ensures
        has_name(a + b, n) <==> (has_name(a, n) || has_name(b, n)),
{
    if has_name(a, n) {
        let i = choose|i: int| 0 <= i < a.len() && #[trigger] a[i].name == n;
        assert((a + b)[i].name == n);
    }
    if has_name(b, n) {
        let i = choose|i: int| 0 <= i < b.len() && #[trigger] b[i].name == n;
        assert((a + b)[a.len() + i].name == n);
    }
    if has_name(a + b, n) {
        let i = choose|i: int| 0 <= i < (a + b).len() && #[trigger] (a + b)[i].name == n;
        if i < a.len() {
            assert(a[i].name == n);
        } else {
            assert(b[i - a.len()].name == n);
        }
    }
}

proof fn lemma_expr_params_occur(e: ExprModel, n: Seq<char>)
    ensures
        has_name(expr_params(e), n) <==> param_occurs(e, n),
    decreases e,
{
    match e {
        ExprModel::Binary { lhs, rhs, .. } => {
            lemma_expr_params_occur(*lhs, n);
            lemma_expr_params_occur(*rhs, n);
            lemma_has_name_concat(expr_params(*lhs), expr_params(*rhs), n);
        },
        ExprModel::BindParam { name, .. } => {
            if name.name == n {
                assert(seq![name][0].name == n);
            }
        },
        ExprModel::Call { params, .. } => {
            lemma_exprs_params_occur(params, n);
        },
        ExprModel::Cast { value, .. } => {
            lemma_expr_params_occur(*value, n);
        },
        ExprModel::Unary { operand, .. } => {
            lemma_expr_params_occur(*operand, n);
        },
        _ => {},
    }
}

proof fn lemma_exprs_params_occur(s: Seq<ExprModel>, n: Seq<char>)
    ensures
        has_name(exprs_params(s), n) <==> param_occurs_in(s, n),
    decreases s,
{
    if s.len() > 0 {
        lemma_exprs_params_occur(s.drop_last(), n);
        lemma_expr_params_occur(s.last(), n);
        lemma_has_name_concat(exprs_params(s.drop_last()), expr_params(s.last()), n);
    }
}

/// Visiting an expression collects the name of every bind parameter that
/// stands in it (parenthesized parts aside), keeps what was collected before,
/// and collects nothing else.
pub proof fn lemma_expr_collects_its_params(before: Seq<IdentModel>, e: ExprModel)
    requires
        distinct_names(before),
    ensures
        distinct_names(add_params(before, expr_params(e))),
        forall|n: Seq<char>| #[trigger] has_name(add_params(before, expr_params(e)), n) <==> (has_name(before, n) || param_occurs(e, n)),
{
    lemma_add_params(before, expr_params(e));
    assert forall|n: Seq<char>| #[trigger] has_name(add_params(before, expr_params(e)), n) <==> (has_name(before, n) || param_occurs(e, n)) by {
        lemma_expr_params_occur(e, n);
    }
}

// ---------------------------------------------------------------------------
// Law: a command's bind parameters are those of the expressions its clauses
// hold.
// ---------------------------------------------------------------------------

/// A bind parameter named `n` stands in one of the expressions.
pub open spec fn occurs_among(s: Seq<ExprModel>, n: Seq<char>) -> bool {
    exists|i: int| 0 <= i < s.len() && #[trigger] param_occurs(s[i], n)
}

pub open spec fn opt_kw_exprs(k: Option<KeywordExprModel>) -> Seq<ExprModel> {
    match k {
        Some(k) => seq![k.expr],
        None => Seq::empty(),
    }
}

pub open spec fn field_exprs(s: Seq<FieldModel>) -> Seq<ExprModel> {
    Seq::new(s.len(), |i: int| s[i].expr)
}

pub open spec fn order_item_exprs(s: Seq<OrderByItemModel>) -> Seq<ExprModel> {
    Seq::new(s.len(), |i: int| s[i].expr)
}

pub open spec fn set_item_exprs(s: Seq<SetItemModel>) -> Seq<ExprModel>
    decreases s.len(),
{
    if s.len() == 0 {
        Seq::empty()
    } else {
        set_item_exprs(s.drop_last()) + match s.last() {
            SetItemModel::Expr { expr, .. } => seq![expr],
            SetItemModel::Default { .. } => Seq::empty(),
        }
    }
}

pub open spec fn returning_exprs(r: Option<ReturningModel>) -> Seq<ExprModel> {
    match r {
        Some(r) => field_exprs(r.fields),
        None => Seq::empty(),
    }
}

/// The expressions that a `from` item holds: the condition of each join and
/// everything that a sub-select holds.
pub open spec fn from_item_exprs(f: FromItemModel) -> Seq<ExprModel>
    decreases f,
{
    match f {
        FromItemModel::Table { .. } => Seq::empty(),
        FromItemModel::Subquery { select, .. } => select_exprs(*select),
        FromItemModel::Join { left, right, on, .. } => seq![on.expr] + from_item_exprs(*left) + from_item_exprs(*right),
        FromItemModel::NaturalJoin { left, right, .. } => from_item_exprs(*left) + from_item_exprs(*right),
        FromItemModel::CrossJoin { left, right, .. } => from_item_exprs(*left) + from_item_exprs(*right),
    }
}

/// The expressions that a `select` holds, in every clause.
pub open spec fn select_exprs(s: SelectModel) -> Seq<ExprModel>
    decreases s,
{
    field_exprs(s.select.fields)
        + match s.from {
            Some(f) => from_item_exprs(f.item),
            None => Seq::empty(),
        }
        + opt_kw_exprs(s.where_clause)
        + match s.group_by {
            Some(g) => g.items,
            None => Seq::empty(),
        }
        + opt_kw_exprs(s.having)
        + match s.order_by {
            Some(o) => order_item_exprs(o.items),
            None => Seq::empty(),
        }
        + opt_kw_exprs(s.limit)
        + opt_kw_exprs(s.offset)
}

/// The expressions that the visitor reaches in a command: all of them, but
/// for the `from` clause of an `update`, which it does not enter.
pub open spec fn command_exprs(c: CommandModel) -> Seq<ExprModel> {
    match c {
        CommandModel::Delete(d) => {
            let using = match d.using {
                Some(u) => from_item_exprs(u.item),
                None => Seq::empty(),
            };
            using + opt_kw_exprs(d.where_clause) + returning_exprs(d.returning)
        },
        CommandModel::Select(s) => select_exprs(s),
        CommandModel::Update(u) =>
            set_item_exprs(u.set.items) + opt_kw_exprs(u.where_clause) + returning_exprs(u.returning),
    }
}

proof fn lemma_occurs_among_concat(a: Seq<ExprModel>, b: Seq<ExprModel>, n: Seq<char>)
    ensures
        occurs_among(a + b, n) <==> (occurs_among(a, n) || occurs_among(b, n)),
{
    if occurs_among(a, n) {
        let i = choose|i: int| 0 <= i < a.len() && #[trigger] param_occurs(a[i], n);
        assert((a + b)[i] == a[i]);
    }
    if occurs_among(b, n) {
        let i = choose|i: int| 0 <= i < b.len() && #[trigger] param_occurs(b[i], n);
        assert((a + b)[a.len() + i] == b[i]);
    }
    if occurs_among(a + b, n) {
        let i = choose|i: int| 0 <= i < (a + b).len() && #[trigger] param_occurs((a + b)[i], n);
        if i < a.len() {
            assert(param_occurs(a[i], n));
        } else {
            assert(param_occurs(b[i - a.len()], n));
        }
    }
}

proof fn lemma_occurs_among_one(e: ExprModel, n: Seq<char>)
    ensures
        occurs_among(seq![e], n) <==> param_occurs(e, n),
{
    if param_occurs(e, n) {
        assert(param_occurs(seq![e][0], n));
    }
}

proof fn lemma_occurs_in_among(s: Seq<ExprModel>, n: Seq<char>)
    ensures
        param_occurs_in(s, n) <==> occurs_among(s, n),
        has_name(exprs_params(s), n) <==> occurs_among(s, n),
    decreases s.len(),
{
    lemma_exprs_params_occur(s, n);
    if s.len() > 0 {
        lemma_occurs_in_among(s.drop_last(), n);
        lemma_occurs_among_one(s.last(), n);
        assert(s =~= s.drop_last() + seq![s.last()]);
        lemma_occurs_among_concat(s.drop_last(), seq![s.last()], n);
    }
}

proof fn lemma_fields_occur(s: Seq<FieldModel>, n: Seq<char>)
    ensures
        has_name(fields_params(s), n) <==> occurs_among(field_exprs(s), n),
    decreases s.len(),
{
    if s.len() > 0 {
        lemma_fields_occur(s.drop_last(), n);
        lemma_expr_params_occur(s.last().expr, n);
        lemma_has_name_concat(fields_params(s.drop_last()), expr_params(s.last().expr), n);
        assert(field_exprs(s) =~= field_exprs(s.drop_last()) + seq![s.last().expr]);
        lemma_occurs_among_concat(field_exprs(s.drop_last()), seq![s.last().expr], n);
        lemma_occurs_among_one(s.last().expr, n);
    }
}

proof fn lemma_order_items_occur(s: Seq<OrderByItemModel>, n: Seq<char>)
    ensures
        has_name(order_items_params(s), n) <==> occurs_among(order_item_exprs(s), n),
    decreases s.len(),
{
    if s.len() > 0 {
        lemma_order_items_occur(s.drop_last(), n);
        lemma_expr_params_occur(s.last().expr, n);
        lemma_has_name_concat(order_items_params(s.drop_last()), expr_params(s.last().expr), n);
        assert(order_item_exprs(s) =~= order_item_exprs(s.drop_last()) + seq![s.last().expr]);
        lemma_occurs_among_concat(order_item_exprs(s.drop_last()), seq![s.last().expr], n);
        lemma_occurs_among_one(s.last().expr, n);
    }
}

proof fn lemma_set_items_occur(s: Seq<SetItemModel>, n: Seq<char>)
    ensures
        has_name(set_items_params(s), n) <==> occurs_among(set_item_exprs(s), n),
    decreases s.len(),
{
    if s.len() > 0 {
        lemma_set_items_occur(s.drop_last(), n);
        lemma_has_name_concat(set_items_params(s.drop_last()), set_item_params(s.last()), n);
        match s.last() {
            SetItemModel::Expr { expr, .. } => {
                lemma_expr_params_occur(expr, n);
                lemma_occurs_among_concat(set_item_exprs(s.drop_last()), seq![expr], n);
                lemma_occurs_among_one(expr, n);
            },
            SetItemModel::Default { .. } => {
                assert(set_item_exprs(s) =~= set_item_exprs(s.drop_last()));
                assert(set_items_params(s) =~= set_items_params(s.drop_last()));
            },
        }
    }
}

proof fn lemma_opt_kw_occur(k: Option<KeywordExprModel>, n: Seq<char>)
    ensures
        has_name(opt_kw_params(k), n) <==> occurs_among(opt_kw_exprs(k), n),
{
    if let Some(k) = k {
        lemma_expr_params_occur(k.expr, n);
        lemma_occurs_among_one(k.expr, n);
    }
}

proof fn lemma_returning_occur(r: Option<ReturningModel>, n: Seq<char>)
    ensures
        has_name(returning_params(r), n) <==> occurs_among(returning_exprs(r), n),
{
    if let Some(r) = r {
        lemma_fields_occur(r.fields, n);
    }
}

proof fn lemma_from_item_occur(f: FromItemModel, n: Seq<char>)
    ensures
        has_name(from_item_params(f), n) <==> occurs_among(from_item_exprs(f), n),
    decreases f,
{
    match f {
        FromItemModel::Table { .. } => {},
        FromItemModel::Subquery { select, .. } => {
            lemma_select_occur(*select, n);
        },
        FromItemModel::Join { left, right, on, .. } => {
            lemma_from_item_occur(*left, n);
            lemma_from_item_occur(*right, n);
            lemma_expr_params_occur(on.expr, n);
            lemma_occurs_among_one(on.expr, n);
            lemma_has_name_concat(expr_params(on.expr), from_item_params(*left), n);
            lemma_has_name_concat(expr_params(on.expr) + from_item_params(*left), from_item_params(*right), n);
            lemma_occurs_among_concat(seq![on.expr], from_item_exprs(*left), n);
            lemma_occurs_among_concat(seq![on.expr] + from_item_exprs(*left), from_item_exprs(*right), n);
        },
        FromItemModel::NaturalJoin { left, right, .. } => {
            lemma_from_item_occur(*left, n);
            lemma_from_item_occur(*right, n);
            lemma_has_name_concat(from_item_params(*left), from_item_params(*right), n);
            lemma_occurs_among_concat(from_item_exprs(*left), from_item_exprs(*right), n);
        },
        FromItemModel::CrossJoin { left, right, .. } => {
            lemma_from_item_occur(*left, n);
            lemma_from_item_occur(*right, n);
            lemma_has_name_concat(from_item_params(*left), from_item_params(*right), n);
            lemma_occurs_among_concat(from_item_exprs(*left), from_item_exprs(*right), n);
        },
    }
}

proof fn lemma_select_occur(s: SelectModel, n: Seq<char>)
    ensures
        has_name(select_params(s), n) <==> occurs_among(select_exprs(s), n),
    decreases s,
{
    let p0 = fields_params(s.select.fields);
    let p1 = match s.from { Some(f) => from_item_params(f.item), None => Seq::empty() };
    let p2 = opt_kw_params(s.where_clause);
    let p3 = match s.group_by { Some(g) => exprs_params(g.items), None => Seq::empty() };
    let p4 = opt_kw_params(s.having);
    let p5 = match s.order_by { Some(o) => order_items_params(o.items), None => Seq::empty() };
    let p6 = opt_kw_params(s.limit);
    let p7 = opt_kw_params(s.offset);
    let x0 = field_exprs(s.select.fields);
    let x1 = match s.from { Some(f) => from_item_exprs(f.item), None => Seq::empty() };
    let x2 = opt_kw_exprs(s.where_clause);
    let x3 = match s.group_by { Some(g) => g.items, None => Seq::empty() };
    let x4 = opt_kw_exprs(s.having);
    let x5 = match s.order_by { Some(o) => order_item_exprs(o.items), None => Seq::empty() };
    let x6 = opt_kw_exprs(s.limit);
    let x7 = opt_kw_exprs(s.offset);
    lemma_fields_occur(s.select.fields, n);
    if let Some(f) = s.from {
        assert(decreases_to!(s => f));
        lemma_from_item_occur(f.item, n);
    }
    lemma_opt_kw_occur(s.where_clause, n);
    if let Some(g) = s.group_by {
        lemma_occurs_in_among(g.items, n);
    }
    lemma_opt_kw_occur(s.having, n);
    if let Some(o) = s.order_by {
        lemma_order_items_occur(o.items, n);
    }
    lemma_opt_kw_occur(s.limit, n);
    lemma_opt_kw_occur(s.offset, n);
    lemma_has_name_concat(p0, p1, n);
    lemma_has_name_concat(p0 + p1, p2, n);
    lemma_has_name_concat(p0 + p1 + p2, p3, n);
    lemma_has_name_concat(p0 + p1 + p2 + p3, p4, n);
    lemma_has_name_concat(p0 + p1 + p2 + p3 + p4, p5, n);
    lemma_has_name_concat(p0 + p1 + p2 + p3 + p4 + p5, p6, n);
    lemma_has_name_concat(p0 + p1 + p2 + p3 + p4 + p5 + p6, p7, n);
    lemma_occurs_among_concat(x0, x1, n);
    lemma_occurs_among_concat(x0 + x1, x2, n);
    lemma_occurs_among_concat(x0 + x1 + x2, x3, n);
    lemma_occurs_among_concat(x0 + x1 + x2 + x3, x4, n);
    lemma_occurs_among_concat(x0 + x1 + x2 + x3 + x4, x5, n);
    lemma_occurs_among_concat(x0 + x1 + x2 + x3 + x4 + x5, x6, n);
    lemma_occurs_among_concat(x0 + x1 + x2 + x3 + x4 + x5 + x6, x7, n);
}

/// Visiting a command from an empty collector collects each name once, and
/// exactly the names of the bind parameters that stand in the expressions of
/// its clauses (fields, joins and sub-selects, `where`, `group by`, `having`,
/// `order by`, `limit`, `offset`, `set`, `returning`).
pub proof fn lemma_command_collects_its_params(c: CommandModel)
    ensures
        distinct_names(add_params(Seq::empty(), command_params(c))),
        forall|n: Seq<char>| #[trigger] has_name(add_params(Seq::empty(), command_params(c)), n) <==> occurs_among(command_exprs(c), n),
{
    lemma_command_bind_params(c);
    assert forall|n: Seq<char>| #[trigger] has_name(add_params(Seq::empty(), command_params(c)), n) <==> occurs_among(command_exprs(c), n) by {
        match c {
            CommandModel::Delete(d) => {
                let u0 = match d.using { Some(u) => from_item_params(u.item), None => Seq::empty() };
                let v0 = match d.using { Some(u) => from_item_exprs(u.item), None => Seq::empty() };
                if let Some(u) = d.using {
                    lemma_from_item_occur(u.item, n);
                }
                lemma_opt_kw_occur(d.where_clause, n);
                lemma_returning_occur(d.returning, n);
                lemma_has_name_concat(u0, opt_kw_params(d.where_clause), n);
                lemma_has_name_concat(u0 + opt_kw_params(d.where_clause), returning_params(d.returning), n);
                lemma_occurs_among_concat(v0, opt_kw_exprs(d.where_clause), n);
                lemma_occurs_among_concat(v0 + opt_kw_exprs(d.where_clause), returning_exprs(d.returning), n);
            },
            CommandModel::Select(s) => {
                lemma_select_occur(s, n);
            },
            CommandModel::Update(u) => {
                lemma_set_items_occur(u.set.items, n);
                lemma_opt_kw_occur(u.where_clause, n);
                lemma_returning_occur(u.returning, n);
                lemma_has_name_concat(set_items_params(u.set.items), opt_kw_params(u.where_clause), n);
                lemma_has_name_concat(set_items_params(u.set.items) + opt_kw_params(u.where_clause), returning_params(u.returning), n);
                lemma_occurs_among_concat(set_item_exprs(u.set.items), opt_kw_exprs(u.where_clause), n);
                lemma_occurs_among_concat(set_item_exprs(u.set.items) + opt_kw_exprs(u.where_clause), returning_exprs(u.returning), n);
            },
        }
    }
}

} // verus!

//! The code that builds, at the macro's call site, the runtime representation
//! (`::kosame::repr`) of the expressions and clauses that were read.

use vstd::prelude::*;
use vstd::string::StringExecFns;
use crate::token::{TokenTree, TokenModel, Ident, IdentModel, Span, tts_view, tt_view, call_site_span};
use crate::emit::{
    ident_tok, literal_tok, punct_tok, str_literal_text, quote_tokens, quote_into, args_view, ident_token,
    punct_token, push_token, push_all, string_literal, lemma_tts_view_push, lemma_args_view_push,
};
use crate::token::Spacing;
use crate::expr::{
    Expr, ExprModel, BinOp, UnaryOp, Lit, LitModel, LitToken, LitTokenModel, exprs_view, expr_view,
    lemma_exprs_view,
};
use crate::data_type::DataType;
use crate::clause::{
    self, Field, FieldModel, Fields, fields_view, SelectClauseModel, Returning, ReturningModel, Where, Having, Limit,
    Offset, GroupBy, GroupByModel, OrderBy, OrderByModel, OrderByItem, OrderByItemModel, OrderByDir, OrderByNulls,
    SetItem, SetItemModel, SetClause, SetClauseModel, ValuesItem, ValuesItemModel, ValuesRow, ValuesRowModel, Values,
    ValuesModel, ColumnList, ColumnListModel, TableAlias, TableAliasModel, JoinType, KeywordExprModel,
};
use crate::command::{
    From, FromModel, FromItem, FromItemModel, Select, SelectModel, Delete, DeleteModel, Insert, InsertModel, Update,
    UpdateModel, Command, CommandModel, Using, UsingModel,
};
use crate::path::{PathExt, path_tokens, spec_to_call_site};
use crate::common::opt_view;
use crate::clause::{word_at, spec_parse_join_type, spec_parse_order_by_dir, lemma_join_type_names, lemma_order_by_dir_names};

verus! {

// ---------------------------------------------------------------------------
// Arguments of templates.
// ---------------------------------------------------------------------------

pub fn args1(a: Vec<TokenTree>) -> (v: Vec<Vec<TokenTree>>)
    ensures
        args_view(v@) == seq![tts_view(a@)],
{
    let ghost am = tts_view(a@);
    let mut v: Vec<Vec<TokenTree>> = Vec::new();
    v.push(a);
    assert(args_view(v@) =~= seq![am]);
    v
}

pub fn args2(a: Vec<TokenTree>, b: Vec<TokenTree>) -> (v: Vec<Vec<TokenTree>>)
    ensures
        args_view(v@) == seq![tts_view(a@), tts_view(b@)],
{
    let ghost am = tts_view(a@);
    let ghost bm = tts_view(b@);
    let mut v: Vec<Vec<TokenTree>> = Vec::new();
    v.push(a);
    v.push(b);
    assert(args_view(v@) =~= seq![am, bm]);
    v
}

pub fn args3(a: Vec<TokenTree>, b: Vec<TokenTree>, c: Vec<TokenTree>) -> (v: Vec<Vec<TokenTree>>)
    ensures
        args_view(v@) == seq![tts_view(a@), tts_view(b@), tts_view(c@)],
{
    let ghost am = tts_view(a@);
    let ghost bm = tts_view(b@);
    let ghost cm = tts_view(c@);
    let mut v: Vec<Vec<TokenTree>> = Vec::new();
    v.push(a);
    v.push(b);
    v.push(c);
    assert(args_view(v@) =~= seq![am, bm, cm]);
    v
}

pub fn args4(a: Vec<TokenTree>, b: Vec<TokenTree>, c: Vec<TokenTree>, d: Vec<TokenTree>) -> (v: Vec<Vec<TokenTree>>)
    ensures
        args_view(v@) == seq![tts_view(a@), tts_view(b@), tts_view(c@), tts_view(d@)],
{
    let ghost am = tts_view(a@);
    let ghost bm = tts_view(b@);
    let ghost cm = tts_view(c@);
    let ghost dm = tts_view(d@);
    let mut v: Vec<Vec<TokenTree>> = Vec::new();
    v.push(a);
    v.push(b);
    v.push(c);
    v.push(d);
    assert(args_view(v@) =~= seq![am, bm, cm, dm]);
    v
}

/// One token as a run of tokens.
pub fn single(t: TokenTree) -> (v: Vec<TokenTree>)
    ensures
        tts_view(v@) == seq![tt_view(t)],
{
    let mut v: Vec<TokenTree> = Vec::new();
    assert(tts_view(v@) =~= Seq::<TokenModel>::empty());
    push_token(&mut v, t);
    v
}

/// A template with nothing spliced in.
pub fn code(template: &str) -> (v: Vec<TokenTree>)
    ensures
        tts_view(v@) == quote_tokens(template@, Seq::empty()),
{
    let none: Vec<Vec<TokenTree>> = Vec::new();
    assert(args_view(none@) =~= Seq::<Seq<TokenModel>>::empty());
    let mut v: Vec<TokenTree> = Vec::new();
    assert(tts_view(v@) =~= Seq::<TokenModel>::empty());
    quote_into(&mut v, template, &none);
    v
}

/// A template with the given runs spliced in.
pub fn code_with(template: &str, args: Vec<Vec<TokenTree>>) -> (v: Vec<TokenTree>)
    ensures
        tts_view(v@) == quote_tokens(template@, args_view(args@)),
{
    let mut v: Vec<TokenTree> = Vec::new();
    assert(tts_view(v@) =~= Seq::<TokenModel>::empty());
    quote_into(&mut v, template, &args);
    v
}

// ---------------------------------------------------------------------------
// Operators, literals and data types.
// ---------------------------------------------------------------------------

/// The name of an operator's variant in the runtime representation.
pub open spec fn binop_name(op: BinOp) -> Seq<char> {
    match op {
        BinOp::Multiply(..) => "Multiply"@,
        BinOp::Divide(..) => "Divide"@,
        BinOp::Modulo(..) => "Modulo"@,
        BinOp::Add(..) => "Add"@,
        BinOp::Subtract(..) => "Subtract"@,
        BinOp::Eq(..) => "Eq"@,
        BinOp::Uneq(..) => "Uneq"@,
        BinOp::LessThan(..) => "LessThan"@,
        BinOp::GreaterThan(..) => "GreaterThan"@,
        BinOp::LessThanOrEq(..) => "LessThanOrEq"@,
        BinOp::GreaterThanOrEq(..) => "GreaterThanOrEq"@,
        BinOp::Is(..) => "Is"@,
        BinOp::IsNot(..) => "IsNot"@,
        BinOp::IsDistinctFrom(..) => "IsDistinctFrom"@,
        BinOp::And(..) => "And"@,
        BinOp::Or(..) => "Or"@,
    }
}

/// `::kosame::repr::expr::BinOp::Variant`.
pub open spec fn binop_tokens(op: BinOp) -> Seq<TokenModel> {
    quote_tokens("::kosame::repr::expr::BinOp::$"@, seq![seq![ident_tok(binop_name(op))]])
}

impl BinOp {
    fn variant_name(&self) -> (name: &'static str)
        ensures
            name@ == binop_name(*self),
    {
        match self {
            BinOp::Multiply(..) => "Multiply",
            BinOp::Divide(..) => "Divide",
            BinOp::Modulo(..) => "Modulo",
            BinOp::Add(..) => "Add",
            BinOp::Subtract(..) => "Subtract",
            BinOp::Eq(..) => "Eq",
            BinOp::Uneq(..) => "Uneq",
            BinOp::LessThan(..) => "LessThan",
            BinOp::GreaterThan(..) => "GreaterThan",
            BinOp::LessThanOrEq(..) => "LessThanOrEq",
            BinOp::GreaterThanOrEq(..) => "GreaterThanOrEq",
            BinOp::Is(..) => "Is",
            BinOp::IsNot(..) => "IsNot",
            BinOp::IsDistinctFrom(..) => "IsDistinctFrom",
            BinOp::And(..) => "And",
            BinOp::Or(..) => "Or",
        }
    }

    pub fn to_tokens(&self, out: &mut Vec<TokenTree>)
        ensures
            tts_view(final(out)@) == tts_view(old(out)@) + binop_tokens(*self),
    {
        let args = args1(single(ident_token(self.variant_name())));
        quote_into(out, "::kosame::repr::expr::BinOp::$", &args);
    }
}

/// `::kosame::expr::UnaryOp::Not`.
pub open spec fn unary_tokens(op: UnaryOp) -> Seq<TokenModel> {
    quote_tokens("::kosame::expr::UnaryOp::Not"@, Seq::empty())
}

impl UnaryOp {
    pub fn to_tokens(&self, out: &mut Vec<TokenTree>)
        ensures
            tts_view(final(out)@) == tts_view(old(out)@) + unary_tokens(*self),
    {
        let toks = code("::kosame::expr::UnaryOp::Not");
        push_all(out, toks);
    }
}

/// The Rust type of a data type: `i32` or `::std::string::String`.
pub open spec fn data_type_tokens(d: DataType) -> Seq<TokenModel> {
    match d {
        DataType::Int(_) => quote_tokens("i32"@, Seq::empty()),
        DataType::Text(_) => quote_tokens("::std::string::String"@, Seq::empty()),
    }
}

impl DataType {
    pub fn to_tokens(&self, out: &mut Vec<TokenTree>)
        ensures
            tts_view(final(out)@) == tts_view(old(out)@) + data_type_tokens(*self),
    {
        let toks = match self {
            DataType::Int(_) => code("i32"),
            DataType::Text(_) => code("::std::string::String"),
        };
        push_all(out, toks);
    }
}

/// The literal as it was written: its text, with a leading `-` where there
/// was one, at the literal's span.
pub open spec fn lit_token_tokens(t: LitTokenModel) -> Seq<TokenModel> {
    let text = if t.minus is Some { seq!['-'] + t.repr } else { t.repr };
    seq![TokenModel::Literal { repr: text, span: t.span }]
}

/// The runtime literal.
pub open spec fn lit_tokens(l: LitModel) -> Seq<TokenModel> {
    match l {
        LitModel::Int(t) => quote_tokens("::kosame::repr::expr::Lit::Int($ as i64)"@, seq![lit_token_tokens(t)]),
        LitModel::Float(t) => quote_tokens("::kosame::repr::expr::Lit::Float($ as f64)"@, seq![lit_token_tokens(t)]),
        LitModel::Str(t) => quote_tokens("::kosame::repr::expr::Lit::Str($)"@, seq![lit_token_tokens(t)]),
        LitModel::Bool(t) => quote_tokens(
            "::kosame::repr::expr::Lit::Bool($)"@,
            seq![seq![TokenModel::Ident(IdentModel { name: t.repr, span: t.span })]],
        ),
        LitModel::Null(_) => quote_tokens("::kosame::repr::expr::Lit::Null"@, Seq::empty()),
    }
}

impl LitToken {
    fn literal(&self) -> (t: TokenTree)
        ensures
            seq![tt_view(t)] == lit_token_tokens(self@),
    {
        proof {
            reveal_strlit("-");
        }
        let repr = match self.minus {
            Some(_) => {
                let mut text = String::from_str("-");
                assert(text@ =~= seq!['-']);
                text.append(self.repr.as_str());
                assert(text@ =~= seq!['-'] + self.repr@);
                text
            },
            None => self.repr.clone(),
        };
        assert(repr@ == (if self.minus is Some { seq!['-'] + self.repr@ } else { self.repr@ }));
        let t = TokenTree::Literal { repr, span: self.span };
        assert(seq![tt_view(t)] =~= lit_token_tokens(self@));
        t
    }
}

impl Lit {
    pub fn to_tokens(&self, out: &mut Vec<TokenTree>)
        ensures
            tts_view(final(out)@) == tts_view(old(out)@) + lit_tokens(self@),
    {
        let toks = match self {
            Lit::Int(t) => code_with("::kosame::repr::expr::Lit::Int($ as i64)", args1(single(t.literal()))),
            Lit::Float(t) => code_with("::kosame::repr::expr::Lit::Float($ as f64)", args1(single(t.literal()))),
            Lit::Str(t) => code_with("::kosame::repr::expr::Lit::Str($)", args1(single(t.literal()))),
            Lit::Bool(t) => code_with(
                "::kosame::repr::expr::Lit::Bool($)",
                args1(single(TokenTree::Ident(Ident::new(t.repr.clone(), t.span)))),
            ),
            Lit::Null(_) => code("::kosame::repr::expr::Lit::Null"),
        };
        push_all(out, toks);
    }
}

// ---------------------------------------------------------------------------
// Expressions.
// ---------------------------------------------------------------------------

/// The name of an expression's variant in the runtime representation.
pub open spec fn expr_variant(e: ExprModel) -> Seq<char> {
    match e {
        ExprModel::Binary { .. } => "Binary"@,
        ExprModel::BindParam { .. } => "BindParam"@,
        ExprModel::Call { .. } => "Call"@,
        ExprModel::Cast { .. } => "Cast"@,
        ExprModel::ColumnRef { .. } => "ColumnRef"@,
        ExprModel::Lit(_) => "Lit"@,
        ExprModel::Paren { .. } => "Paren"@,
        ExprModel::Unary { .. } => "Unary"@,
    }
}

/// The runtime expression: `::kosame::repr::expr::Expr::Variant(inner)`.
pub open spec fn expr_tokens(e: ExprModel) -> Seq<TokenModel>
    decreases e,
{
    quote_tokens("::kosame::repr::expr::Expr::$($)"@, seq![seq![ident_tok(expr_variant(e))], expr_inner_tokens(e)])
}

/// The runtime value inside an expression's variant.
pub open spec fn expr_inner_tokens(e: ExprModel) -> Seq<TokenModel>
    decreases e, 0nat,
{
    match e {
        ExprModel::Binary { lhs, op, rhs } => quote_tokens(
            "::kosame::repr::expr::Binary::new(&$, $, &$)"@,
            seq![expr_tokens(*lhs), binop_tokens(op), expr_tokens(*rhs)],
        ),
        ExprModel::BindParam { name, .. } => quote_tokens("params::$::BIND_PARAM"@, seq![seq![TokenModel::Ident(name)]]),
        ExprModel::Call { function, params, .. } => quote_tokens(
            "::kosame::repr::expr::Call::new($, &[$])"@,
            seq![seq![literal_tok(str_literal_text(function.name))], params_tokens(params)],
        ),
        ExprModel::Cast { value, data_type, .. } => quote_tokens(
            "::kosame::repr::expr::Cast::new(&$, $)"@,
            seq![expr_tokens(*value), seq![literal_tok(str_literal_text(data_type.spec_name()))]],
        ),
        ExprModel::ColumnRef { correlation, name } => match correlation {
            Some((c, _)) => quote_tokens(
                "::kosame::repr::expr::ColumnRef::new(Some(scope::$::TABLE_NAME), scope::$::columns::$::COLUMN_NAME)"@,
                seq![seq![TokenModel::Ident(c)], seq![TokenModel::Ident(c)], seq![TokenModel::Ident(name)]],
            ),
            None => quote_tokens(
                "::kosame::repr::expr::ColumnRef::new(::core::option::Option::None, scope::$::COLUMN_NAME)"@,
                seq![seq![TokenModel::Ident(name)]],
            ),
        },
        ExprModel::Lit(l) => lit_tokens(l),
        ExprModel::Paren { expr, .. } => quote_tokens("::kosame::repr::expr::Paren::new(&$)"@, seq![expr_tokens(*expr)]),
        ExprModel::Unary { uop, operand } => quote_tokens(
            "::kosame::expr::Unary::new($, &$)"@,
            seq![unary_tokens(uop), expr_tokens(*operand)],
        ),
    }
}

/// The arguments of a call, each borrowed: `&a, &b, ...`.
pub open spec fn params_tokens(s: Seq<ExprModel>) -> Seq<TokenModel>
    decreases s,
{
    if s.len() == 0 {
        Seq::empty()
    } else {
        let sep = if s.len() > 1 { seq![punct_tok(',', Spacing::Alone)] } else { Seq::empty() };
        params_tokens(s.drop_last()) + sep + seq![punct_tok('&', Spacing::Alone)] + expr_tokens(s.last())
    }
}

impl Expr {
    fn variant_name(&self) -> (name: &'static str)
        ensures
            name@ == expr_variant(self@),
    {
        match self {
            Expr::Binary(_) => "Binary",
            Expr::BindParam(_) => "BindParam",
            Expr::Call(_) => "Call",
            Expr::Cast(_) => "Cast",
            Expr::ColumnRef(_) => "ColumnRef",
            Expr::Lit(_) => "Lit",
            Expr::Paren(_) => "Paren",
            Expr::Unary(_) => "Unary",
        }
    }

    /// Appends the code that builds the expression's runtime representation.
    pub fn to_tokens(&self, out: &mut Vec<TokenTree>)
        ensures
            tts_view(final(out)@) == tts_view(old(out)@) + expr_tokens(self@),
        decreases self, 1nat,
    {
        let inner = self.inner_tokens();
        let args = args2(single(ident_token(self.variant_name())), inner);
        quote_into(out, "::kosame::repr::expr::Expr::$($)", &args);
    }

    fn inner_tokens(&self) -> (toks: Vec<TokenTree>)
        ensures
            tts_view(toks@) == expr_inner_tokens(self@),
        decreases self, 0nat,
    {
        match self {
            Expr::Binary(b) => {
                let mut lhs: Vec<TokenTree> = Vec::new();
                assert(tts_view(lhs@) =~= Seq::<TokenModel>::empty());
                b.lhs.to_tokens(&mut lhs);
                assert(tts_view(lhs@) =~= expr_tokens(b.lhs@));
                let mut op: Vec<TokenTree> = Vec::new();
                assert(tts_view(op@) =~= Seq::<TokenModel>::empty());
                b.op.to_tokens(&mut op);
                assert(tts_view(op@) =~= binop_tokens(b.op));
                let mut rhs: Vec<TokenTree> = Vec::new();
                assert(tts_view(rhs@) =~= Seq::<TokenModel>::empty());
                b.rhs.to_tokens(&mut rhs);
                assert(tts_view(rhs@) =~= expr_tokens(b.rhs@));
                code_with("::kosame::repr::expr::Binary::new(&$, $, &$)", args3(lhs, op, rhs))
            },
            Expr::BindParam(p) => code_with("params::$::BIND_PARAM", args1(single(TokenTree::Ident(p.name.duplicate())))),
            Expr::Call(c) => {
                let name = single(string_literal(c.function.name.as_str()));
                let params = c.params_tokens();
                code_with("::kosame::repr::expr::Call::new($, &[$])", args2(name, params))
            },
            Expr::Cast(c) => {
                let mut value: Vec<TokenTree> = Vec::new();
                assert(tts_view(value@) =~= Seq::<TokenModel>::empty());
                c.value.to_tokens(&mut value);
                assert(tts_view(value@) =~= expr_tokens(c.value@));
                let name = single(string_literal(c.data_type.name()));
                code_with("::kosame::repr::expr::Cast::new(&$, $)", args2(value, name))
            },
            Expr::ColumnRef(r) => match &r.correlation {
                Some(k) => code_with(
                    "::kosame::repr::expr::ColumnRef::new(Some(scope::$::TABLE_NAME), scope::$::columns::$::COLUMN_NAME)",
                    args3(
                        single(TokenTree::Ident(k.name.duplicate())),
                        single(TokenTree::Ident(k.name.duplicate())),
                        single(TokenTree::Ident(r.name.duplicate())),
                    ),
                ),
                None => code_with(
                    "::kosame::repr::expr::ColumnRef::new(::core::option::Option::None, scope::$::COLUMN_NAME)",
                    args1(single(TokenTree::Ident(r.name.duplicate()))),
                ),
            },
            Expr::Lit(l) => {
                let mut toks: Vec<TokenTree> = Vec::new();
                assert(tts_view(toks@) =~= Seq::<TokenModel>::empty());
                l.to_tokens(&mut toks);
                assert(tts_view(toks@) =~= lit_tokens(l@));
                toks
            },
            Expr::Paren(p) => {
                let mut inner: Vec<TokenTree> = Vec::new();
                assert(tts_view(inner@) =~= Seq::<TokenModel>::empty());
                p.expr.to_tokens(&mut inner);
                assert(tts_view(inner@) =~= expr_tokens(p.expr@));
                code_with("::kosame::repr::expr::Paren::new(&$)", args1(inner))
            },
            Expr::Unary(u) => {
                let mut op: Vec<TokenTree> = Vec::new();
                assert(tts_view(op@) =~= Seq::<TokenModel>::empty());
                u.op.to_tokens(&mut op);
                assert(tts_view(op@) =~= unary_tokens(u.op));
                let mut operand: Vec<TokenTree> = Vec::new();
                assert(tts_view(operand@) =~= Seq::<TokenModel>::empty());
                u.operand.to_tokens(&mut operand);
                assert(tts_view(operand@) =~= expr_tokens(u.operand@));
                code_with("::kosame::expr::Unary::new($, &$)", args2(op, operand))
            },
        }
    }
}

impl crate::expr::Call {
    /// `&a, &b, ...` for the call's arguments.
    fn params_tokens(&self) -> (toks: Vec<TokenTree>)
        ensures
            tts_view(toks@) == params_tokens(exprs_view(self.params@)),
        decreases self,
    {
        let ghost ps = exprs_view(self.params@);
        proof {
            lemma_exprs_view(self.params@);
        }
        let mut toks: Vec<TokenTree> = Vec::new();
        assert(tts_view(toks@) =~= Seq::<TokenModel>::empty());
        let mut i: usize = 0;
        while i < self.params.len()
            invariant
                i <= self.params.len(),
                ps == exprs_view(self.params@),
                ps.len() == self.params.len(),
                forall|k: int| 0 <= k < self.params.len() ==> #[trigger] ps[k] == expr_view(self.params@[k]),
                tts_view(toks@) == params_tokens(ps.subrange(0, i as int)),
            decreases self.params.len() - i,
        {
            let ghost before = tts_view(toks@);
            if i > 0 {
                push_token(&mut toks, punct_token(',', Spacing::Alone));
            }
            push_token(&mut toks, punct_token('&', Spacing::Alone));
            proof {
                assert(decreases_to!(*self => self.params));
                assert(decreases_to!(self.params => self.params@[i as int]));
            }
            self.params[i].to_tokens(&mut toks);
            proof {
                let sub = ps.subrange(0, i + 1);
                assert(sub.drop_last() =~= ps.subrange(0, i as int));
                assert(sub.last() == ps[i as int]);
                assert(tts_view(toks@) =~= params_tokens(sub));
            }
            i += 1;
        }
        assert(ps.subrange(0, self.params.len() as int) =~= ps);
        toks
    }
}

// ---------------------------------------------------------------------------
// Lists and options.
// ---------------------------------------------------------------------------

/// Runs of tokens separated by commas.
pub open spec fn joined(parts: Seq<Seq<TokenModel>>) -> Seq<TokenModel>
    decreases parts.len(),
{
    if parts.len() == 0 {
        Seq::empty()
    } else {
        let sep = if parts.len() > 1 { seq![punct_tok(',', Spacing::Alone)] } else { Seq::empty() };
        joined(parts.drop_last()) + sep + parts.last()
    }
}

/// Joins runs of tokens with commas.
pub fn join_parts(parts: Vec<Vec<TokenTree>>) -> (toks: Vec<TokenTree>)
    ensures
        tts_view(toks@) == joined(args_view(parts@)),
{
    let ghost pm = args_view(parts@);
    let mut toks: Vec<TokenTree> = Vec::new();
    assert(tts_view(toks@) =~= Seq::<TokenModel>::empty());
    let mut rest = parts;
    let mut i: usize = 0;
    assert(pm.len() == rest.len());
    while rest.len() > 0
        invariant
            pm.len() == i + rest.len(),
            pm.len() <= usize::MAX,
            forall|k: int| 0 <= k < rest.len() ==> #[trigger] tts_view(rest@[k]@) == pm[i + k],
            tts_view(toks@) == joined(pm.subrange(0, i as int)),
        decreases rest.len(),
    {
        let part = rest.remove(0);
        assert(tts_view(part@) == pm[i as int]);
        if i > 0 {
            push_token(&mut toks, punct_token(',', Spacing::Alone));
        }
        push_all(&mut toks, part);
        proof {
            let sub = pm.subrange(0, i + 1);
            assert(sub.drop_last() =~= pm.subrange(0, i as int));
            assert(sub.last() == pm[i as int]);
            assert(tts_view(toks@) =~= joined(sub));
        }
        i += 1;
    }
    assert(pm.subrange(0, i as int) =~= pm);
    toks
}

/// `::std::option::Option::Some(inner)` or `::std::option::Option::None`.
pub open spec fn option_tokens(o: Option<Seq<TokenModel>>) -> Seq<TokenModel> {
    match o {
        Some(t) => quote_tokens("::std::option::Option::Some($)"@, seq![t]),
        None => quote_tokens("::std::option::Option::None"@, Seq::empty()),
    }
}

/// Optional tokens, written as an `Option` at the call site.
#[derive(Debug)]
pub struct QuoteOption(pub Option<Vec<TokenTree>>);

impl QuoteOption {
    pub open spec fn model(&self) -> Option<Seq<TokenModel>> {
        match self.0 {
            Some(t) => Some(tts_view(t@)),
            None => None,
        }
    }

    pub fn to_tokens(&self, out: &mut Vec<TokenTree>)
        ensures
            tts_view(final(out)@) == tts_view(old(out)@) + option_tokens(self.model()),
    {
        let toks = match &self.0 {
            Some(t) => code_with("::std::option::Option::Some($)", args1(crate::token::copy_stream(t))),
            None => code("::std::option::Option::None"),
        };
        push_all(out, toks);
    }
}

// ---------------------------------------------------------------------------
// Clauses.
// ---------------------------------------------------------------------------

/// A string literal token at the call site.
pub open spec fn str_tok(s: Seq<char>) -> Seq<TokenModel> {
    seq![literal_tok(str_literal_text(s))]
}

pub open spec fn field_tokens(f: FieldModel) -> Seq<TokenModel> {
    quote_tokens("::kosame::repr::clause::Field::new($, None)"@, seq![expr_tokens(f.expr)])
}

pub open spec fn field_list(s: Seq<FieldModel>) -> Seq<Seq<TokenModel>> {
    s.map_values(|f: FieldModel| field_tokens(f))
}

pub open spec fn fields_tokens(s: Seq<FieldModel>) -> Seq<TokenModel> {
    quote_tokens("::kosame::repr::clause::Fields::new(&[$])"@, seq![joined(field_list(s))])
}

impl Field {
    pub fn to_tokens(&self, out: &mut Vec<TokenTree>)
        ensures
            tts_view(final(out)@) == tts_view(old(out)@) + field_tokens(self@),
    {
        let mut e: Vec<TokenTree> = Vec::new();
        assert(tts_view(e@) =~= Seq::<TokenModel>::empty());
        self.expr.to_tokens(&mut e);
        assert(tts_view(e@) =~= expr_tokens(self.expr@));
        quote_into(out, "::kosame::repr::clause::Field::new($, None)", &args1(e));
    }
}

impl Fields {
    pub fn to_tokens(&self, out: &mut Vec<TokenTree>)
        ensures
            tts_view(final(out)@) == tts_view(old(out)@) + fields_tokens(fields_view(*self)),
    {
        let ghost ms = fields_view(*self);
        let mut parts: Vec<Vec<TokenTree>> = Vec::new();
        let mut i: usize = 0;
        while i < self.0.len()
            invariant
                i <= self.0.len(),
                ms == fields_view(*self),
                ms.len() == self.0.len(),
                args_view(parts@).len() == i,
                forall|k: int| 0 <= k < i ==> #[trigger] args_view(parts@)[k] == field_tokens(ms[k]),
            decreases self.0.len() - i,
        {
            let mut part: Vec<TokenTree> = Vec::new();
            assert(tts_view(part@) =~= Seq::<TokenModel>::empty());
            self.0[i].to_tokens(&mut part);
            assert(ms[i as int] == self.0@[i as int]@);
            assert(tts_view(part@) =~= field_tokens(ms[i as int]));
            let ghost before = args_view(parts@);
            let ghost old_parts = parts@;
            parts.push(part);
            proof {
                lemma_args_view_push(old_parts, parts@[i as int]);
            }
            i += 1;
        }
        assert(args_view(parts@) =~= field_list(ms));
        let list = join_parts(parts);
        quote_into(out, "::kosame::repr::clause::Fields::new(&[$])", &args1(list));
    }
}

pub open spec fn select_clause_tokens(m: SelectClauseModel) -> Seq<TokenModel> {
    quote_tokens("::kosame::repr::clause::Select::new($)"@, seq![fields_tokens(m.fields)])
}

impl clause::Select {
    pub fn to_tokens(&self, out: &mut Vec<TokenTree>)
        ensures
            tts_view(final(out)@) == tts_view(old(out)@) + select_clause_tokens(self@),
    {
        let mut f: Vec<TokenTree> = Vec::new();
        assert(tts_view(f@) =~= Seq::<TokenModel>::empty());
        self.fields.to_tokens(&mut f);
        assert(tts_view(f@) =~= fields_tokens(self@.fields));
        quote_into(out, "::kosame::repr::clause::Select::new($)", &args1(f));
    }
}

pub open spec fn returning_tokens(m: ReturningModel) -> Seq<TokenModel> {
    quote_tokens("::kosame::repr::clause::Returning::new($)"@, seq![fields_tokens(m.fields)])
}

impl Returning {
    pub fn to_tokens(&self, out: &mut Vec<TokenTree>)
        ensures
            tts_view(final(out)@) == tts_view(old(out)@) + returning_tokens(self@),
    {
        let mut f: Vec<TokenTree> = Vec::new();
        assert(tts_view(f@) =~= Seq::<TokenModel>::empty());
        self.fields.to_tokens(&mut f);
        assert(tts_view(f@) =~= fields_tokens(self@.fields));
        quote_into(out, "::kosame::repr::clause::Returning::new($)", &args1(f));
    }
}

/// `::kosame::repr::clause::Kind::new(expr)` for a clause of one
/// expression.
pub open spec fn kw_clause_tokens(kind: Seq<char>, e: ExprModel) -> Seq<TokenModel> {
    quote_tokens("::kosame::repr::clause::$::new($)"@, seq![seq![ident_tok(kind)], expr_tokens(e)])
}

fn kw_clause(kind: &str, e: &Expr, out: &mut Vec<TokenTree>)
    ensures
        tts_view(final(out)@) == tts_view(old(out)@) + kw_clause_tokens(kind@, e@),
{
    let mut t: Vec<TokenTree> = Vec::new();
    assert(tts_view(t@) =~= Seq::<TokenModel>::empty());
    e.to_tokens(&mut t);
    assert(tts_view(t@) =~= expr_tokens(e@));
    quote_into(out, "::kosame::repr::clause::$::new($)", &args2(single(ident_token(kind)), t));
}

impl Where {
    pub fn to_tokens(&self, out: &mut Vec<TokenTree>)
        ensures
            tts_view(final(out)@) == tts_view(old(out)@) + kw_clause_tokens("Where"@, self.expr@),
    {
        kw_clause("Where", &self.expr, out);
    }
}

impl Having {
    pub fn to_tokens(&self, out: &mut Vec<TokenTree>)
        ensures
            tts_view(final(out)@) == tts_view(old(out)@) + kw_clause_tokens("Having"@, self.expr@),
    {
        kw_clause("Having", &self.expr, out);
    }
}

impl Limit {
    pub fn to_tokens(&self, out: &mut Vec<TokenTree>)
        ensures
            tts_view(final(out)@) == tts_view(old(out)@) + kw_clause_tokens("Limit"@, self.expr@),
    {
        kw_clause("Limit", &self.expr, out);
    }
}

impl Offset {
    pub fn to_tokens(&self, out: &mut Vec<TokenTree>)
        ensures
            tts_view(final(out)@) == tts_view(old(out)@) + kw_clause_tokens("Offset"@, self.expr@),
    {
        kw_clause("Offset", &self.expr, out);
    }
}

pub open spec fn group_by_item_tokens(e: ExprModel) -> Seq<TokenModel> {
    quote_tokens("::kosame::repr::clause::GroupByItem::new($)"@, seq![expr_tokens(e)])
}

pub open spec fn group_by_list(s: Seq<ExprModel>) -> Seq<Seq<TokenModel>> {
    s.map_values(|e: ExprModel| group_by_item_tokens(e))
}

pub open spec fn group_by_tokens(m: GroupByModel) -> Seq<TokenModel> {
    quote_tokens("::kosame::repr::clause::GroupBy::new(&[$])"@, seq![joined(group_by_list(m.items))])
}

impl GroupBy {
    pub fn to_tokens(&self, out: &mut Vec<TokenTree>)
        ensures
            tts_view(final(out)@) == tts_view(old(out)@) + group_by_tokens(self@),
    {
        let ghost ms = self@.items;
        let mut parts: Vec<Vec<TokenTree>> = Vec::new();
        let mut i: usize = 0;
        while i < self.items.len()
            invariant
                i <= self.items.len(),
                ms == self@.items,
                ms.len() == self.items.len(),
                args_view(parts@).len() == i,
                forall|k: int| 0 <= k < i ==> #[trigger] args_view(parts@)[k] == group_by_item_tokens(ms[k]),
            decreases self.items.len() - i,
        {
            let mut e: Vec<TokenTree> = Vec::new();
            assert(tts_view(e@) =~= Seq::<TokenModel>::empty());
            self.items[i].expr.to_tokens(&mut e);
            assert(ms[i as int] == self.items@[i as int]@);
            assert(tts_view(e@) =~= expr_tokens(ms[i as int]));
            let part = code_with("::kosame::repr::clause::GroupByItem::new($)", args1(e));
            let ghost old_parts = parts@;
            parts.push(part);
            proof {
                lemma_args_view_push(old_parts, parts@[i as int]);
            }
            i += 1;
        }
        assert(args_view(parts@) =~= group_by_list(ms));
        let list = join_parts(parts);
        quote_into(out, "::kosame::repr::clause::GroupBy::new(&[$])", &args1(list));
    }
}

pub open spec fn dir_tokens(d: Option<OrderByDir>) -> Seq<TokenModel> {
    match d {
        Some(OrderByDir::Asc(_)) => quote_tokens("Some(::kosame::repr::clause::OrderByDir::Asc)"@, Seq::empty()),
        Some(OrderByDir::Desc(_)) => quote_tokens("Some(::kosame::repr::clause::OrderByDir::Desc)"@, Seq::empty()),
        None => quote_tokens("None"@, Seq::empty()),
    }
}

pub open spec fn nulls_tokens(n: Option<OrderByNulls>) -> Seq<TokenModel> {
    match n {
        Some(OrderByNulls::First(..)) => quote_tokens("Some(::kosame::repr::clause::OrderByNulls::First)"@, Seq::empty()),
        Some(OrderByNulls::Last(..)) => quote_tokens("Some(::kosame::repr::clause::OrderByNulls::Last)"@, Seq::empty()),
        None => quote_tokens("None"@, Seq::empty()),
    }
}

pub open spec fn order_item_tokens(i: OrderByItemModel) -> Seq<TokenModel> {
    quote_tokens("::kosame::repr::clause::OrderByItem::new($, $, $)"@, seq![expr_tokens(i.expr), dir_tokens(i.dir), nulls_tokens(i.nulls)])
}

pub open spec fn order_item_list(s: Seq<OrderByItemModel>) -> Seq<Seq<TokenModel>> {
    s.map_values(|i: OrderByItemModel| order_item_tokens(i))
}

pub open spec fn order_by_tokens(m: OrderByModel) -> Seq<TokenModel> {
    quote_tokens("::kosame::repr::clause::OrderBy::new(&[$])"@, seq![joined(order_item_list(m.items))])
}

impl OrderByItem {
    pub fn to_tokens(&self, out: &mut Vec<TokenTree>)
        ensures
            tts_view(final(out)@) == tts_view(old(out)@) + order_item_tokens(self@),
    {
        let mut e: Vec<TokenTree> = Vec::new();
        assert(tts_view(e@) =~= Seq::<TokenModel>::empty());
        self.expr.to_tokens(&mut e);
        let dir = match self.dir {
            Some(OrderByDir::Asc(_)) => code("Some(::kosame::repr::clause::OrderByDir::Asc)"),
            Some(OrderByDir::Desc(_)) => code("Some(::kosame::repr::clause::OrderByDir::Desc)"),
            None => code("None"),
        };
        let nulls = match self.nulls {
            Some(OrderByNulls::First(..)) => code("Some(::kosame::repr::clause::OrderByNulls::First)"),
            Some(OrderByNulls::Last(..)) => code("Some(::kosame::repr::clause::OrderByNulls::Last)"),
            None => code("None"),
        };
        quote_into(out, "::kosame::repr::clause::OrderByItem::new($, $, $)", &args3(e, dir, nulls));
    }
}

impl OrderBy {
    pub fn to_tokens(&self, out: &mut Vec<TokenTree>)
        ensures
            tts_view(final(out)@) == tts_view(old(out)@) + order_by_tokens(self@),
    {
        let ghost ms = self@.items;
        let mut parts: Vec<Vec<TokenTree>> = Vec::new();
        let mut i: usize = 0;
        while i < self.items.len()
            invariant
                i <= self.items.len(),
                ms == self@.items,
                ms.len() == self.items.len(),
                args_view(parts@).len() == i,
                forall|k: int| 0 <= k < i ==> #[trigger] args_view(parts@)[k] == order_item_tokens(ms[k]),
            decreases self.items.len() - i,
        {
            let mut part: Vec<TokenTree> = Vec::new();
            assert(tts_view(part@) =~= Seq::<TokenModel>::empty());
            self.items[i].to_tokens(&mut part);
            assert(ms[i as int] == self.items@[i as int]@);
            assert(tts_view(part@) =~= order_item_tokens(ms[i as int]));
            let ghost old_parts = parts@;
            parts.push(part);
            proof {
                lemma_args_view_push(old_parts, parts@[i as int]);
            }
            i += 1;
        }
        assert(args_view(parts@) =~= order_item_list(ms));
        let list = join_parts(parts);
        quote_into(out, "::kosame::repr::clause::OrderBy::new(&[$])", &args1(list));
    }
}

pub open spec fn set_item_tokens(i: SetItemModel) -> Seq<TokenModel> {
    match i {
        SetItemModel::Default { column, .. } =>
            quote_tokens("::kosame::repr::clause::SetItem::Default { column: $ }"@, seq![str_tok(column.name)]),
        SetItemModel::Expr { column, expr, .. } =>
            quote_tokens("::kosame::repr::clause::SetItem::Expr { column: $, expr: $ }"@, seq![str_tok(column.name), expr_tokens(expr)]),
    }
}

pub open spec fn set_item_list(s: Seq<SetItemModel>) -> Seq<Seq<TokenModel>> {
    s.map_values(|i: SetItemModel| set_item_tokens(i))
}

pub open spec fn set_tokens(m: SetClauseModel) -> Seq<TokenModel> {
    quote_tokens("::kosame::repr::clause::Set::new(&[$])"@, seq![joined(set_item_list(m.items))])
}

impl SetItem {
    pub fn to_tokens(&self, out: &mut Vec<TokenTree>)
        ensures
            tts_view(final(out)@) == tts_view(old(out)@) + set_item_tokens(self@),
    {
        let toks = match self {
            SetItem::Default { column, .. } => code_with(
                "::kosame::repr::clause::SetItem::Default { column: $ }",
                args1(single(string_literal(column.name.as_str()))),
            ),
            SetItem::Expr { column, expr, .. } => {
                let mut e: Vec<TokenTree> = Vec::new();
                assert(tts_view(e@) =~= Seq::<TokenModel>::empty());
                expr.to_tokens(&mut e);
                assert(tts_view(e@) =~= expr_tokens(expr@));
                code_with(
                    "::kosame::repr::clause::SetItem::Expr { column: $, expr: $ }",
                    args2(single(string_literal(column.name.as_str())), e),
                )
            },
        };
        push_all(out, toks);
    }
}

impl SetClause {
    pub fn to_tokens(&self, out: &mut Vec<TokenTree>)
        ensures
            tts_view(final(out)@) == tts_view(old(out)@) + set_tokens(self@),
    {
        let ghost ms = self@.items;
        let mut parts: Vec<Vec<TokenTree>> = Vec::new();
        let mut i: usize = 0;
        while i < self.items.len()
            invariant
                i <= self.items.len(),
                ms == self@.items,
                ms.len() == self.items.len(),
                args_view(parts@).len() == i,
                forall|k: int| 0 <= k < i ==> #[trigger] args_view(parts@)[k] == set_item_tokens(ms[k]),
            decreases self.items.len() - i,
        {
            let mut part: Vec<TokenTree> = Vec::new();
            assert(tts_view(part@) =~= Seq::<TokenModel>::empty());
            self.items[i].to_tokens(&mut part);
            assert(ms[i as int] == self.items@[i as int]@);
            assert(tts_view(part@) =~= set_item_tokens(ms[i as int]));
            let ghost old_parts = parts@;
            parts.push(part);
            proof {
                lemma_args_view_push(old_parts, parts@[i as int]);
            }
            i += 1;
        }
        assert(args_view(parts@) =~= set_item_list(ms));
        let list = join_parts(parts);
        quote_into(out, "::kosame::repr::clause::Set::new(&[$])", &args1(list));
    }
}

/// A value of a `values` row; each is written with a comma after it, so that
/// the joined list holds doubled commas.
pub open spec fn values_item_tokens(i: ValuesItemModel) -> Seq<TokenModel> {
    match i {
        ValuesItemModel::Default(_) => quote_tokens("::kosame::repr::clause::ValuesItem::Default,"@, Seq::empty()),
        ValuesItemModel::Expr(e) => quote_tokens("::kosame::repr::clause::ValuesItem::Expr($),"@, seq![expr_tokens(e)]),
    }
}

pub open spec fn values_item_list(s: Seq<ValuesItemModel>) -> Seq<Seq<TokenModel>> {
    s.map_values(|i: ValuesItemModel| values_item_tokens(i))
}

pub open spec fn values_row_tokens(r: ValuesRowModel) -> Seq<TokenModel> {
    quote_tokens("::kosame::repr::clause::ValuesRow::new(&[$])"@, seq![joined(values_item_list(r.items))])
}

pub open spec fn values_row_list(s: Seq<ValuesRowModel>) -> Seq<Seq<TokenModel>> {
    s.map_values(|r: ValuesRowModel| values_row_tokens(r))
}

pub open spec fn values_tokens(m: ValuesModel) -> Seq<TokenModel> {
    quote_tokens("::kosame::repr::clause::Values::new(&[$])"@, seq![joined(values_row_list(m.rows))])
}

impl ValuesItem {
    pub fn to_tokens(&self, out: &mut Vec<TokenTree>)
        ensures
            tts_view(final(out)@) == tts_view(old(out)@) + values_item_tokens(self@),
    {
        let toks = match self {
            ValuesItem::Default(_) => code("::kosame::repr::clause::ValuesItem::Default,"),
            ValuesItem::Expr(e) => {
                let mut t: Vec<TokenTree> = Vec::new();
                assert(tts_view(t@) =~= Seq::<TokenModel>::empty());
                e.to_tokens(&mut t);
                assert(tts_view(t@) =~= expr_tokens(e@));
                code_with("::kosame::repr::clause::ValuesItem::Expr($),", args1(t))
            },
        };
        push_all(out, toks);
    }
}

impl ValuesRow {
    pub fn to_tokens(&self, out: &mut Vec<TokenTree>)
        ensures
            tts_view(final(out)@) == tts_view(old(out)@) + values_row_tokens(self@),
    {
        let ghost ms = self@.items;
        let mut parts: Vec<Vec<TokenTree>> = Vec::new();
        let mut i: usize = 0;
        while i < self.items.len()
            invariant
                i <= self.items.len(),
                ms == self@.items,
                ms.len() == self.items.len(),
                args_view(parts@).len() == i,
                forall|k: int| 0 <= k < i ==> #[trigger] args_view(parts@)[k] == values_item_tokens(ms[k]),
            decreases self.items.len() - i,
        {
            let mut part: Vec<TokenTree> = Vec::new();
            assert(tts_view(part@) =~= Seq::<TokenModel>::empty());
            self.items[i].to_tokens(&mut part);
            assert(ms[i as int] == self.items@[i as int]@);
            assert(tts_view(part@) =~= values_item_tokens(ms[i as int]));
            let ghost old_parts = parts@;
            parts.push(part);
            proof {
                lemma_args_view_push(old_parts, parts@[i as int]);
            }
            i += 1;
        }
        assert(args_view(parts@) =~= values_item_list(ms));
        let list = join_parts(parts);
        quote_into(out, "::kosame::repr::clause::ValuesRow::new(&[$])", &args1(list));
    }
}

impl Values {
    pub fn to_tokens(&self, out: &mut Vec<TokenTree>)
        ensures
            tts_view(final(out)@) == tts_view(old(out)@) + values_tokens(self@),
    {
        let ghost ms = self@.rows;
        let mut parts: Vec<Vec<TokenTree>> = Vec::new();
        let mut i: usize = 0;
        while i < self.rows.len()
            invariant
                i <= self.rows.len(),
                ms == self@.rows,
                ms.len() == self.rows.len(),
                args_view(parts@).len() == i,
                forall|k: int| 0 <= k < i ==> #[trigger] args_view(parts@)[k] == values_row_tokens(ms[k]),
            decreases self.rows.len() - i,
        {
            let mut part: Vec<TokenTree> = Vec::new();
            assert(tts_view(part@) =~= Seq::<TokenModel>::empty());
            self.rows[i].to_tokens(&mut part);
            assert(ms[i as int] == self.rows@[i as int]@);
            assert(tts_view(part@) =~= values_row_tokens(ms[i as int]));
            let ghost old_parts = parts@;
            parts.push(part);
            proof {
                lemma_args_view_push(old_parts, parts@[i as int]);
            }
            i += 1;
        }
        assert(args_view(parts@) =~= values_row_list(ms));
        let list = join_parts(parts);
        quote_into(out, "::kosame::repr::clause::Values::new(&[$])", &args1(list));
    }
}

pub open spec fn column_name_list(s: Seq<IdentModel>) -> Seq<Seq<TokenModel>> {
    s.map_values(|i: IdentModel| str_tok(i.name))
}

pub open spec fn column_list_tokens(c: ColumnListModel) -> Seq<TokenModel> {
    quote_tokens("::kosame::repr::part::ColumnList::new(&[$])"@, seq![joined(column_name_list(c.columns))])
}

impl ColumnList {
    pub fn to_tokens(&self, out: &mut Vec<TokenTree>)
        ensures
            tts_view(final(out)@) == tts_view(old(out)@) + column_list_tokens(self@),
    {
        let ghost ms = self@.columns;
        let mut parts: Vec<Vec<TokenTree>> = Vec::new();
        let mut i: usize = 0;
        while i < self.columns.len()
            invariant
                i <= self.columns.len(),
                ms == self@.columns,
                ms.len() == self.columns.len(),
                args_view(parts@).len() == i,
                forall|k: int| 0 <= k < i ==> #[trigger] args_view(parts@)[k] == str_tok(ms[k].name),
            decreases self.columns.len() - i,
        {
            let part = single(string_literal(self.columns[i].name.as_str()));
            assert(ms[i as int] == self.columns@[i as int]@);
            assert(tts_view(part@) =~= str_tok(ms[i as int].name));
            let ghost old_parts = parts@;
            parts.push(part);
            proof {
                lemma_args_view_push(old_parts, parts@[i as int]);
            }
            i += 1;
        }
        assert(args_view(parts@) =~= column_name_list(ms));
        let list = join_parts(parts);
        quote_into(out, "::kosame::repr::part::ColumnList::new(&[$])", &args1(list));
    }
}

/// The column list of an alias, if it has one.
pub open spec fn alias_columns(a: TableAliasModel) -> Option<Seq<TokenModel>> {
    match a.columns {
        Some(c) => Some(column_list_tokens(c)),
        None => None,
    }
}

pub open spec fn table_alias_tokens(a: TableAliasModel) -> Seq<TokenModel> {
    quote_tokens("::kosame::repr::part::TableAlias::new($, $)"@, seq![str_tok(a.name.name), option_tokens(alias_columns(a))])
}

impl TableAlias {
    pub fn to_tokens(&self, out: &mut Vec<TokenTree>)
        ensures
            tts_view(final(out)@) == tts_view(old(out)@) + table_alias_tokens(self@),
    {
        let columns = match &self.columns {
            Some(c) => {
                let mut t: Vec<TokenTree> = Vec::new();
                assert(tts_view(t@) =~= Seq::<TokenModel>::empty());
                c.to_tokens(&mut t);
                assert(tts_view(t@) =~= column_list_tokens(c@));
                let r = code_with("::std::option::Option::Some($)", args1(t));
                assert(tts_view(r@) == option_tokens(Some(column_list_tokens(c@))));
                r
            },
            None => code("::std::option::Option::None"),
        };
        let ghost cm = alias_columns(self@);
        assert(tts_view(columns@) == option_tokens(cm));
        let name = single(string_literal(self.name.name.as_str()));
        assert(tts_view(name@) =~= str_tok(self@.name.name));
        assert(tts_view(columns@) == option_tokens(match self@.columns {
            Some(c) => Some(column_list_tokens(c)),
            None => None,
        }));
        let args = args2(name, columns);
        assert(args_view(args@) =~= seq![str_tok(self@.name.name), option_tokens(cm)]);
        quote_into(out, "::kosame::repr::part::TableAlias::new($, $)", &args);
    }
}

pub open spec fn join_type_name(j: JoinType) -> Seq<char> {
    match j {
        JoinType::Inner(..) => "Inner"@,
        JoinType::Left(..) => "Left"@,
        JoinType::Right(..) => "Right"@,
        JoinType::Full(..) => "Full"@,
    }
}

pub open spec fn join_type_tokens(j: JoinType) -> Seq<TokenModel> {
    quote_tokens("::kosame::repr::clause::JoinType::$"@, seq![seq![ident_tok(join_type_name(j))]])
}

impl JoinType {
    pub fn to_tokens(&self, out: &mut Vec<TokenTree>)
        ensures
            tts_view(final(out)@) == tts_view(old(out)@) + join_type_tokens(*self),
    {
        let name = match self {
            JoinType::Inner(..) => "Inner",
            JoinType::Left(..) => "Left",
            JoinType::Right(..) => "Right",
            JoinType::Full(..) => "Full",
        };
        quote_into(out, "::kosame::repr::clause::JoinType::$", &args1(single(ident_token(name))));
    }
}

// ---------------------------------------------------------------------------
// `from` items and the `select` command.
// ---------------------------------------------------------------------------

pub open spec fn bool_tokens(b: bool) -> Seq<TokenModel> {
    seq![ident_tok(if b { "true"@ } else { "false"@ })]
}

pub open spec fn alias_option(a: Option<TableAliasModel>) -> Option<Seq<TokenModel>> {
    match a {
        Some(a) => Some(table_alias_tokens(a)),
        None => None,
    }
}

/// The runtime `from` item; a table is named by its path as seen from the
/// generated module one level down.
pub open spec fn from_item_tokens(f: FromItemModel) -> Seq<TokenModel>
    decreases f,
{
    match f {
        FromItemModel::Table { table, alias } => quote_tokens(
            "::kosame::repr::clause::FromItem::Table { table: &$::TABLE, alias: $, }"@,
            seq![path_tokens(spec_to_call_site(table, 1)), option_tokens(alias_option(alias))],
        ),
        FromItemModel::Subquery { lateral, select, alias, .. } => quote_tokens(
            "::kosame::repr::clause::FromItem::Subquery { lateral: $, select: &$, alias: $, }"@,
            seq![bool_tokens(lateral is Some), select_cmd_tokens(*select), option_tokens(alias_option(alias))],
        ),
        FromItemModel::Join { left, join_type, right, on } => quote_tokens(
            "::kosame::repr::clause::FromItem::Join { left: &$, join_type: $, right: &$, on: $, }"@,
            seq![from_item_tokens(*left), join_type_tokens(join_type), from_item_tokens(*right), expr_tokens(on.expr)],
        ),
        FromItemModel::NaturalJoin { left, join_type, right, .. } => quote_tokens(
            "::kosame::repr::clause::FromItem::NaturalJoin { left: &$, join_type: $, right: &$, }"@,
            seq![from_item_tokens(*left), join_type_tokens(join_type), from_item_tokens(*right)],
        ),
        FromItemModel::CrossJoin { left, right, .. } => quote_tokens(
            "::kosame::repr::clause::FromItem::CrossJoin { left: &$, right: &$, }"@,
            seq![from_item_tokens(*left), from_item_tokens(*right)],
        ),
    }
}

/// `::kosame::repr::clause::From::new(item)`, if there is a `from` clause.
pub open spec fn from_option(f: Option<FromModel>) -> Option<Seq<TokenModel>>
    decreases f,
{
    match f {
        Some(f) => Some(quote_tokens("::kosame::repr::clause::From::new($)"@, seq![from_item_tokens(f.item)])),
        None => None,
    }
}

pub open spec fn kw_option(kind: Seq<char>, k: Option<KeywordExprModel>) -> Option<Seq<TokenModel>> {
    match k {
        Some(k) => Some(kw_clause_tokens(kind, k.expr)),
        None => None,
    }
}

pub open spec fn group_by_option(g: Option<GroupByModel>) -> Option<Seq<TokenModel>> {
    match g {
        Some(g) => Some(group_by_tokens(g)),
        None => None,
    }
}

pub open spec fn order_by_option(o: Option<OrderByModel>) -> Option<Seq<TokenModel>> {
    match o {
        Some(o) => Some(order_by_tokens(o)),
        None => None,
    }
}

/// The runtime `select` command, as a block that defines it as a constant and
/// yields it.
pub open spec fn select_cmd_tokens(s: SelectModel) -> Seq<TokenModel>
    decreases s,
{
    quote_tokens(
        "{ const select: ::kosame::repr::command::Select<'static> = ::kosame::repr::command::Select::new($, $, $, $, $, $, $, $,); select }"@,
        seq![
            select_clause_tokens(s.select),
            option_tokens(from_option(s.from)),
            option_tokens(kw_option("Where"@, s.where_clause)),
            option_tokens(group_by_option(s.group_by)),
            option_tokens(kw_option("Having"@, s.having)),
            option_tokens(order_by_option(s.order_by)),
            option_tokens(kw_option("Limit"@, s.limit)),
            option_tokens(kw_option("Offset"@, s.offset)),
        ],
    )
}

/// Tokens written into a fresh run.
fn tokens_of_alias(a: &Option<TableAlias>) -> (toks: Vec<TokenTree>)
    ensures
        tts_view(toks@) == option_tokens(alias_option(opt_view(*a))),
{
    match a {
        Some(a) => {
            let mut t: Vec<TokenTree> = Vec::new();
            assert(tts_view(t@) =~= Seq::<TokenModel>::empty());
            a.to_tokens(&mut t);
            assert(tts_view(t@) =~= table_alias_tokens(a@));
            code_with("::std::option::Option::Some($)", args1(t))
        },
        None => code("::std::option::Option::None"),
    }
}

fn kw_option_tokens(kind: &str, e: Option<&Expr>) -> (toks: Vec<TokenTree>)
    ensures
        tts_view(toks@) == option_tokens(match e {
            Some(e) => Some(kw_clause_tokens(kind@, e@)),
            None => None,
        }),
{
    match e {
        Some(e) => {
            let mut t: Vec<TokenTree> = Vec::new();
            assert(tts_view(t@) =~= Seq::<TokenModel>::empty());
            kw_clause(kind, e, &mut t);
            assert(tts_view(t@) =~= kw_clause_tokens(kind@, e@));
            code_with("::std::option::Option::Some($)", args1(t))
        },
        None => code("::std::option::Option::None"),
    }
}

impl FromItem {
    /// Appends the code that builds the item's runtime representation.
    pub fn to_tokens(&self, out: &mut Vec<TokenTree>)
        ensures
            tts_view(final(out)@) == tts_view(old(out)@) + from_item_tokens(self@),
        decreases self,
    {
        let toks = match self {
            FromItem::Table { table, alias } => {
                let mut t: Vec<TokenTree> = Vec::new();
                assert(tts_view(t@) =~= Seq::<TokenModel>::empty());
                table.to_call_site(1).to_tokens(&mut t);
                assert(tts_view(t@) =~= path_tokens(spec_to_call_site(table@, 1)));
                let a = tokens_of_alias(alias);
                code_with("::kosame::repr::clause::FromItem::Table { table: &$::TABLE, alias: $, }", args2(t, a))
            },
            FromItem::Subquery { lateral, select, alias, .. } => {
                let b = single(ident_token(if lateral.is_some() { "true" } else { "false" }));
                let mut t: Vec<TokenTree> = Vec::new();
                assert(tts_view(t@) =~= Seq::<TokenModel>::empty());
                select.to_tokens(&mut t);
                assert(tts_view(t@) =~= select_cmd_tokens(select@));
                let a = tokens_of_alias(alias);
                code_with(
                    "::kosame::repr::clause::FromItem::Subquery { lateral: $, select: &$, alias: $, }",
                    args3(b, t, a),
                )
            },
            FromItem::Join { left, join_type, right, on } => {
                let mut l: Vec<TokenTree> = Vec::new();
                assert(tts_view(l@) =~= Seq::<TokenModel>::empty());
                left.to_tokens(&mut l);
                assert(tts_view(l@) =~= from_item_tokens(left@));
                let mut j: Vec<TokenTree> = Vec::new();
                assert(tts_view(j@) =~= Seq::<TokenModel>::empty());
                join_type.to_tokens(&mut j);
                assert(tts_view(j@) =~= join_type_tokens(*join_type));
                let mut r: Vec<TokenTree> = Vec::new();
                assert(tts_view(r@) =~= Seq::<TokenModel>::empty());
                right.to_tokens(&mut r);
                assert(tts_view(r@) =~= from_item_tokens(right@));
                let mut o: Vec<TokenTree> = Vec::new();
                assert(tts_view(o@) =~= Seq::<TokenModel>::empty());
                on.expr.to_tokens(&mut o);
                assert(tts_view(o@) =~= expr_tokens(on.expr@));
                code_with(
                    "::kosame::repr::clause::FromItem::Join { left: &$, join_type: $, right: &$, on: $, }",
                    args4(l, j, r, o),
                )
            },
            FromItem::NaturalJoin { left, join_type, right, .. } => {
                let mut l: Vec<TokenTree> = Vec::new();
                assert(tts_view(l@) =~= Seq::<TokenModel>::empty());
                left.to_tokens(&mut l);
                assert(tts_view(l@) =~= from_item_tokens(left@));
                let mut j: Vec<TokenTree> = Vec::new();
                assert(tts_view(j@) =~= Seq::<TokenModel>::empty());
                join_type.to_tokens(&mut j);
                assert(tts_view(j@) =~= join_type_tokens(*join_type));
                let mut r: Vec<TokenTree> = Vec::new();
                assert(tts_view(r@) =~= Seq::<TokenModel>::empty());
                right.to_tokens(&mut r);
                assert(tts_view(r@) =~= from_item_tokens(right@));
                code_with(
                    "::kosame::repr::clause::FromItem::NaturalJoin { left: &$, join_type: $, right: &$, }",
                    args3(l, j, r),
                )
            },
            FromItem::CrossJoin { left, right, .. } => {
                let mut l: Vec<TokenTree> = Vec::new();
                assert(tts_view(l@) =~= Seq::<TokenModel>::empty());
                left.to_tokens(&mut l);
                assert(tts_view(l@) =~= from_item_tokens(left@));
                let mut r: Vec<TokenTree> = Vec::new();
                assert(tts_view(r@) =~= Seq::<TokenModel>::empty());
                right.to_tokens(&mut r);
                assert(tts_view(r@) =~= from_item_tokens(right@));
                code_with("::kosame::repr::clause::FromItem::CrossJoin { left: &$, right: &$, }", args2(l, r))
            },
        };
        push_all(out, toks);
    }
}

impl From {
    pub fn to_tokens(&self, out: &mut Vec<TokenTree>)
        ensures
            tts_view(final(out)@) == tts_view(old(out)@) + quote_tokens("::kosame::repr::clause::From::new($)"@, seq![from_item_tokens(self.item@)]),
    {
        let mut t: Vec<TokenTree> = Vec::new();
        assert(tts_view(t@) =~= Seq::<TokenModel>::empty());
        self.item.to_tokens(&mut t);
        assert(tts_view(t@) =~= from_item_tokens(self.item@));
        quote_into(out, "::kosame::repr::clause::From::new($)", &args1(t));
    }
}

impl Select {
    /// Appends the code that builds the command's runtime representation.
    pub fn to_tokens(&self, out: &mut Vec<TokenTree>)
        ensures
            tts_view(final(out)@) == tts_view(old(out)@) + select_cmd_tokens(self@),
        decreases self,
    {
        let ghost m = self@;
        let mut sel: Vec<TokenTree> = Vec::new();
        assert(tts_view(sel@) =~= Seq::<TokenModel>::empty());
        self.select.to_tokens(&mut sel);
        assert(tts_view(sel@) =~= select_clause_tokens(m.select));
        let from = match &self.from {
            Some(f) => {
                let mut t: Vec<TokenTree> = Vec::new();
                assert(tts_view(t@) =~= Seq::<TokenModel>::empty());
                f.item.to_tokens(&mut t);
                assert(tts_view(t@) =~= from_item_tokens(f.item@));
                let inner = code_with("::kosame::repr::clause::From::new($)", args1(t));
                code_with("::std::option::Option::Some($)", args1(inner))
            },
            None => code("::std::option::Option::None"),
        };
        assert(tts_view(from@) == option_tokens(from_option(m.from)));
        let where_clause = kw_option_tokens("Where", match &self.where_clause {
            Some(w) => Some(&w.expr),
            None => None,
        });
        assert(tts_view(where_clause@) == option_tokens(kw_option("Where"@, m.where_clause)));
        let group_by = match &self.group_by {
            Some(g) => {
                let mut t: Vec<TokenTree> = Vec::new();
                assert(tts_view(t@) =~= Seq::<TokenModel>::empty());
                g.to_tokens(&mut t);
                assert(tts_view(t@) =~= group_by_tokens(g@));
                code_with("::std::option::Option::Some($)", args1(t))
            },
            None => code("::std::option::Option::None"),
        };
        assert(tts_view(group_by@) == option_tokens(group_by_option(m.group_by)));
        let having = kw_option_tokens("Having", match &self.having {
            Some(h) => Some(&h.expr),
            None => None,
        });
        assert(tts_view(having@) == option_tokens(kw_option("Having"@, m.having)));
        let order_by = match &self.order_by {
            Some(o) => {
                let mut t: Vec<TokenTree> = Vec::new();
                assert(tts_view(t@) =~= Seq::<TokenModel>::empty());
                o.to_tokens(&mut t);
                assert(tts_view(t@) =~= order_by_tokens(o@));
                code_with("::std::option::Option::Some($)", args1(t))
            },
            None => code("::std::option::Option::None"),
        };
        assert(tts_view(order_by@) == option_tokens(order_by_option(m.order_by)));
        let limit = kw_option_tokens("Limit", match &self.limit {
            Some(l) => Some(&l.expr),
            None => None,
        });
        assert(tts_view(limit@) == option_tokens(kw_option("Limit"@, m.limit)));
        let offset = kw_option_tokens("Offset", match &self.offset {
            Some(o) => Some(&o.expr),
            None => None,
        });
        assert(tts_view(offset@) == option_tokens(kw_option("Offset"@, m.offset)));
        let mut args: Vec<Vec<TokenTree>> = Vec::new();
        let ghost parts = seq![
            tts_view(sel@), tts_view(from@), tts_view(where_clause@), tts_view(group_by@), tts_view(having@),
            tts_view(order_by@), tts_view(limit@), tts_view(offset@),
        ];
        args.push(sel);
        args.push(from);
        args.push(where_clause);
        args.push(group_by);
        args.push(having);
        args.push(order_by);
        args.push(limit);
        args.push(offset);
        assert(args_view(args@) =~= parts);
        quote_into(
            out,
            "{ const select: ::kosame::repr::command::Select<'static> = ::kosame::repr::command::Select::new($, $, $, $, $, $, $, $,); select }",
            &args,
        );
    }
}

// ---------------------------------------------------------------------------
// The other commands.
// ---------------------------------------------------------------------------

pub open spec fn returning_option(r: Option<ReturningModel>) -> Option<Seq<TokenModel>> {
    match r {
        Some(r) => Some(returning_tokens(r)),
        None => None,
    }
}

pub open spec fn using_option(u: Option<UsingModel>) -> Option<Seq<TokenModel>> {
    match u {
        Some(u) => Some(from_item_tokens(u.item)),
        None => None,
    }
}

/// The runtime `delete` command: the table, then the optional `using`,
/// `where` and `returning`.
pub open spec fn delete_cmd_tokens(d: DeleteModel) -> Seq<TokenModel> {
    quote_tokens(
        "{ ::kosame::repr::command::Delete::new(&$::TABLE, $, $, $,) }"@,
        seq![
            path_tokens(spec_to_call_site(d.table, 1)),
            option_tokens(using_option(d.using)),
            option_tokens(kw_option("Where"@, d.where_clause)),
            option_tokens(returning_option(d.returning)),
        ],
    )
}

/// The runtime `insert` command: the table, the values in a block of their
/// own, and the optional `returning`.
pub open spec fn insert_cmd_tokens(i: InsertModel) -> Seq<TokenModel> {
    quote_tokens(
        "{ ::kosame::repr::command::Insert::new(&$::TABLE, { mod scope {} $ }, $,) }"@,
        seq![
            path_tokens(spec_to_call_site(i.table, 1)),
            values_tokens(i.values),
            option_tokens(returning_option(i.returning)),
        ],
    )
}

/// The runtime `update` command: no `with` (the statements read none), the
/// table, the `set` clause, then the optional `from`, `where` and `returning`.
pub open spec fn update_cmd_tokens(u: UpdateModel) -> Seq<TokenModel> {
    quote_tokens(
        "{ ::kosame::repr::command::Update::new(::std::option::Option::None, &$::TABLE, $, $, $, $,) }"@,
        seq![
            path_tokens(spec_to_call_site(u.table, 1)),
            set_tokens(u.set),
            option_tokens(from_option(u.from)),
            option_tokens(kw_option("Where"@, u.where_clause)),
            option_tokens(returning_option(u.returning)),
        ],
    )
}

/// A command wrapped in the runtime `Command` enum.
pub open spec fn command_tokens(c: CommandModel) -> Seq<TokenModel> {
    match c {
        CommandModel::Delete(d) => quote_tokens("::kosame::repr::command::Command::Delete($)"@, seq![delete_cmd_tokens(d)]),
        CommandModel::Select(s) => quote_tokens("::kosame::repr::command::Command::Select($)"@, seq![select_cmd_tokens(s)]),
        CommandModel::Update(u) => quote_tokens("::kosame::repr::command::Command::Update($)"@, seq![update_cmd_tokens(u)]),
    }
}

fn table_at_call_site(table: &crate::path::Path) -> (toks: Vec<TokenTree>)
    ensures
        tts_view(toks@) == path_tokens(spec_to_call_site(table@, 1)),
{
    let mut t: Vec<TokenTree> = Vec::new();
    assert(tts_view(t@) =~= Seq::<TokenModel>::empty());
    table.to_call_site(1).to_tokens(&mut t);
    assert(tts_view(t@) =~= path_tokens(spec_to_call_site(table@, 1)));
    t
}

fn returning_option_tokens(r: &Option<Returning>) -> (toks: Vec<TokenTree>)
    ensures
        tts_view(toks@) == option_tokens(returning_option(opt_view(*r))),
{
    match r {
        Some(r) => {
            let mut t: Vec<TokenTree> = Vec::new();
            assert(tts_view(t@) =~= Seq::<TokenModel>::empty());
            r.to_tokens(&mut t);
            assert(tts_view(t@) =~= returning_tokens(r@));
            code_with("::std::option::Option::Some($)", args1(t))
        },
        None => code("::std::option::Option::None"),
    }
}

fn where_option_tokens(w: &Option<Where>) -> (toks: Vec<TokenTree>)
    ensures
        tts_view(toks@) == option_tokens(kw_option("Where"@, match *w {
            Some(w) => Some(w.parts()),
            None => None,
        })),
{
    kw_option_tokens("Where", match w {
        Some(w) => Some(&w.expr),
        None => None,
    })
}

impl Delete {
    /// Appends the code that builds the command's runtime representation.
    pub fn to_tokens(&self, out: &mut Vec<TokenTree>)
        ensures
            tts_view(final(out)@) == tts_view(old(out)@) + delete_cmd_tokens(self@),
    {
        let table = table_at_call_site(&self.table);
        let using = match &self.using {
            Some(u) => {
                let mut t: Vec<TokenTree> = Vec::new();
                assert(tts_view(t@) =~= Seq::<TokenModel>::empty());
                u.item.to_tokens(&mut t);
                assert(tts_view(t@) =~= from_item_tokens(u.item@));
                code_with("::std::option::Option::Some($)", args1(t))
            },
            None => code("::std::option::Option::None"),
        };
        let where_clause = where_option_tokens(&self.where_clause);
        let returning = returning_option_tokens(&self.returning);
        let args = args4(table, using, where_clause, returning);
        quote_into(out, "{ ::kosame::repr::command::Delete::new(&$::TABLE, $, $, $,) }", &args);
    }
}

impl Insert {
    /// Appends the code that builds the command's runtime representation.
    pub fn to_tokens(&self, out: &mut Vec<TokenTree>)
        ensures
            tts_view(final(out)@) == tts_view(old(out)@) + insert_cmd_tokens(self@),
    {
        let table = table_at_call_site(&self.table);
        let mut values: Vec<TokenTree> = Vec::new();
        assert(tts_view(values@) =~= Seq::<TokenModel>::empty());
        self.values.to_tokens(&mut values);
        assert(tts_view(values@) =~= values_tokens(self.values@));
        let returning = returning_option_tokens(&self.returning);
        let args = args3(table, values, returning);
        quote_into(out, "{ ::kosame::repr::command::Insert::new(&$::TABLE, { mod scope {} $ }, $,) }", &args);
    }
}

impl Update {
    /// Appends the code that builds the command's runtime representation.
    pub fn to_tokens(&self, out: &mut Vec<TokenTree>)
        ensures
            tts_view(final(out)@) == tts_view(old(out)@) + update_cmd_tokens(self@),
    {
        let table = table_at_call_site(&self.table);
        let mut set: Vec<TokenTree> = Vec::new();
        assert(tts_view(set@) =~= Seq::<TokenModel>::empty());
        self.set.to_tokens(&mut set);
        assert(tts_view(set@) =~= set_tokens(self.set@));
        let from = match &self.from {
            Some(f) => {
                let mut t: Vec<TokenTree> = Vec::new();
                assert(tts_view(t@) =~= Seq::<TokenModel>::empty());
                f.to_tokens(&mut t);
                code_with("::std::option::Option::Some($)", args1(t))
            },
            None => code("::std::option::Option::None"),
        };
        assert(tts_view(from@) == option_tokens(from_option(self@.from)));
        let where_clause = where_option_tokens(&self.where_clause);
        let returning = returning_option_tokens(&self.returning);
        let mut args: Vec<Vec<TokenTree>> = Vec::new();
        let ghost parts = seq![tts_view(table@), tts_view(set@), tts_view(from@), tts_view(where_clause@), tts_view(returning@)];
        args.push(table);
        args.push(set);
        args.push(from);
        args.push(where_clause);
        args.push(returning);
        assert(args_view(args@) =~= parts);
        quote_into(
            out,
            "{ ::kosame::repr::command::Update::new(::std::option::Option::None, &$::TABLE, $, $, $, $,) }",
            &args,
        );
    }
}

impl Command {
    /// Appends the code that builds the command's runtime representation.
    pub fn to_tokens(&self, out: &mut Vec<TokenTree>)
        ensures
            tts_view(final(out)@) == tts_view(old(out)@) + command_tokens(self@),
    {
        let mut t: Vec<TokenTree> = Vec::new();
        assert(tts_view(t@) =~= Seq::<TokenModel>::empty());
        match self {
            Command::Delete(d) => {
                d.to_tokens(&mut t);
                assert(tts_view(t@) =~= delete_cmd_tokens(d@));
                quote_into(out, "::kosame::repr::command::Command::Delete($)", &args1(t));
            },
            Command::Select(s) => {
                s.to_tokens(&mut t);
                assert(tts_view(t@) =~= select_cmd_tokens(s@));
                quote_into(out, "::kosame::repr::command::Command::Select($)", &args1(t));
            },
            Command::Update(u) => {
                u.to_tokens(&mut t);
                assert(tts_view(t@) =~= update_cmd_tokens(u@));
                quote_into(out, "::kosame::repr::command::Command::Update($)", &args1(t));
            },
        }
    }
}

// ---------------------------------------------------------------------------
// Laws: the generated code names the join and the direction that the
// keywords asked for.
// ---------------------------------------------------------------------------

/// A join read from `inner`, `left`, `right` or `full` is generated as the
/// runtime join of that name.
pub proof fn lemma_join_type_generated(toks: Seq<TokenTree>, end: Span, pos: int)
    requires
        spec_parse_join_type(toks, end, pos) is Ok,
    ensures
        ({
            let name = join_type_name(spec_parse_join_type(toks, end, pos)->Ok_0.0);
            &&& word_at(toks, pos) == Some("inner"@) ==> name == "Inner"@
            &&& word_at(toks, pos) == Some("left"@) ==> name == "Left"@
            &&& word_at(toks, pos) == Some("right"@) ==> name == "Right"@
            &&& word_at(toks, pos) == Some("full"@) ==> name == "Full"@
        }),
{
    lemma_join_type_names(toks, end, pos);
}

/// An ordering direction read from `asc` or `desc` is generated as the
/// runtime direction of that name.
pub proof fn lemma_order_by_dir_generated(toks: Seq<TokenTree>, end: Span, pos: int)
    requires
        spec_parse_order_by_dir(toks, end, pos) is Ok,
    ensures
        ({
            let t = dir_tokens(Some(spec_parse_order_by_dir(toks, end, pos)->Ok_0.0));
            &&& word_at(toks, pos) == Some("asc"@) ==> t == quote_tokens("Some(::kosame::repr::clause::OrderByDir::Asc)"@, Seq::empty())
            &&& word_at(toks, pos) == Some("desc"@) ==> t == quote_tokens("Some(::kosame::repr::clause::OrderByDir::Desc)"@, Seq::empty())
        }),
{
    lemma_order_by_dir_names(toks, end, pos);
}

} // verus!

//! The SQL commands (`select`, `insert`, `update`, `delete`) and the `from`
//! clause, whose items may hold a whole `select`.

use vstd::prelude::*;
use crate::error::{Keyword, Expected, ErrorKind, ParseError, err, expected, expected_at, error_at};
use crate::token::{
    Span, TokenTree, Delimiter, call_site, call_site_span, tt_span, span_at, span_at_exec, keyword_at, ident_at, group_at,
    group_stream, peek_keyword, peek_ident, peek_group,
};
use crate::expr::{agrees, moved};
use crate::path::{Path, PathModel, spec_parse_path};
use crate::common::{
    Attribute, AttributeModel, attrs_view, spec_parse_outer_attrs, optional, opt_view, agrees_opt,
};
use crate::clause::{
    self, Fields, KeywordExprModel, SelectClauseModel, GroupBy, GroupByModel, OrderBy, OrderByModel, Where,
    Having, Limit, Offset, Returning, ReturningModel, SetClause, SetClauseModel, Values, ValuesModel,
    TableAlias, TableAliasModel, JoinType, On, spec_parse_keyword, parse_keyword, spec_parse_select_clause,
    spec_parse_keyword_expr, spec_parse_group_by, spec_parse_order_by, spec_parse_returning, spec_parse_set,
    spec_parse_values, spec_parse_table_alias, spec_parse_join_type, alias_stop_at, join_keyword_at,
    keyword2_at, having_at,
};

verus! {

// ---------------------------------------------------------------------------
// Syntax trees and their models.
// ---------------------------------------------------------------------------

/// `from item`.
#[derive(Debug)]
pub struct From {
    pub from_token: Span,
    pub item: FromItem,
}

/// An item of a `from` or `using` clause.
#[derive(Debug)]
pub enum FromItem {
    Table { table: Path, alias: Option<TableAlias> },
    Subquery { lateral: Option<Span>, paren: Span, select: Box<Select>, alias: Option<TableAlias> },
    Join { left: Box<FromItem>, join_type: JoinType, right: Box<FromItem>, on: On },
    NaturalJoin { natural: Span, left: Box<FromItem>, join_type: JoinType, right: Box<FromItem> },
    CrossJoin { left: Box<FromItem>, cross: Span, join: Span, right: Box<FromItem> },
}

/// A `select` command.
#[derive(Debug)]
pub struct Select {
    pub attrs: Vec<Attribute>,
    pub select: clause::Select,
    pub from: Option<From>,
    pub where_clause: Option<Where>,
    pub group_by: Option<GroupBy>,
    pub having: Option<Having>,
    pub order_by: Option<OrderBy>,
    pub limit: Option<Limit>,
    pub offset: Option<Offset>,
}

pub struct FromModel {
    pub from_token: Span,
    pub item: FromItemModel,
}

pub enum FromItemModel {
    Table { table: PathModel, alias: Option<TableAliasModel> },
    Subquery { lateral: Option<Span>, paren: Span, select: Box<SelectModel>, alias: Option<TableAliasModel> },
    Join { left: Box<FromItemModel>, join_type: JoinType, right: Box<FromItemModel>, on: KeywordExprModel },
    NaturalJoin { natural: Span, left: Box<FromItemModel>, join_type: JoinType, right: Box<FromItemModel> },
    CrossJoin { left: Box<FromItemModel>, cross: Span, join: Span, right: Box<FromItemModel> },
}

pub struct SelectModel {
    pub attrs: Seq<AttributeModel>,
    pub select: SelectClauseModel,
    pub from: Option<FromModel>,
    pub where_clause: Option<KeywordExprModel>,
    pub group_by: Option<GroupByModel>,
    pub having: Option<KeywordExprModel>,
    pub order_by: Option<OrderByModel>,
    pub limit: Option<KeywordExprModel>,
    pub offset: Option<KeywordExprModel>,
}

pub open spec fn from_item_view(f: FromItem) -> FromItemModel
    decreases f,
{
    match f {
        FromItem::Table { table, alias } => FromItemModel::Table { table: table@, alias: opt_view(alias) },
        FromItem::Subquery { lateral, paren, select, alias } =>
            FromItemModel::Subquery { lateral, paren, select: Box::new(select_view(*select)), alias: opt_view(alias) },
        FromItem::Join { left, join_type, right, on } => FromItemModel::Join {
            left: Box::new(from_item_view(*left)),
            join_type,
            right: Box::new(from_item_view(*right)),
            on: on.parts(),
        },
        FromItem::NaturalJoin { natural, left, join_type, right } => FromItemModel::NaturalJoin {
            natural,
            left: Box::new(from_item_view(*left)),
            join_type,
            right: Box::new(from_item_view(*right)),
        },
        FromItem::CrossJoin { left, cross, join, right } => FromItemModel::CrossJoin {
            left: Box::new(from_item_view(*left)),
            cross,
            join,
            right: Box::new(from_item_view(*right)),
        },
    }
}

pub open spec fn select_view(s: Select) -> SelectModel
    decreases s,
{
    SelectModel {
        attrs: attrs_view(s.attrs@),
        select: s.select@,
        from: match s.from {
            Some(f) => Some(FromModel { from_token: f.from_token, item: from_item_view(f.item) }),
            None => None,
        },
        where_clause: match s.where_clause {
            Some(w) => Some(w.parts()),
            None => None,
        },
        group_by: opt_view(s.group_by),
        having: match s.having {
            Some(h) => Some(h.parts()),
            None => None,
        },
        order_by: opt_view(s.order_by),
        limit: match s.limit {
            Some(l) => Some(l.parts()),
            None => None,
        },
        offset: match s.offset {
            Some(o) => Some(o.parts()),
            None => None,
        },
    }
}

impl View for FromItem {
    type V = FromItemModel;

    open spec fn view(&self) -> FromItemModel {
        from_item_view(*self)
    }
}

impl View for Select {
    type V = SelectModel;

    open spec fn view(&self) -> SelectModel {
        select_view(*self)
    }
}

impl View for From {
    type V = FromModel;

    open spec fn view(&self) -> FromModel {
        FromModel { from_token: self.from_token, item: self.item@ }
    }
}

// ---------------------------------------------------------------------------
// Grammar.
// ---------------------------------------------------------------------------

pub open spec fn internal_error<T>(end: Span) -> Result<T, ParseError> {
    err(ErrorKind::Internal, end)
}

/// A `from` item without joins: a table path or a parenthesized `select`
/// (either after an optional `lateral`), each with an optional alias.
pub open spec fn spec_parse_from_prefix(toks: Seq<TokenTree>, end: Span, pos: int) -> Result<(FromItemModel, int), ParseError>
    decreases toks, toks.len() - pos, 5nat,
{
    if pos < 0 || pos > toks.len() {
        internal_error(end)
    } else {
        let lateral = if keyword_at(toks, pos, Keyword::Lateral.spec_text()) { Some(tt_span(toks[pos])) } else { None };
        let p = if lateral is Some { pos + 1 } else { pos };
        if group_at(toks, p, Delimiter::Parenthesis) {
            let inner = group_stream(toks[p]);
            let gspan = tt_span(toks[p]);
            proof {
                assert(decreases_to!(toks => toks[p]));
            }
            match spec_parse_select_cmd(inner, gspan, 0) {
                Ok((select, q)) =>
                    if q < inner.len() {
                        err(ErrorKind::UnexpectedToken, tt_span(inner[q]))
                    } else {
                        match optional(!alias_stop_at(toks, p + 1), spec_parse_table_alias(toks, end, p + 1), p + 1) {
                            Ok((alias, r)) => Ok((FromItemModel::Subquery { lateral, paren: gspan, select: Box::new(select), alias }, r)),
                            Err(e) => Err(e),
                        }
                    },
                Err(e) => Err(e),
            }
        } else if ident_at(toks, p) {
            match spec_parse_path(toks, end, p) {
                Ok((table, q)) => match optional(!alias_stop_at(toks, q), spec_parse_table_alias(toks, end, q), q) {
                    Ok((alias, r)) => Ok((FromItemModel::Table { table, alias }, r)),
                    Err(e) => Err(e),
                },
                Err(e) => Err(e),
            }
        } else {
            expected(Expected::FromItem, span_at(toks, p, end))
        }
    }
}

/// After a natural join, a cross join may follow once.
pub open spec fn spec_parse_cross_tail(toks: Seq<TokenTree>, end: Span, left: FromItemModel, pos: int) -> Result<(FromItemModel, int), ParseError>
    decreases toks, toks.len() - pos, 4nat,
{
    if pos < 0 || pos > toks.len() {
        internal_error(end)
    } else if keyword_at(toks, pos, Keyword::Cross.spec_text()) {
        match spec_parse_keyword(toks, end, pos + 1, Keyword::Join) {
            Ok((join, p1)) => match spec_parse_from_prefix(toks, end, p1) {
                Ok((right, p2)) => Ok((FromItemModel::CrossJoin {
                    left: Box::new(left),
                    cross: tt_span(toks[pos]),
                    join,
                    right: Box::new(right),
                }, p2)),
                Err(e) => Err(e),
            },
            Err(e) => Err(e),
        }
    } else {
        Ok((left, pos))
    }
}

/// Joins after the items read so far: any number of `inner`/`left`/`right`/
/// `full` joins, then at most one natural join and one cross join.
pub open spec fn spec_parse_from_item_rest(toks: Seq<TokenTree>, end: Span, left: FromItemModel, pos: int) -> Result<(FromItemModel, int), ParseError>
    decreases toks, toks.len() - pos, 6nat,
{
    if pos < 0 || pos > toks.len() {
        internal_error(end)
    } else if join_keyword_at(toks, pos) {
        match spec_parse_join_type(toks, end, pos) {
            Ok((join_type, p1)) =>
                if !(pos < p1 <= toks.len()) {
                    internal_error(end)
                } else {
                    match spec_parse_from_prefix(toks, end, p1) {
                        Ok((right, p2)) => match spec_parse_keyword_expr(toks, end, p2, Keyword::On) {
                            Ok((on, p3)) =>
                                if !(pos < p3 <= toks.len()) {
                                    internal_error(end)
                                } else {
                                    spec_parse_from_item_rest(
                                        toks,
                                        end,
                                        FromItemModel::Join { left: Box::new(left), join_type, right: Box::new(right), on },
                                        p3,
                                    )
                                },
                            Err(e) => Err(e),
                        },
                        Err(e) => Err(e),
                    }
                },
            Err(e) => Err(e),
        }
    } else if keyword_at(toks, pos, Keyword::Natural.spec_text()) {
        match spec_parse_join_type(toks, end, pos + 1) {
            Ok((join_type, p1)) =>
                if !(pos < p1 <= toks.len()) {
                    internal_error(end)
                } else {
                    match spec_parse_from_prefix(toks, end, p1) {
                        Ok((right, p2)) =>
                            if !(pos < p2 <= toks.len()) {
                                internal_error(end)
                            } else {
                                spec_parse_cross_tail(
                                    toks,
                                    end,
                                    FromItemModel::NaturalJoin {
                                        natural: tt_span(toks[pos]),
                                        left: Box::new(left),
                                        join_type,
                                        right: Box::new(right),
                                    },
                                    p2,
                                )
                            },
                        Err(e) => Err(e),
                    }
                },
            Err(e) => Err(e),
        }
    } else {
        spec_parse_cross_tail(toks, end, left, pos)
    }
}

/// A `from` item with its joins.
pub open spec fn spec_parse_from_item(toks: Seq<TokenTree>, end: Span, pos: int) -> Result<(FromItemModel, int), ParseError>
    decreases toks, toks.len() - pos, 7nat,
{
    if pos < 0 || pos > toks.len() {
        internal_error(end)
    } else {
        match spec_parse_from_prefix(toks, end, pos) {
            Ok((item, q)) =>
                if !(pos <= q <= toks.len()) {
                    internal_error(end)
                } else {
                    spec_parse_from_item_rest(toks, end, item, q)
                },
            Err(e) => Err(e),
        }
    }
}

/// `from item`.
pub open spec fn spec_parse_from(toks: Seq<TokenTree>, end: Span, pos: int) -> Result<(FromModel, int), ParseError>
    decreases toks, toks.len() - pos, 8nat,
{
    if pos < 0 || pos > toks.len() {
        internal_error(end)
    } else {
        match spec_parse_keyword(toks, end, pos, Keyword::From) {
            Ok((from_token, p1)) =>
                if !(pos <= p1 <= toks.len()) {
                    internal_error(end)
                } else {
                    match spec_parse_from_item(toks, end, p1) {
                        Ok((item, p2)) => Ok((FromModel { from_token, item }, p2)),
                        Err(e) => Err(e),
                    }
                },
            Err(e) => Err(e),
        }
    }
}

/// The clauses of a `select` after its select list.
pub open spec fn spec_parse_select_tail(toks: Seq<TokenTree>, end: Span, attrs: Seq<AttributeModel>, select: SelectClauseModel, from: Option<FromModel>, pos: int) -> Result<(SelectModel, int), ParseError> {
    match optional(keyword_at(toks, pos, Keyword::Where.spec_text()), spec_parse_keyword_expr(toks, end, pos, Keyword::Where), pos) {
        Ok((where_clause, p4)) => match optional(keyword2_at(toks, p4, Keyword::Group, Keyword::By), spec_parse_group_by(toks, end, p4), p4) {
            Ok((group_by, p5)) => match optional(having_at(toks, p5), spec_parse_keyword_expr(toks, end, p5, Keyword::Having), p5) {
                Ok((having, p6)) => match optional(keyword2_at(toks, p6, Keyword::Order, Keyword::By), spec_parse_order_by(toks, end, p6), p6) {
                    Ok((order_by, p7)) => match optional(keyword_at(toks, p7, Keyword::Limit.spec_text()), spec_parse_keyword_expr(toks, end, p7, Keyword::Limit), p7) {
                        Ok((limit, p8)) => match optional(keyword_at(toks, p8, Keyword::Offset.spec_text()), spec_parse_keyword_expr(toks, end, p8, Keyword::Offset), p8) {
                            Ok((offset, p9)) => Ok((SelectModel {
                                attrs, select, from, where_clause, group_by, having, order_by, limit, offset,
                            }, p9)),
                            Err(e) => Err(e),
                        },
                        Err(e) => Err(e),
                    },
                    Err(e) => Err(e),
                },
                Err(e) => Err(e),
            },
            Err(e) => Err(e),
        },
        Err(e) => Err(e),
    }
}

/// A whole `select` command: attributes, the select list, and the optional
/// clauses in their fixed order.
pub open spec fn spec_parse_select_cmd(toks: Seq<TokenTree>, end: Span, pos: int) -> Result<(SelectModel, int), ParseError>
    decreases toks, toks.len() - pos, 9nat,
{
    if pos < 0 || pos > toks.len() {
        internal_error(end)
    } else {
        match spec_parse_outer_attrs(toks, end, pos) {
            Ok((attrs, p1)) => match spec_parse_select_clause(toks, end, p1) {
                Ok((select, p2)) =>
                    if !(pos <= p2 <= toks.len()) {
                        internal_error(end)
                    } else {
                        match optional(keyword_at(toks, p2, Keyword::From.spec_text()), spec_parse_from(toks, end, p2), p2) {
                            Ok((from, p3)) => spec_parse_select_tail(toks, end, attrs, select, from, p3),
                            Err(e) => Err(e),
                        }
                    },
                Err(e) => Err(e),
            },
            Err(e) => Err(e),
        }
    }
}


// ---------------------------------------------------------------------------
// The parsers.
// ---------------------------------------------------------------------------

impl FromItem {
    /// A table or a parenthesized `select`, with its alias.
    pub fn parse_prefix(toks: &Vec<TokenTree>, end: Span, pos: usize) -> (res: Result<(FromItem, usize), ParseError>)
        requires
            pos <= toks.len(),
        ensures
            agrees(res, spec_parse_from_prefix(toks@, end, pos as int)),
            moved(res, toks@, pos as int),
        decreases toks@, toks.len() - pos, 5nat,
    {
        let lateral = if peek_keyword(toks, pos, Keyword::Lateral.text()) { Some(toks[pos].span()) } else { None };
        let p = if lateral.is_some() { pos + 1 } else { pos };
        if peek_group(toks, p, Delimiter::Parenthesis) {
            match &toks[p] {
                TokenTree::Group { stream, span, .. } => {
                    proof {
                        assert(decreases_to!(toks@ => toks@[p as int]));
                    }
                    let gspan = *span;
                    let (select, q) = match Select::parse(stream, gspan, 0) {
                        Ok(r) => r,
                        Err(e) => return Err(e),
                    };
                    if q < stream.len() {
                        return Err(error_at(ErrorKind::UnexpectedToken, stream[q].span()));
                    }
                    let (alias, r) = match TableAlias::parse_optional(toks, end, p + 1) {
                        Ok(x) => x,
                        Err(e) => return Err(e),
                    };
                    Ok((FromItem::Subquery { lateral, paren: gspan, select: Box::new(select), alias }, r))
                },
                _ => {
                    assert(false);
                    Err(expected_at(Expected::FromItem, end))
                },
            }
        } else if peek_ident(toks, p) {
            let (table, q) = match Path::parse(toks, end, p) {
                Ok(x) => x,
                Err(e) => return Err(e),
            };
            let (alias, r) = match TableAlias::parse_optional(toks, end, q) {
                Ok(x) => x,
                Err(e) => return Err(e),
            };
            Ok((FromItem::Table { table, alias }, r))
        } else {
            Err(expected_at(Expected::FromItem, span_at_exec(toks, p, end)))
        }
    }

    fn parse_cross_tail(toks: &Vec<TokenTree>, end: Span, left: FromItem, pos: usize) -> (res: Result<(FromItem, usize), ParseError>)
        requires
            pos <= toks.len(),
        ensures
            agrees(res, spec_parse_cross_tail(toks@, end, left@, pos as int)),
            res matches Ok((_, q)) ==> pos <= q <= toks.len(),
        decreases toks@, toks.len() - pos, 4nat,
    {
        if peek_keyword(toks, pos, Keyword::Cross.text()) {
            let cross = toks[pos].span();
            let (join, p1) = match parse_keyword(toks, end, pos + 1, Keyword::Join) {
                Ok(x) => x,
                Err(e) => return Err(e),
            };
            let (right, p2) = match FromItem::parse_prefix(toks, end, p1) {
                Ok(x) => x,
                Err(e) => return Err(e),
            };
            Ok((FromItem::CrossJoin { left: Box::new(left), cross, join, right: Box::new(right) }, p2))
        } else {
            Ok((left, pos))
        }
    }

    fn parse_rest(toks: &Vec<TokenTree>, end: Span, left: FromItem, pos: usize) -> (res: Result<(FromItem, usize), ParseError>)
        requires
            pos <= toks.len(),
        ensures
            agrees(res, spec_parse_from_item_rest(toks@, end, left@, pos as int)),
            res matches Ok((_, q)) ==> pos <= q <= toks.len(),
        decreases toks@, toks.len() - pos, 6nat,
    {
        if JoinType::peek(toks, pos) {
            let (join_type, p1) = match JoinType::parse(toks, end, pos) {
                Ok(x) => x,
                Err(e) => return Err(e),
            };
            let (right, p2) = match FromItem::parse_prefix(toks, end, p1) {
                Ok(x) => x,
                Err(e) => return Err(e),
            };
            let (on, p3) = match On::parse(toks, end, p2) {
                Ok(x) => x,
                Err(e) => return Err(e),
            };
            let item = FromItem::Join { left: Box::new(left), join_type, right: Box::new(right), on };
            FromItem::parse_rest(toks, end, item, p3)
        } else if peek_keyword(toks, pos, Keyword::Natural.text()) {
            let natural = toks[pos].span();
            let (join_type, p1) = match JoinType::parse(toks, end, pos + 1) {
                Ok(x) => x,
                Err(e) => return Err(e),
            };
            let (right, p2) = match FromItem::parse_prefix(toks, end, p1) {
                Ok(x) => x,
                Err(e) => return Err(e),
            };
            let item = FromItem::NaturalJoin { natural, left: Box::new(left), join_type, right: Box::new(right) };
            FromItem::parse_cross_tail(toks, end, item, p2)
        } else {
            FromItem::parse_cross_tail(toks, end, left, pos)
        }
    }

    /// A `from` item with its joins: any number of `inner`, `left`, `right`
    /// or `full` joins, then at most one natural join and one cross join.
    pub fn parse(toks: &Vec<TokenTree>, end: Span, pos: usize) -> (res: Result<(FromItem, usize), ParseError>)
        requires
            pos <= toks.len(),
        ensures
            agrees(res, spec_parse_from_item(toks@, end, pos as int)),
            moved(res, toks@, pos as int),
        decreases toks@, toks.len() - pos, 7nat,
    {
        let (item, q) = match FromItem::parse_prefix(toks, end, pos) {
            Ok(x) => x,
            Err(e) => return Err(e),
        };
        FromItem::parse_rest(toks, end, item, q)
    }
}

impl From {
    pub fn peek(toks: &Vec<TokenTree>, pos: usize) -> (found: bool)
        ensures
            found == keyword_at(toks@, pos as int, Keyword::From.spec_text()),
    {
        peek_keyword(toks, pos, Keyword::From.text())
    }

    pub fn parse(toks: &Vec<TokenTree>, end: Span, pos: usize) -> (res: Result<(From, usize), ParseError>)
        requires
            pos <= toks.len(),
        ensures
            agrees(res, spec_parse_from(toks@, end, pos as int)),
            moved(res, toks@, pos as int),
        decreases toks@, toks.len() - pos, 8nat,
    {
        let (from_token, p1) = match parse_keyword(toks, end, pos, Keyword::From) {
            Ok(x) => x,
            Err(e) => return Err(e),
        };
        match FromItem::parse(toks, end, p1) {
            Ok((item, p2)) => Ok((From { from_token, item }, p2)),
            Err(e) => Err(e),
        }
    }

    pub fn parse_optional(toks: &Vec<TokenTree>, end: Span, pos: usize) -> (res: Result<(Option<From>, usize), ParseError>)
        requires
            pos <= toks.len(),
        ensures
            agrees_opt(res, optional(keyword_at(toks@, pos as int, Keyword::From.spec_text()), spec_parse_from(toks@, end, pos as int), pos as int)),
            res matches Ok((_, q)) ==> pos <= q <= toks.len(),
    {
        if From::peek(toks, pos) {
            match From::parse(toks, end, pos) {
                Ok((f, q)) => Ok((Some(f), q)),
                Err(e) => Err(e),
            }
        } else {
            Ok((None, pos))
        }
    }
}

/// Outer attributes read without error and then the keyword.
pub open spec fn attrs_then_keyword_at(toks: Seq<TokenTree>, pos: int, k: Keyword) -> bool {
    match spec_parse_outer_attrs(toks, call_site(), pos) {
        Ok((_, p)) => keyword_at(toks, p, k.spec_text()),
        Err(_) => false,
    }
}

/// Whether, after any outer attributes, the keyword comes next.
fn peek_after_attrs(toks: &Vec<TokenTree>, pos: usize, k: Keyword) -> (found: bool)
    requires
        pos <= toks.len(),
    ensures
        found == attrs_then_keyword_at(toks@, pos as int, k),
{
    match Attribute::parse_outer(toks, call_site_span(), pos) {
        Ok((_, p)) => peek_keyword(toks, p, k.text()),
        Err(_) => false,
    }
}

impl Select {
    pub fn peek(toks: &Vec<TokenTree>, pos: usize) -> (found: bool)
        requires
            pos <= toks.len(),
        ensures
            found == attrs_then_keyword_at(toks@, pos as int, Keyword::Select),
    {
        peek_after_attrs(toks, pos, Keyword::Select)
    }

    /// A whole `select` command.
    pub fn parse(toks: &Vec<TokenTree>, end: Span, pos: usize) -> (res: Result<(Select, usize), ParseError>)
        requires
            pos <= toks.len(),
        ensures
            agrees(res, spec_parse_select_cmd(toks@, end, pos as int)),
            moved(res, toks@, pos as int),
        decreases toks@, toks.len() - pos, 9nat,
    {
        let (attrs, p1) = match Attribute::parse_outer(toks, end, pos) {
            Ok(x) => x,
            Err(e) => return Err(e),
        };
        let (select, p2) = match clause::Select::parse(toks, end, p1) {
            Ok(x) => x,
            Err(e) => return Err(e),
        };
        let (from, p3) = if From::peek(toks, p2) {
            match From::parse(toks, end, p2) {
                Ok((f, q)) => (Some(f), q),
                Err(e) => return Err(e),
            }
        } else {
            (None, p2)
        };
        let (where_clause, p4) = match Where::parse_optional(toks, end, p3) {
            Ok(x) => x,
            Err(e) => return Err(e),
        };
        let (group_by, p5) = match GroupBy::parse_optional(toks, end, p4) {
            Ok(x) => x,
            Err(e) => return Err(e),
        };
        let (having, p6) = match Having::parse_optional(toks, end, p5) {
            Ok(x) => x,
            Err(e) => return Err(e),
        };
        let (order_by, p7) = match OrderBy::parse_optional(toks, end, p6) {
            Ok(x) => x,
            Err(e) => return Err(e),
        };
        let (limit, p8) = match Limit::parse_optional(toks, end, p7) {
            Ok(x) => x,
            Err(e) => return Err(e),
        };
        let (offset, p9) = match Offset::parse_optional(toks, end, p8) {
            Ok(x) => x,
            Err(e) => return Err(e),
        };
        Ok((Select { attrs, select, from, where_clause, group_by, having, order_by, limit, offset }, p9))
    }
}

// ---------------------------------------------------------------------------
// delete, insert, update and the command that holds one of them.
// ---------------------------------------------------------------------------

/// `using item` of a `delete`.
#[derive(Debug)]
pub struct Using {
    pub using_token: Span,
    pub item: FromItem,
}

pub struct UsingModel {
    pub using_token: Span,
    pub item: FromItemModel,
}

impl View for Using {
    type V = UsingModel;

    open spec fn view(&self) -> UsingModel {
        UsingModel { using_token: self.using_token, item: self.item@ }
    }
}

pub open spec fn spec_parse_using(toks: Seq<TokenTree>, end: Span, pos: int) -> Result<(UsingModel, int), ParseError> {
    match spec_parse_keyword(toks, end, pos, Keyword::Using) {
        Ok((using_token, p1)) => match spec_parse_from_item(toks, end, p1) {
            Ok((item, p2)) => Ok((UsingModel { using_token, item }, p2)),
            Err(e) => Err(e),
        },
        Err(e) => Err(e),
    }
}

impl Using {
    pub fn peek(toks: &Vec<TokenTree>, pos: usize) -> (found: bool)
        ensures
            found == keyword_at(toks@, pos as int, Keyword::Using.spec_text()),
    {
        peek_keyword(toks, pos, Keyword::Using.text())
    }

    pub fn parse(toks: &Vec<TokenTree>, end: Span, pos: usize) -> (res: Result<(Using, usize), ParseError>)
        requires
            pos <= toks.len(),
        ensures
            agrees(res, spec_parse_using(toks@, end, pos as int)),
            moved(res, toks@, pos as int),
    {
        let (using_token, p1) = match parse_keyword(toks, end, pos, Keyword::Using) {
            Ok(x) => x,
            Err(e) => return Err(e),
        };
        match FromItem::parse(toks, end, p1) {
            Ok((item, p2)) => Ok((Using { using_token, item }, p2)),
            Err(e) => Err(e),
        }
    }

    pub fn parse_optional(toks: &Vec<TokenTree>, end: Span, pos: usize) -> (res: Result<(Option<Using>, usize), ParseError>)
        requires
            pos <= toks.len(),
        ensures
            agrees_opt(res, optional(keyword_at(toks@, pos as int, Keyword::Using.spec_text()), spec_parse_using(toks@, end, pos as int), pos as int)),
            res matches Ok((_, q)) ==> pos <= q <= toks.len(),
    {
        if Using::peek(toks, pos) {
            match Using::parse(toks, end, pos) {
                Ok((u, q)) => Ok((Some(u), q)),
                Err(e) => Err(e),
            }
        } else {
            Ok((None, pos))
        }
    }
}

/// A `delete from` command.
#[derive(Debug)]
pub struct Delete {
    pub attrs: Vec<Attribute>,
    pub delete_token: Span,
    pub from_token: Span,
    pub table: Path,
    pub using: Option<Using>,
    pub where_clause: Option<Where>,
    pub returning: Option<Returning>,
}

pub struct DeleteModel {
    pub attrs: Seq<AttributeModel>,
    pub delete_token: Span,
    pub from_token: Span,
    pub table: PathModel,
    pub using: Option<UsingModel>,
    pub where_clause: Option<KeywordExprModel>,
    pub returning: Option<ReturningModel>,
}

impl View for Delete {
    type V = DeleteModel;

    open spec fn view(&self) -> DeleteModel {
        DeleteModel {
            attrs: attrs_view(self.attrs@),
            delete_token: self.delete_token,
            from_token: self.from_token,
            table: self.table@,
            using: opt_view(self.using),
            where_clause: match self.where_clause {
                Some(w) => Some(w.parts()),
                None => None,
            },
            returning: opt_view(self.returning),
        }
    }
}

pub open spec fn spec_parse_delete(toks: Seq<TokenTree>, end: Span, pos: int) -> Result<(DeleteModel, int), ParseError> {
    match spec_parse_outer_attrs(toks, end, pos) {
        Ok((attrs, p1)) => match spec_parse_keyword(toks, end, p1, Keyword::Delete) {
            Ok((delete_token, p2)) => match spec_parse_keyword(toks, end, p2, Keyword::From) {
                Ok((from_token, p3)) => match spec_parse_path(toks, end, p3) {
                    Ok((table, p4)) => match optional(keyword_at(toks, p4, Keyword::Using.spec_text()), spec_parse_using(toks, end, p4), p4) {
                        Ok((using, p5)) => match optional(keyword_at(toks, p5, Keyword::Where.spec_text()), spec_parse_keyword_expr(toks, end, p5, Keyword::Where), p5) {
                            Ok((where_clause, p6)) => match optional(keyword_at(toks, p6, Keyword::Returning.spec_text()), spec_parse_returning(toks, end, p6), p6) {
                                Ok((returning, p7)) => Ok((DeleteModel {
                                    attrs, delete_token, from_token, table, using, where_clause, returning,
                                }, p7)),
                                Err(e) => Err(e),
                            },
                            Err(e) => Err(e),
                        },
                        Err(e) => Err(e),
                    },
                    Err(e) => Err(e),
                },
                Err(e) => Err(e),
            },
            Err(e) => Err(e),
        },
        Err(e) => Err(e),
    }
}

impl Delete {
    pub fn peek(toks: &Vec<TokenTree>, pos: usize) -> (found: bool)
        requires
            pos <= toks.len(),
        ensures
            found == attrs_then_keyword_at(toks@, pos as int, Keyword::Delete),
    {
        peek_after_attrs(toks, pos, Keyword::Delete)
    }

    pub fn parse(toks: &Vec<TokenTree>, end: Span, pos: usize) -> (res: Result<(Delete, usize), ParseError>)
        requires
            pos <= toks.len(),
        ensures
            agrees(res, spec_parse_delete(toks@, end, pos as int)),
            moved(res, toks@, pos as int),
    {
        let (attrs, p1) = match Attribute::parse_outer(toks, end, pos) {
            Ok(x) => x,
            Err(e) => return Err(e),
        };
        let (delete_token, p2) = match parse_keyword(toks, end, p1, Keyword::Delete) {
            Ok(x) => x,
            Err(e) => return Err(e),
        };
        let (from_token, p3) = match parse_keyword(toks, end, p2, Keyword::From) {
            Ok(x) => x,
            Err(e) => return Err(e),
        };
        let (table, p4) = match Path::parse(toks, end, p3) {
            Ok(x) => x,
            Err(e) => return Err(e),
        };
        let (using, p5) = match Using::parse_optional(toks, end, p4) {
            Ok(x) => x,
            Err(e) => return Err(e),
        };
        let (where_clause, p6) = match Where::parse_optional(toks, end, p5) {
            Ok(x) => x,
            Err(e) => return Err(e),
        };
        let (returning, p7) = match Returning::parse_optional(toks, end, p6) {
            Ok(x) => x,
            Err(e) => return Err(e),
        };
        Ok((Delete { attrs, delete_token, from_token, table, using, where_clause, returning }, p7))
    }
}

/// An `insert into` command.
#[derive(Debug)]
pub struct Insert {
    pub attrs: Vec<Attribute>,
    pub insert_token: Span,
    pub into_token: Span,
    pub table: Path,
    pub values: Values,
    pub returning: Option<Returning>,
}

pub struct InsertModel {
    pub attrs: Seq<AttributeModel>,
    pub insert_token: Span,
    pub into_token: Span,
    pub table: PathModel,
    pub values: ValuesModel,
    pub returning: Option<ReturningModel>,
}

impl View for Insert {
    type V = InsertModel;

    open spec fn view(&self) -> InsertModel {
        InsertModel {
            attrs: attrs_view(self.attrs@),
            insert_token: self.insert_token,
            into_token: self.into_token,
            table: self.table@,
            values: self.values@,
            returning: opt_view(self.returning),
        }
    }
}

pub open spec fn spec_parse_insert(toks: Seq<TokenTree>, end: Span, pos: int) -> Result<(InsertModel, int), ParseError> {
    match spec_parse_outer_attrs(toks, end, pos) {
        Ok((attrs, p1)) => match spec_parse_keyword(toks, end, p1, Keyword::Insert) {
            Ok((insert_token, p2)) => match spec_parse_keyword(toks, end, p2, Keyword::Into) {
                Ok((into_token, p3)) => match spec_parse_path(toks, end, p3) {
                    Ok((table, p4)) => match spec_parse_values(toks, end, p4) {
                        Ok((values, p5)) => match optional(keyword_at(toks, p5, Keyword::Returning.spec_text()), spec_parse_returning(toks, end, p5), p5) {
                            Ok((returning, p6)) => Ok((InsertModel { attrs, insert_token, into_token, table, values, returning }, p6)),
                            Err(e) => Err(e),
                        },
                        Err(e) => Err(e),
                    },
                    Err(e) => Err(e),
                },
                Err(e) => Err(e),
            },
            Err(e) => Err(e),
        },
        Err(e) => Err(e),
    }
}

impl Insert {
    pub fn peek(toks: &Vec<TokenTree>, pos: usize) -> (found: bool)
        requires
            pos <= toks.len(),
        ensures
            found == attrs_then_keyword_at(toks@, pos as int, Keyword::Insert),
    {
        peek_after_attrs(toks, pos, Keyword::Insert)
    }

    pub fn parse(toks: &Vec<TokenTree>, end: Span, pos: usize) -> (res: Result<(Insert, usize), ParseError>)
        requires
            pos <= toks.len(),
        ensures
            agrees(res, spec_parse_insert(toks@, end, pos as int)),
            moved(res, toks@, pos as int),
    {
        let (attrs, p1) = match Attribute::parse_outer(toks, end, pos) {
            Ok(x) => x,
            Err(e) => return Err(e),
        };
        let (insert_token, p2) = match parse_keyword(toks, end, p1, Keyword::Insert) {
            Ok(x) => x,
            Err(e) => return Err(e),
        };
        let (into_token, p3) = match parse_keyword(toks, end, p2, Keyword::Into) {
            Ok(x) => x,
            Err(e) => return Err(e),
        };
        let (table, p4) = match Path::parse(toks, end, p3) {
            Ok(x) => x,
            Err(e) => return Err(e),
        };
        let (values, p5) = match Values::parse(toks, end, p4) {
            Ok(x) => x,
            Err(e) => return Err(e),
        };
        let (returning, p6) = match Returning::parse_optional(toks, end, p5) {
            Ok(x) => x,
            Err(e) => return Err(e),
        };
        Ok((Insert { attrs, insert_token, into_token, table, values, returning }, p6))
    }
}

/// An `update` command. The attributes are read by the caller.
#[derive(Debug)]
pub struct Update {
    pub attrs: Vec<Attribute>,
    pub update_token: Span,
    pub table: Path,
    pub set: SetClause,
    pub from: Option<From>,
    pub where_clause: Option<Where>,
    pub returning: Option<Returning>,
}

pub struct UpdateModel {
    pub attrs: Seq<AttributeModel>,
    pub update_token: Span,
    pub table: PathModel,
    pub set: SetClauseModel,
    pub from: Option<FromModel>,
    pub where_clause: Option<KeywordExprModel>,
    pub returning: Option<ReturningModel>,
}

impl View for Update {
    type V = UpdateModel;

    open spec fn view(&self) -> UpdateModel {
        UpdateModel {
            attrs: attrs_view(self.attrs@),
            update_token: self.update_token,
            table: self.table@,
            set: self.set@,
            from: opt_view(self.from),
            where_clause: match self.where_clause {
                Some(w) => Some(w.parts()),
                None => None,
            },
            returning: opt_view(self.returning),
        }
    }
}

pub open spec fn spec_parse_update(toks: Seq<TokenTree>, end: Span, pos: int, attrs: Seq<AttributeModel>) -> Result<(UpdateModel, int), ParseError> {
    match spec_parse_keyword(toks, end, pos, Keyword::Update) {
        Ok((update_token, p1)) => match spec_parse_path(toks, end, p1) {
            Ok((table, p2)) => match spec_parse_set(toks, end, p2) {
                Ok((set, p3)) => match optional(keyword_at(toks, p3, Keyword::From.spec_text()), spec_parse_from(toks, end, p3), p3) {
                    Ok((from, p4)) => match optional(keyword_at(toks, p4, Keyword::Where.spec_text()), spec_parse_keyword_expr(toks, end, p4, Keyword::Where), p4) {
                        Ok((where_clause, p5)) => match optional(keyword_at(toks, p5, Keyword::Returning.spec_text()), spec_parse_returning(toks, end, p5), p5) {
                            Ok((returning, p6)) => Ok((UpdateModel { attrs, update_token, table, set, from, where_clause, returning }, p6)),
                            Err(e) => Err(e),
                        },
                        Err(e) => Err(e),
                    },
                    Err(e) => Err(e),
                },
                Err(e) => Err(e),
            },
            Err(e) => Err(e),
        },
        Err(e) => Err(e),
    }
}

impl Update {
    pub fn peek(toks: &Vec<TokenTree>, pos: usize) -> (found: bool)
        ensures
            found == keyword_at(toks@, pos as int, Keyword::Update.spec_text()),
    {
        peek_keyword(toks, pos, Keyword::Update.text())
    }

    /// The command after its attributes, which the caller has read.
    pub fn parse(toks: &Vec<TokenTree>, end: Span, pos: usize, attrs: Vec<Attribute>) -> (res: Result<(Update, usize), ParseError>)
        requires
            pos <= toks.len(),
        ensures
            match res {
                Ok((u, q)) => spec_parse_update(toks@, end, pos as int, attrs_view(attrs@))
                    == Ok::<(UpdateModel, int), ParseError>((u@, q as int)) && pos < q <= toks.len(),
                Err(e) => spec_parse_update(toks@, end, pos as int, attrs_view(attrs@)) == Err::<(UpdateModel, int), ParseError>(e),
            },
    {
        let (update_token, p1) = match parse_keyword(toks, end, pos, Keyword::Update) {
            Ok(x) => x,
            Err(e) => return Err(e),
        };
        let (table, p2) = match Path::parse(toks, end, p1) {
            Ok(x) => x,
            Err(e) => return Err(e),
        };
        let (set, p3) = match SetClause::parse(toks, end, p2) {
            Ok(x) => x,
            Err(e) => return Err(e),
        };
        let (from, p4) = match From::parse_optional(toks, end, p3) {
            Ok(x) => x,
            Err(e) => return Err(e),
        };
        let (where_clause, p5) = match Where::parse_optional(toks, end, p4) {
            Ok(x) => x,
            Err(e) => return Err(e),
        };
        let (returning, p6) = match Returning::parse_optional(toks, end, p5) {
            Ok(x) => x,
            Err(e) => return Err(e),
        };
        Ok((Update { attrs, update_token, table, set, from, where_clause, returning }, p6))
    }
}

/// A command of the `statement!` macro.
#[derive(Debug)]
pub enum Command {
    Delete(Delete),
    Select(Select),
    Update(Update),
}

pub enum CommandModel {
    Delete(DeleteModel),
    Select(SelectModel),
    Update(UpdateModel),
}

impl View for Command {
    type V = CommandModel;

    open spec fn view(&self) -> CommandModel {
        match self {
            Command::Delete(d) => CommandModel::Delete(d@),
            Command::Select(s) => CommandModel::Select(s@),
            Command::Update(u) => CommandModel::Update(u@),
        }
    }
}

/// A `delete` or `select` command (each after its attributes), or an
/// `update` command, whose attributes are not looked for.
pub open spec fn spec_parse_command(toks: Seq<TokenTree>, end: Span, pos: int) -> Result<(CommandModel, int), ParseError> {
    if attrs_then_keyword_at(toks, pos, Keyword::Delete) {
        match spec_parse_delete(toks, end, pos) {
            Ok((d, q)) => Ok((CommandModel::Delete(d), q)),
            Err(e) => Err(e),
        }
    } else if attrs_then_keyword_at(toks, pos, Keyword::Select) {
        match spec_parse_select_cmd(toks, end, pos) {
            Ok((s, q)) => Ok((CommandModel::Select(s), q)),
            Err(e) => Err(e),
        }
    } else if keyword_at(toks, pos, Keyword::Update.spec_text()) {
        match spec_parse_update(toks, end, pos, Seq::empty()) {
            Ok((u, q)) => Ok((CommandModel::Update(u), q)),
            Err(e) => Err(e),
        }
    } else {
        expected(Expected::Command, span_at(toks, pos, end))
    }
}

/// The whole input is one command; a token after it is refused.
pub open spec fn spec_parse_command_input(toks: Seq<TokenTree>, end: Span) -> Result<CommandModel, ParseError> {
    match spec_parse_command(toks, end, 0) {
        Ok((c, p)) =>
            if 0 <= p < toks.len() {
                err(ErrorKind::UnexpectedToken, tt_span(toks[p]))
            } else {
                Ok(c)
            },
        Err(e) => Err(e),
    }
}

impl Command {
    /// The whole input as one command.
    pub fn parse_input(toks: &Vec<TokenTree>, end: Span) -> (res: Result<Command, ParseError>)
        ensures
            match res {
                Ok(c) => spec_parse_command_input(toks@, end) == Ok::<CommandModel, ParseError>(c@),
                Err(e) => spec_parse_command_input(toks@, end) == Err::<CommandModel, ParseError>(e),
            },
    {
        match Command::parse(toks, end, 0) {
            Ok((c, p)) => {
                if p < toks.len() {
                    Err(error_at(ErrorKind::UnexpectedToken, toks[p].span()))
                } else {
                    Ok(c)
                }
            },
            Err(e) => Err(e),
        }
    }

    pub fn parse(toks: &Vec<TokenTree>, end: Span, pos: usize) -> (res: Result<(Command, usize), ParseError>)
        requires
            pos <= toks.len(),
        ensures
            agrees(res, spec_parse_command(toks@, end, pos as int)),
            moved(res, toks@, pos as int),
    {
        if Delete::peek(toks, pos) {
            match Delete::parse(toks, end, pos) {
                Ok((d, q)) => Ok((Command::Delete(d), q)),
                Err(e) => Err(e),
            }
        } else if Select::peek(toks, pos) {
            match Select::parse(toks, end, pos) {
                Ok((s, q)) => Ok((Command::Select(s), q)),
                Err(e) => Err(e),
            }
        } else if Update::peek(toks, pos) {
            let attrs: Vec<Attribute> = Vec::new();
            proof {
                assert(attrs_view(attrs@) =~= Seq::<AttributeModel>::empty());
            }
            match Update::parse(toks, end, pos, attrs) {
                Ok((u, q)) => Ok((Command::Update(u), q)),
                Err(e) => Err(e),
            }
        } else {
            Err(expected_at(Expected::Command, span_at_exec(toks, pos, end)))
        }
    }

    /// The attributes of the command.
    pub fn attrs(&self) -> (attrs: &Vec<Attribute>)
        ensures
            attrs@ == match self {
                Command::Delete(d) => d.attrs@,
                Command::Select(s) => s.attrs@,
                Command::Update(u) => u.attrs@,
            },
    {
        match self {
            Command::Delete(d) => &d.attrs,
            Command::Select(s) => &s.attrs,
            Command::Update(u) => &u.attrs,
        }
    }

    /// The select list of a `select` command; the other commands have none.
    pub fn fields(&self) -> (fields: Option<&Fields>)
        ensures
            match self {
                Command::Select(s) => fields == Some(&s.select.fields),
                _ => fields is None,
            },
    {
        match self {
            Command::Select(s) => Some(&s.select.fields),
            _ => None,
        }
    }
}

} // verus!

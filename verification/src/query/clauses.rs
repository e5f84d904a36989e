//! The clauses of a query node: `filter`, `order by` and `limit`.

use vstd::prelude::*;
use crate::error::{Keyword, Expected, ErrorKind, ParseError, err, expected, expected_at, error_at};
use crate::token::{Span, TokenTree, tt_span, span_at, span_at_exec, keyword_at, punct_at, peek_keyword, peek_punct};
use crate::expr::{Expr, agrees, moved};
use crate::clause::{
    KeywordExprModel, OrderByItem, OrderByItemModel, agrees_kw, agrees_kw_opt, spec_parse_keyword, parse_keyword,
    spec_parse_keyword_expr, parse_keyword_expr, spec_parse_order_by_item,
};
use crate::common::{optional, agrees_list, prepend};
use crate::clause::{word_at, spec_parse_order_by_dir, lemma_order_by_dir_names};
use crate::token::{TokenModel, tts_view};
use crate::emit::{quote_tokens, quote_into, args_view};
use crate::repr::{args1, args3, code, joined, join_parts, expr_tokens};

pub use crate::clause::{OrderByDir, OrderByNulls};

verus! {

/// `filter expr`.
#[derive(Debug)]
pub struct FilterClause {
    pub filter: Span,
    pub expr: Expr,
}

impl FilterClause {
    pub open spec fn parts(self) -> KeywordExprModel {
        KeywordExprModel { keyword: self.filter, expr: self.expr@ }
    }

    pub fn expr(&self) -> (e: &Expr)
        ensures
            e == &self.expr,
    {
        &self.expr
    }

    pub fn peek(toks: &Vec<TokenTree>, pos: usize) -> (found: bool)
        ensures
            found == keyword_at(toks@, pos as int, Keyword::Filter.spec_text()),
    {
        peek_keyword(toks, pos, Keyword::Filter.text())
    }

    pub fn parse(toks: &Vec<TokenTree>, end: Span, pos: usize) -> (res: Result<(FilterClause, usize), ParseError>)
        requires
            pos <= toks.len(),
        ensures
            agrees_kw(res, |f: FilterClause| f.parts(), spec_parse_keyword_expr(toks@, end, pos as int, Keyword::Filter)),
            moved(res, toks@, pos as int),
    {
        match parse_keyword_expr(toks, end, pos, Keyword::Filter) {
            Ok((filter, expr, q)) => Ok((FilterClause { filter, expr }, q)),
            Err(e) => Err(e),
        }
    }

    pub fn parse_optional(toks: &Vec<TokenTree>, end: Span, pos: usize) -> (res: Result<(Option<FilterClause>, usize), ParseError>)
        requires
            pos <= toks.len(),
        ensures
            agrees_kw_opt(res, |f: FilterClause| f.parts(), optional(keyword_at(toks@, pos as int, Keyword::Filter.spec_text()),
                spec_parse_keyword_expr(toks@, end, pos as int, Keyword::Filter), pos as int)),
    {
        if !FilterClause::peek(toks, pos) {
            return Ok((None, pos));
        }
        match FilterClause::parse(toks, end, pos) {
            Ok((f, q)) => Ok((Some(f), q)),
            Err(e) => Err(e),
        }
    }
}

/// `limit expr`.
#[derive(Debug)]
pub struct LimitClause {
    pub limit: Span,
    pub expr: Expr,
}

impl LimitClause {
    pub open spec fn parts(self) -> KeywordExprModel {
        KeywordExprModel { keyword: self.limit, expr: self.expr@ }
    }

    pub fn expr(&self) -> (e: &Expr)
        ensures
            e == &self.expr,
    {
        &self.expr
    }

    pub fn peek(toks: &Vec<TokenTree>, pos: usize) -> (found: bool)
        ensures
            found == keyword_at(toks@, pos as int, Keyword::Limit.spec_text()),
    {
        peek_keyword(toks, pos, Keyword::Limit.text())
    }

    pub fn parse(toks: &Vec<TokenTree>, end: Span, pos: usize) -> (res: Result<(LimitClause, usize), ParseError>)
        requires
            pos <= toks.len(),
        ensures
            agrees_kw(res, |l: LimitClause| l.parts(), spec_parse_keyword_expr(toks@, end, pos as int, Keyword::Limit)),
            moved(res, toks@, pos as int),
    {
        match parse_keyword_expr(toks, end, pos, Keyword::Limit) {
            Ok((limit, expr, q)) => Ok((LimitClause { limit, expr }, q)),
            Err(e) => Err(e),
        }
    }

    pub fn parse_optional(toks: &Vec<TokenTree>, end: Span, pos: usize) -> (res: Result<(Option<LimitClause>, usize), ParseError>)
        requires
            pos <= toks.len(),
        ensures
            agrees_kw_opt(res, |l: LimitClause| l.parts(), optional(keyword_at(toks@, pos as int, Keyword::Limit.spec_text()),
                spec_parse_keyword_expr(toks@, end, pos as int, Keyword::Limit), pos as int)),
    {
        if !LimitClause::peek(toks, pos) {
            return Ok((None, pos));
        }
        match LimitClause::parse(toks, end, pos) {
            Ok((l, q)) => Ok((Some(l), q)),
            Err(e) => Err(e),
        }
    }
}

/// An entry of a query's `order by`: an expression, a direction and where
/// nulls go.
pub type OrderByEntry = OrderByItem;

/// A query's `order by entry, ...`, up to the end or a `limit`.
#[derive(Debug)]
pub struct OrderBy {
    pub order: Span,
    pub by: Span,
    pub entries: Vec<OrderByEntry>,
}

pub struct OrderByModel {
    pub order: Span,
    pub by: Span,
    pub entries: Seq<OrderByItemModel>,
}

impl View for OrderBy {
    type V = OrderByModel;

    open spec fn view(&self) -> OrderByModel {
        OrderByModel { order: self.order, by: self.by, entries: self.entries@.map_values(|e: OrderByEntry| e@) }
    }
}

/// Where the entries stop: at the end, or before `limit`.
pub open spec fn entries_stop_at(toks: Seq<TokenTree>, pos: int) -> bool {
    pos >= toks.len() || keyword_at(toks, pos, Keyword::Limit.spec_text())
}

/// Entries separated by commas; after an entry that does not end the list a
/// comma is required.
pub open spec fn spec_parse_entries(toks: Seq<TokenTree>, end: Span, pos: int) -> Result<(Seq<OrderByItemModel>, int), ParseError>
    decreases toks.len() - pos,
{
    if pos < 0 || entries_stop_at(toks, pos) {
        Ok((Seq::empty(), pos))
    } else {
        match spec_parse_order_by_item(toks, end, pos) {
            Ok((x, q)) =>
                if !(pos < q <= toks.len()) {
                    err(ErrorKind::Internal, end)
                } else if entries_stop_at(toks, q) {
                    Ok((seq![x], q))
                } else if punct_at(toks, q, ',') {
                    match spec_parse_entries(toks, end, q + 1) {
                        Ok((rest, r)) => Ok((seq![x] + rest, r)),
                        Err(e) => Err(e),
                    }
                } else {
                    expected(Expected::Punct(','), tt_span(toks[q]))
                },
            Err(e) => Err(e),
        }
    }
}

pub open spec fn spec_parse_query_order_by(toks: Seq<TokenTree>, end: Span, pos: int) -> Result<(OrderByModel, int), ParseError> {
    match spec_parse_keyword(toks, end, pos, Keyword::Order) {
        Ok((order, p1)) => match spec_parse_keyword(toks, end, p1, Keyword::By) {
            Ok((by, p2)) => match spec_parse_entries(toks, end, p2) {
                Ok((entries, p3)) =>
                    if entries.len() == 0 {
                        err(ErrorKind::EmptyOrderBy, span_at(toks, p3, end))
                    } else {
                        Ok((OrderByModel { order, by, entries }, p3))
                    },
                Err(e) => Err(e),
            },
            Err(e) => Err(e),
        },
        Err(e) => Err(e),
    }
}

fn parse_entries(toks: &Vec<TokenTree>, end: Span, pos: usize) -> (res: Result<(Vec<OrderByEntry>, usize), ParseError>)
    requires
        pos <= toks.len(),
    ensures
        agrees_list(res, spec_parse_entries(toks@, end, pos as int)),
        res matches Ok((_, q)) ==> pos <= q <= toks.len(),
    decreases toks.len() - pos,
{
    if pos >= toks.len() || peek_keyword(toks, pos, Keyword::Limit.text()) {
        let v: Vec<OrderByEntry> = Vec::new();
        assert(v@.map_values(|x: OrderByEntry| x@) =~= Seq::<OrderByItemModel>::empty());
        return Ok((v, pos));
    }
    let (entry, q) = match OrderByItem::parse(toks, end, pos) {
        Ok(r) => r,
        Err(e) => return Err(e),
    };
    if q >= toks.len() || peek_keyword(toks, q, Keyword::Limit.text()) {
        let mut v: Vec<OrderByEntry> = Vec::new();
        let ghost m = entry@;
        v.push(entry);
        assert(v@.map_values(|x: OrderByEntry| x@) =~= seq![m]);
        return Ok((v, q));
    }
    if !peek_punct(toks, q, ',') {
        return Err(expected_at(Expected::Punct(','), toks[q].span()));
    }
    let (mut rest, r) = match parse_entries(toks, end, q + 1) {
        Ok(r) => r,
        Err(e) => return Err(e),
    };
    prepend(&mut rest, entry);
    Ok((rest, r))
}

impl OrderBy {
    pub fn peek(toks: &Vec<TokenTree>, pos: usize) -> (found: bool)
        ensures
            found == keyword_at(toks@, pos as int, Keyword::Order.spec_text()),
    {
        peek_keyword(toks, pos, Keyword::Order.text())
    }

    pub fn parse(toks: &Vec<TokenTree>, end: Span, pos: usize) -> (res: Result<(OrderBy, usize), ParseError>)
        requires
            pos <= toks.len(),
        ensures
            agrees(res, spec_parse_query_order_by(toks@, end, pos as int)),
    {
        let (order, p1) = match parse_keyword(toks, end, pos, Keyword::Order) {
            Ok(r) => r,
            Err(e) => return Err(e),
        };
        let (by, p2) = match parse_keyword(toks, end, p1, Keyword::By) {
            Ok(r) => r,
            Err(e) => return Err(e),
        };
        let (entries, p3) = match parse_entries(toks, end, p2) {
            Ok(r) => r,
            Err(e) => return Err(e),
        };
        if entries.len() == 0 {
            return Err(error_at(ErrorKind::EmptyOrderBy, span_at_exec(toks, p3, end)));
        }
        Ok((OrderBy { order, by, entries }, p3))
    }

    pub fn parse_optional(toks: &Vec<TokenTree>, end: Span, pos: usize) -> (res: Result<(Option<OrderBy>, usize), ParseError>)
        requires
            pos <= toks.len(),
        ensures
            crate::common::agrees_opt(res, optional(keyword_at(toks@, pos as int, Keyword::Order.spec_text()),
                spec_parse_query_order_by(toks@, end, pos as int), pos as int)),
    {
        if OrderBy::peek(toks, pos) {
            match OrderBy::parse(toks, end, pos) {
                Ok((o, q)) => Ok((Some(o), q)),
                Err(e) => Err(e),
            }
        } else {
            Ok((None, pos))
        }
    }
}

// ---------------------------------------------------------------------------
// What a query's `order by` generates.
// ---------------------------------------------------------------------------

pub open spec fn entry_dir_tokens(d: Option<OrderByDir>) -> Seq<TokenModel> {
    match d {
        Some(OrderByDir::Asc(_)) => quote_tokens("Some(::kosame::query::OrderByDir::Asc)"@, Seq::empty()),
        Some(OrderByDir::Desc(_)) => quote_tokens("Some(::kosame::query::OrderByDir::Desc)"@, Seq::empty()),
        None => quote_tokens("None"@, Seq::empty()),
    }
}

pub open spec fn entry_nulls_tokens(n: Option<OrderByNulls>) -> Seq<TokenModel> {
    match n {
        Some(OrderByNulls::First(..)) => quote_tokens("Some(::kosame::query::OrderByNulls::First)"@, Seq::empty()),
        Some(OrderByNulls::Last(..)) => quote_tokens("Some(::kosame::query::OrderByNulls::Last)"@, Seq::empty()),
        None => quote_tokens("None"@, Seq::empty()),
    }
}

/// `::kosame::query::OrderByEntry::new(expr, dir, nulls)`.
pub open spec fn entry_tokens(e: OrderByItemModel) -> Seq<TokenModel> {
    quote_tokens(
        "::kosame::query::OrderByEntry::new($, $, $)"@,
        seq![expr_tokens(e.expr), entry_dir_tokens(e.dir), entry_nulls_tokens(e.nulls)],
    )
}

pub open spec fn entry_list(s: Seq<OrderByItemModel>) -> Seq<Seq<TokenModel>>
    decreases s.len(),
{
    if s.len() == 0 {
        Seq::empty()
    } else {
        entry_list(s.drop_last()).push(entry_tokens(s.last()))
    }
}

/// `::kosame::query::OrderBy::new(&[entry, ...])`.
pub open spec fn query_order_by_tokens(m: OrderByModel) -> Seq<TokenModel> {
    quote_tokens("::kosame::query::OrderBy::new(&[$])"@, seq![joined(entry_list(m.entries))])
}

/// Appends the code of one entry of a query's `order by`.
pub fn entry_to_tokens(entry: &OrderByEntry, out: &mut Vec<TokenTree>)
    ensures
        tts_view(final(out)@) == tts_view(old(out)@) + entry_tokens(entry@),
{
    let mut e: Vec<TokenTree> = Vec::new();
    assert(tts_view(e@) =~= Seq::<TokenModel>::empty());
    entry.expr.to_tokens(&mut e);
    assert(tts_view(e@) =~= expr_tokens(entry.expr@));
    let dir = match entry.dir {
        Some(OrderByDir::Asc(_)) => code("Some(::kosame::query::OrderByDir::Asc)"),
        Some(OrderByDir::Desc(_)) => code("Some(::kosame::query::OrderByDir::Desc)"),
        None => code("None"),
    };
    let nulls = match entry.nulls {
        Some(OrderByNulls::First(..)) => code("Some(::kosame::query::OrderByNulls::First)"),
        Some(OrderByNulls::Last(..)) => code("Some(::kosame::query::OrderByNulls::Last)"),
        None => code("None"),
    };
    quote_into(out, "::kosame::query::OrderByEntry::new($, $, $)", &args3(e, dir, nulls));
}

impl OrderBy {
    /// Appends the code of the `order by`, its entries in order.
    pub fn to_tokens(&self, out: &mut Vec<TokenTree>)
        ensures
            tts_view(final(out)@) == tts_view(old(out)@) + query_order_by_tokens(self@),
    {
        let ghost ms = self@.entries;
        let mut parts: Vec<Vec<TokenTree>> = Vec::new();
        assert(args_view(parts@) =~= Seq::<Seq<TokenModel>>::empty());
        let mut i: usize = 0;
        while i < self.entries.len()
            invariant
                i <= self.entries.len(),
                ms == self@.entries,
                ms.len() == self.entries.len(),
                args_view(parts@) == entry_list(ms.subrange(0, i as int)),
            decreases self.entries.len() - i,
        {
            let mut t: Vec<TokenTree> = Vec::new();
            assert(tts_view(t@) =~= Seq::<TokenModel>::empty());
            entry_to_tokens(&self.entries[i], &mut t);
            let ghost tm = tts_view(t@);
            parts.push(t);
            proof {
                let sub = ms.subrange(0, i + 1);
                assert(sub.drop_last() =~= ms.subrange(0, i as int));
                assert(sub.last() == self.entries@[i as int]@);
                assert(args_view(parts@) =~= entry_list(sub));
            }
            i += 1;
        }
        assert(ms.subrange(0, i as int) =~= ms);
        quote_into(out, "::kosame::query::OrderBy::new(&[$])", &args1(join_parts(parts)));
    }
}

/// In a query, an ordering direction read from `asc` or `desc` is generated
/// as the query direction of that name.
pub proof fn lemma_entry_dir_generated(toks: Seq<TokenTree>, end: Span, pos: int)
    requires
        spec_parse_order_by_dir(toks, end, pos) is Ok,
    ensures
        ({
            let t = entry_dir_tokens(Some(spec_parse_order_by_dir(toks, end, pos)->Ok_0.0));
            &&& word_at(toks, pos) == Some("asc"@) ==> t == quote_tokens("Some(::kosame::query::OrderByDir::Asc)"@, Seq::empty())
            &&& word_at(toks, pos) == Some("desc"@) ==> t == quote_tokens("Some(::kosame::query::OrderByDir::Desc)"@, Seq::empty())
        }),
{
    lemma_order_by_dir_names(toks, end, pos);
}

} // verus!

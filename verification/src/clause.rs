//! The clauses of the SQL statements: select lists, `where`, `group by`,
//! `having`, `order by`, `limit`, `offset`, `returning`, `set` and `values`.
//! The `from` clause lives with the commands, since a `from` item may hold a
//! whole `select`.

use vstd::prelude::*;
use crate::error::{Keyword, Expected, ErrorKind, ParseError, err, expected, expected_at, error_at};
use crate::token::{
    Span, TokenTree, Ident, IdentModel, Delimiter, tt_span, span_at, span_at_exec, keyword_at, ident_at,
    punct_at, group_at, group_stream, peek_keyword, peek_ident, peek_punct, peek_group,
};
use crate::expr::{Expr, ExprModel, agrees, spec_parse_expr, parse_expr, ident_model_at, ident_at_exec};
use crate::common::{
    Attribute, AttributeModel, Alias, AliasModel, ColonType, ColonTypeModel, TypeOverride, attrs_view,
    spec_parse_outer_attrs, spec_parse_alias, spec_parse_colon_type, optional, opt_view, agrees_list,
    agrees_opt, prepend,
};

verus! {

// ---------------------------------------------------------------------------
// Where a clause begins.
// ---------------------------------------------------------------------------

/// Two keywords in a row.
pub open spec fn keyword2_at(toks: Seq<TokenTree>, pos: int, k1: Keyword, k2: Keyword) -> bool {
    keyword_at(toks, pos, k1.spec_text()) && keyword_at(toks, pos + 1, k2.spec_text())
}

pub fn peek_keyword2(toks: &Vec<TokenTree>, pos: usize, k1: Keyword, k2: Keyword) -> (found: bool)
    ensures
        found == keyword2_at(toks@, pos as int, k1, k2),
{
    peek_keyword(toks, pos, k1.text()) && pos < toks.len() && peek_keyword(toks, pos + 1, k2.text())
}

/// `having` is looked for where the keyword `where` stands (the having clause
/// is only tried there).
pub open spec fn having_at(toks: Seq<TokenTree>, pos: int) -> bool {
    keyword_at(toks, pos, Keyword::Where.spec_text())
}

/// A clause of a `select` begins at `pos`: the list before it ends there.
pub open spec fn clause_at(toks: Seq<TokenTree>, pos: int) -> bool {
    keyword_at(toks, pos, Keyword::From.spec_text())
    || keyword_at(toks, pos, Keyword::Where.spec_text())
    || keyword2_at(toks, pos, Keyword::Group, Keyword::By)
    || having_at(toks, pos)
    || keyword2_at(toks, pos, Keyword::Order, Keyword::By)
    || keyword_at(toks, pos, Keyword::Limit.spec_text())
    || keyword_at(toks, pos, Keyword::Offset.spec_text())
}

pub fn peek_clause(toks: &Vec<TokenTree>, pos: usize) -> (found: bool)
    ensures
        found == clause_at(toks@, pos as int),
{
    peek_keyword(toks, pos, Keyword::From.text())
        || peek_keyword(toks, pos, Keyword::Where.text())
        || peek_keyword2(toks, pos, Keyword::Group, Keyword::By)
        || peek_keyword(toks, pos, Keyword::Where.text())
        || peek_keyword2(toks, pos, Keyword::Order, Keyword::By)
        || peek_keyword(toks, pos, Keyword::Limit.text())
        || peek_keyword(toks, pos, Keyword::Offset.text())
}

// ---------------------------------------------------------------------------
// Select lists.
// ---------------------------------------------------------------------------

/// One item of a select or returning list.
#[derive(Debug)]
pub struct Field {
    pub attrs: Vec<Attribute>,
    pub expr: Expr,
    pub alias: Option<Alias>,
    pub type_override: Option<TypeOverride>,
}

pub struct FieldModel {
    pub attrs: Seq<AttributeModel>,
    pub expr: ExprModel,
    pub alias: Option<AliasModel>,
    pub type_override: Option<ColonTypeModel>,
}

impl View for Field {
    type V = FieldModel;

    open spec fn view(&self) -> FieldModel {
        FieldModel {
            attrs: attrs_view(self.attrs@),
            expr: self.expr@,
            alias: opt_view(self.alias),
            type_override: opt_view(self.type_override),
        }
    }
}

/// `attrs expr [as alias] [: Type]`.
pub open spec fn spec_parse_field(toks: Seq<TokenTree>, end: Span, pos: int) -> Result<(FieldModel, int), ParseError> {
    match spec_parse_outer_attrs(toks, end, pos) {
        Ok((attrs, p1)) => match spec_parse_expr(toks, end, p1, 0) {
            Ok((expr, p2)) => match optional(keyword_at(toks, p2, Keyword::As.spec_text()), spec_parse_alias(toks, end, p2), p2) {
                Ok((alias, p3)) => match optional(punct_at(toks, p3, ':'), spec_parse_colon_type(toks, end, p3), p3) {
                    Ok((type_override, p4)) => Ok((FieldModel { attrs, expr, alias, type_override }, p4)),
                    Err(e) => Err(e),
                },
                Err(e) => Err(e),
            },
            Err(e) => Err(e),
        },
        Err(e) => Err(e),
    }
}

/// A comma-separated list of fields that stops at the end, at a clause
/// keyword, or where no comma follows an item.
pub open spec fn spec_parse_fields(toks: Seq<TokenTree>, end: Span, pos: int) -> Result<(Seq<FieldModel>, int), ParseError>
    decreases toks.len() - pos,
{
    if pos < 0 || pos >= toks.len() || clause_at(toks, pos) {
        Ok((Seq::empty(), pos))
    } else {
        match spec_parse_field(toks, end, pos) {
            Ok((f, q)) =>
                if !(pos < q <= toks.len()) {
                    err(ErrorKind::Internal, end)
                } else if punct_at(toks, q, ',') {
                    match spec_parse_fields(toks, end, q + 1) {
                        Ok((rest, r)) => Ok((seq![f] + rest, r)),
                        Err(e) => Err(e),
                    }
                } else {
                    Ok((seq![f], q))
                },
            Err(e) => Err(e),
        }
    }
}

impl Field {
    pub fn parse(toks: &Vec<TokenTree>, end: Span, pos: usize) -> (res: Result<(Field, usize), ParseError>)
        requires
            pos <= toks.len(),
        ensures
            agrees(res, spec_parse_field(toks@, end, pos as int)),
            res matches Ok((_, q)) ==> pos < q <= toks.len(),
    {
        let (attrs, p1) = match Attribute::parse_outer(toks, end, pos) {
            Ok(r) => r,
            Err(e) => return Err(e),
        };
        let (expr, p2) = match parse_expr(toks, end, p1, 0) {
            Ok(r) => r,
            Err(e) => return Err(e),
        };
        let (alias, p3) = match Alias::parse_optional(toks, end, p2) {
            Ok(r) => r,
            Err(e) => return Err(e),
        };
        let (type_override, p4) = match ColonType::parse_optional(toks, end, p3) {
            Ok(r) => r,
            Err(e) => return Err(e),
        };
        Ok((Field { attrs, expr, alias, type_override }, p4))
    }

    /// The name the field takes in a row: its alias, else what its expression
    /// names.
    pub open spec fn infer_name_spec(&self) -> Option<&Ident> {
        match self.alias {
            Some(a) => Some(&a.ident),
            None => self.expr.spec_infer_name(),
        }
    }

    /// The name the field takes in a row: its alias, else what its expression
    /// names (a column reference or a cast of one).
    pub fn infer_name(&self) -> (name: Option<&Ident>)
        ensures
            name == self.infer_name_spec(),
    {
        match &self.alias {
            Some(alias) => Some(&alias.ident),
            None => self.expr.infer_name(),
        }
    }
}

/// The items of a select or returning list.
#[derive(Debug)]
pub struct Fields(pub Vec<Field>);

pub open spec fn fields_view(f: Fields) -> Seq<FieldModel> {
    f.0@.map_values(|x: Field| x@)
}

impl Fields {
    pub fn parse(toks: &Vec<TokenTree>, end: Span, pos: usize) -> (res: Result<(Fields, usize), ParseError>)
        requires
            pos <= toks.len(),
        ensures
            match res {
                Ok((f, q)) => spec_parse_fields(toks@, end, pos as int)
                    == Ok::<(Seq<FieldModel>, int), ParseError>((fields_view(f), q as int)) && pos <= q <= toks.len(),
                Err(e) => spec_parse_fields(toks@, end, pos as int) == Err::<(Seq<FieldModel>, int), ParseError>(e),
            },
        decreases toks.len() - pos,
    {
        if pos >= toks.len() || peek_clause(toks, pos) {
            let v: Vec<Field> = Vec::new();
            assert(v@.map_values(|x: Field| x@) =~= Seq::<FieldModel>::empty());
            return Ok((Fields(v), pos));
        }
        let (f, q) = match Field::parse(toks, end, pos) {
            Ok(r) => r,
            Err(e) => return Err(e),
        };
        if peek_punct(toks, q, ',') {
            let (rest, r) = match Fields::parse(toks, end, q + 1) {
                Ok(x) => x,
                Err(e) => return Err(e),
            };
            let mut v = rest.0;
            prepend(&mut v, f);
            Ok((Fields(v), r))
        } else {
            let mut v: Vec<Field> = Vec::new();
            let ghost m = f@;
            v.push(f);
            assert(v@.map_values(|x: Field| x@) =~= seq![m]);
            Ok((Fields(v), q))
        }
    }

    pub fn len(&self) -> (n: usize)
        ensures
            n == self.0@.len(),
    {
        self.0.len()
    }

    pub fn get(&self, i: usize) -> (f: &Field)
        requires
            i < self.0@.len(),
        ensures
            f == &self.0@[i as int],
    {
        &self.0[i]
    }
}

/// `select fields`.
#[derive(Debug)]
pub struct Select {
    pub select: Span,
    pub fields: Fields,
}

pub struct SelectClauseModel {
    pub select: Span,
    pub fields: Seq<FieldModel>,
}

impl View for Select {
    type V = SelectClauseModel;

    open spec fn view(&self) -> SelectClauseModel {
        SelectClauseModel { select: self.select, fields: fields_view(self.fields) }
    }
}

/// Reads a keyword, as the autocompleting keyword parsers do.
pub open spec fn spec_parse_keyword(toks: Seq<TokenTree>, end: Span, pos: int, k: Keyword) -> Result<(Span, int), ParseError> {
    if keyword_at(toks, pos, k.spec_text()) {
        Ok((tt_span(toks[pos]), pos + 1))
    } else {
        expected(Expected::Keyword(k), span_at(toks, pos, end))
    }
}

pub fn parse_keyword(toks: &Vec<TokenTree>, end: Span, pos: usize, k: Keyword) -> (res: Result<(Span, usize), ParseError>)
    requires
        pos <= toks.len(),
    ensures
        match res {
            Ok((s, q)) => spec_parse_keyword(toks@, end, pos as int, k) == Ok::<(Span, int), ParseError>((s, q as int))
                && q == pos + 1 && q <= toks.len(),
            Err(e) => spec_parse_keyword(toks@, end, pos as int, k) == Err::<(Span, int), ParseError>(e),
        },
{
    if peek_keyword(toks, pos, k.text()) {
        Ok((toks[pos].span(), pos + 1))
    } else {
        Err(expected_at(Expected::Keyword(k), span_at_exec(toks, pos, end)))
    }
}

pub open spec fn spec_parse_select_clause(toks: Seq<TokenTree>, end: Span, pos: int) -> Result<(SelectClauseModel, int), ParseError> {
    match spec_parse_keyword(toks, end, pos, Keyword::Select) {
        Ok((select, p1)) => match spec_parse_fields(toks, end, p1) {
            Ok((fields, p2)) => Ok((SelectClauseModel { select, fields }, p2)),
            Err(e) => Err(e),
        },
        Err(e) => Err(e),
    }
}

impl Select {
    pub fn peek(toks: &Vec<TokenTree>, pos: usize) -> (found: bool)
        ensures
            found == keyword_at(toks@, pos as int, Keyword::Select.spec_text()),
    {
        peek_keyword(toks, pos, Keyword::Select.text())
    }

    pub fn parse(toks: &Vec<TokenTree>, end: Span, pos: usize) -> (res: Result<(Select, usize), ParseError>)
        requires
            pos <= toks.len(),
        ensures
            agrees(res, spec_parse_select_clause(toks@, end, pos as int)),
            res matches Ok((_, q)) ==> pos < q <= toks.len(),
    {
        let (select, p1) = match parse_keyword(toks, end, pos, Keyword::Select) {
            Ok(r) => r,
            Err(e) => return Err(e),
        };
        let (fields, p2) = match Fields::parse(toks, end, p1) {
            Ok(r) => r,
            Err(e) => return Err(e),
        };
        Ok((Select { select, fields }, p2))
    }
}

/// `returning fields`.
#[derive(Debug)]
pub struct Returning {
    pub returning: Span,
    pub fields: Fields,
}

pub struct ReturningModel {
    pub returning: Span,
    pub fields: Seq<FieldModel>,
}

impl View for Returning {
    type V = ReturningModel;

    open spec fn view(&self) -> ReturningModel {
        ReturningModel { returning: self.returning, fields: fields_view(self.fields) }
    }
}

pub open spec fn spec_parse_returning(toks: Seq<TokenTree>, end: Span, pos: int) -> Result<(ReturningModel, int), ParseError> {
    match spec_parse_keyword(toks, end, pos, Keyword::Returning) {
        Ok((returning, p1)) => match spec_parse_fields(toks, end, p1) {
            Ok((fields, p2)) => Ok((ReturningModel { returning, fields }, p2)),
            Err(e) => Err(e),
        },
        Err(e) => Err(e),
    }
}

impl Returning {
    pub fn peek(toks: &Vec<TokenTree>, pos: usize) -> (found: bool)
        ensures
            found == keyword_at(toks@, pos as int, Keyword::Returning.spec_text()),
    {
        peek_keyword(toks, pos, Keyword::Returning.text())
    }

    pub fn parse(toks: &Vec<TokenTree>, end: Span, pos: usize) -> (res: Result<(Returning, usize), ParseError>)
        requires
            pos <= toks.len(),
        ensures
            agrees(res, spec_parse_returning(toks@, end, pos as int)),
            res matches Ok((_, q)) ==> pos < q <= toks.len(),
    {
        let (returning, p1) = match parse_keyword(toks, end, pos, Keyword::Returning) {
            Ok(r) => r,
            Err(e) => return Err(e),
        };
        let (fields, p2) = match Fields::parse(toks, end, p1) {
            Ok(r) => r,
            Err(e) => return Err(e),
        };
        Ok((Returning { returning, fields }, p2))
    }

    pub fn parse_optional(toks: &Vec<TokenTree>, end: Span, pos: usize) -> (res: Result<(Option<Returning>, usize), ParseError>)
        requires
            pos <= toks.len(),
        ensures
            agrees_opt(res, optional(keyword_at(toks@, pos as int, Keyword::Returning.spec_text()), spec_parse_returning(toks@, end, pos as int), pos as int)),
            res matches Ok((_, q)) ==> pos <= q <= toks.len(),
    {
        if Returning::peek(toks, pos) {
            match Returning::parse(toks, end, pos) {
                Ok((r, q)) => Ok((Some(r), q)),
                Err(e) => Err(e),
            }
        } else {
            Ok((None, pos))
        }
    }
}

// ---------------------------------------------------------------------------
// Clauses of one keyword and one expression.
// ---------------------------------------------------------------------------

/// A keyword followed by an expression (`where`, `having`, `limit`, `offset`,
/// `on`).
pub struct KeywordExprModel {
    pub keyword: Span,
    pub expr: ExprModel,
}

pub open spec fn spec_parse_keyword_expr(toks: Seq<TokenTree>, end: Span, pos: int, k: Keyword) -> Result<(KeywordExprModel, int), ParseError> {
    match spec_parse_keyword(toks, end, pos, k) {
        Ok((keyword, p1)) => match spec_parse_expr(toks, end, p1, 0) {
            Ok((expr, p2)) => Ok((KeywordExprModel { keyword, expr }, p2)),
            Err(e) => Err(e),
        },
        Err(e) => Err(e),
    }
}

/// Reads a keyword followed by an expression.
pub fn parse_keyword_expr(toks: &Vec<TokenTree>, end: Span, pos: usize, k: Keyword) -> (res: Result<(Span, Expr, usize), ParseError>)
    requires
        pos <= toks.len(),
    ensures
        match res {
            Ok((s, e, q)) => spec_parse_keyword_expr(toks@, end, pos as int, k)
                == Ok::<(KeywordExprModel, int), ParseError>((KeywordExprModel { keyword: s, expr: e@ }, q as int))
                && pos < q <= toks.len(),
            Err(e) => spec_parse_keyword_expr(toks@, end, pos as int, k) == Err::<(KeywordExprModel, int), ParseError>(e),
        },
{
    let (keyword, p1) = match parse_keyword(toks, end, pos, k) {
        Ok(r) => r,
        Err(e) => return Err(e),
    };
    match parse_expr(toks, end, p1, 0) {
        Ok((expr, p2)) => Ok((keyword, expr, p2)),
        Err(e) => Err(e),
    }
}

/// The executable result of a keyword-and-expression clause agrees with the
/// model once wrapped.
pub open spec fn agrees_kw<T>(res: Result<(T, usize), ParseError>, parts: spec_fn(T) -> KeywordExprModel, spec: Result<(KeywordExprModel, int), ParseError>) -> bool {
    match res {
        Ok((v, q)) => spec == Ok::<(KeywordExprModel, int), ParseError>((parts(v), q as int)),
        Err(e) => spec == Err::<(KeywordExprModel, int), ParseError>(e),
    }
}

pub open spec fn agrees_kw_opt<T>(res: Result<(Option<T>, usize), ParseError>, parts: spec_fn(T) -> KeywordExprModel, spec: Result<(Option<KeywordExprModel>, int), ParseError>) -> bool {
    match res {
        Ok((Some(v), q)) => spec == Ok::<(Option<KeywordExprModel>, int), ParseError>((Some(parts(v)), q as int)),
        Ok((None, q)) => spec == Ok::<(Option<KeywordExprModel>, int), ParseError>((None, q as int)),
        Err(e) => spec == Err::<(Option<KeywordExprModel>, int), ParseError>(e),
    }
}

/// `where expr`.
#[derive(Debug)]
pub struct Where {
    pub where_token: Span,
    pub expr: Expr,
}

impl Where {
    pub open spec fn parts(self) -> KeywordExprModel {
        KeywordExprModel { keyword: self.where_token, expr: self.expr@ }
    }

    pub fn peek(toks: &Vec<TokenTree>, pos: usize) -> (found: bool)
        ensures
            found == keyword_at(toks@, pos as int, Keyword::Where.spec_text()),
    {
        peek_keyword(toks, pos, Keyword::Where.text())
    }

    pub fn parse_optional(toks: &Vec<TokenTree>, end: Span, pos: usize) -> (res: Result<(Option<Where>, usize), ParseError>)
        requires
            pos <= toks.len(),
        ensures
            agrees_kw_opt(res, |w: Where| w.parts(), optional(keyword_at(toks@, pos as int, Keyword::Where.spec_text()),
                spec_parse_keyword_expr(toks@, end, pos as int, Keyword::Where), pos as int)),
            res matches Ok((_, q)) ==> pos <= q <= toks.len(),
    {
        if !Where::peek(toks, pos) {
            return Ok((None, pos));
        }
        match parse_keyword_expr(toks, end, pos, Keyword::Where) {
            Ok((where_token, expr, q)) => Ok((Some(Where { where_token, expr }), q)),
            Err(e) => Err(e),
        }
    }

    pub fn expr(&self) -> (e: &Expr)
        ensures
            e == &self.expr,
    {
        &self.expr
    }
}

/// `having expr`; it is only tried where the keyword `where` stands, so the
/// keyword `having` is then required there.
#[derive(Debug)]
pub struct Having {
    pub having: Span,
    pub expr: Expr,
}

impl Having {
    pub open spec fn parts(self) -> KeywordExprModel {
        KeywordExprModel { keyword: self.having, expr: self.expr@ }
    }

    pub fn peek(toks: &Vec<TokenTree>, pos: usize) -> (found: bool)
        ensures
            found == having_at(toks@, pos as int),
    {
        peek_keyword(toks, pos, Keyword::Where.text())
    }

    pub fn parse_optional(toks: &Vec<TokenTree>, end: Span, pos: usize) -> (res: Result<(Option<Having>, usize), ParseError>)
        requires
            pos <= toks.len(),
        ensures
            agrees_kw_opt(res, |h: Having| h.parts(), optional(having_at(toks@, pos as int),
                spec_parse_keyword_expr(toks@, end, pos as int, Keyword::Having), pos as int)),
            res matches Ok((_, q)) ==> pos <= q <= toks.len(),
    {
        if !Having::peek(toks, pos) {
            return Ok((None, pos));
        }
        match parse_keyword_expr(toks, end, pos, Keyword::Having) {
            Ok((having, expr, q)) => Ok((Some(Having { having, expr }), q)),
            Err(e) => Err(e),
        }
    }

    pub fn expr(&self) -> (e: &Expr)
        ensures
            e == &self.expr,
    {
        &self.expr
    }
}

/// `limit expr`.
#[derive(Debug)]
pub struct Limit {
    pub limit: Span,
    pub expr: Expr,
}

impl Limit {
    pub open spec fn parts(self) -> KeywordExprModel {
        KeywordExprModel { keyword: self.limit, expr: self.expr@ }
    }

    pub fn peek(toks: &Vec<TokenTree>, pos: usize) -> (found: bool)
        ensures
            found == keyword_at(toks@, pos as int, Keyword::Limit.spec_text()),
    {
        peek_keyword(toks, pos, Keyword::Limit.text())
    }

    pub fn parse_optional(toks: &Vec<TokenTree>, end: Span, pos: usize) -> (res: Result<(Option<Limit>, usize), ParseError>)
        requires
            pos <= toks.len(),
        ensures
            agrees_kw_opt(res, |l: Limit| l.parts(), optional(keyword_at(toks@, pos as int, Keyword::Limit.spec_text()),
                spec_parse_keyword_expr(toks@, end, pos as int, Keyword::Limit), pos as int)),
            res matches Ok((_, q)) ==> pos <= q <= toks.len(),
    {
        if !Limit::peek(toks, pos) {
            return Ok((None, pos));
        }
        match parse_keyword_expr(toks, end, pos, Keyword::Limit) {
            Ok((limit, expr, q)) => Ok((Some(Limit { limit, expr }), q)),
            Err(e) => Err(e),
        }
    }

    pub fn expr(&self) -> (e: &Expr)
        ensures
            e == &self.expr,
    {
        &self.expr
    }
}

/// `offset expr`.
#[derive(Debug)]
pub struct Offset {
    pub offset: Span,
    pub expr: Expr,
}

impl Offset {
    pub open spec fn parts(self) -> KeywordExprModel {
        KeywordExprModel { keyword: self.offset, expr: self.expr@ }
    }

    pub fn peek(toks: &Vec<TokenTree>, pos: usize) -> (found: bool)
        ensures
            found == keyword_at(toks@, pos as int, Keyword::Offset.spec_text()),
    {
        peek_keyword(toks, pos, Keyword::Offset.text())
    }

    pub fn parse_optional(toks: &Vec<TokenTree>, end: Span, pos: usize) -> (res: Result<(Option<Offset>, usize), ParseError>)
        requires
            pos <= toks.len(),
        ensures
            agrees_kw_opt(res, |o: Offset| o.parts(), optional(keyword_at(toks@, pos as int, Keyword::Offset.spec_text()),
                spec_parse_keyword_expr(toks@, end, pos as int, Keyword::Offset), pos as int)),
            res matches Ok((_, q)) ==> pos <= q <= toks.len(),
    {
        if !Offset::peek(toks, pos) {
            return Ok((None, pos));
        }
        match parse_keyword_expr(toks, end, pos, Keyword::Offset) {
            Ok((offset, expr, q)) => Ok((Some(Offset { offset, expr }), q)),
            Err(e) => Err(e),
        }
    }

    pub fn expr(&self) -> (e: &Expr)
        ensures
            e == &self.expr,
    {
        &self.expr
    }
}


// ---------------------------------------------------------------------------
// group by
// ---------------------------------------------------------------------------

#[derive(Debug)]
pub struct GroupByItem {
    pub expr: Expr,
}

impl View for GroupByItem {
    type V = ExprModel;

    open spec fn view(&self) -> ExprModel {
        self.expr@
    }
}

/// `group by item, ...` (at least one item).
#[derive(Debug)]
pub struct GroupBy {
    pub group: Span,
    pub by: Span,
    pub items: Vec<GroupByItem>,
}

pub struct GroupByModel {
    pub group: Span,
    pub by: Span,
    pub items: Seq<ExprModel>,
}

impl View for GroupBy {
    type V = GroupByModel;

    open spec fn view(&self) -> GroupByModel {
        GroupByModel { group: self.group, by: self.by, items: self.items@.map_values(|i: GroupByItem| i@) }
    }
}

/// Expressions separated by commas, up to the end or a clause keyword.
pub open spec fn spec_parse_expr_items(toks: Seq<TokenTree>, end: Span, pos: int) -> Result<(Seq<ExprModel>, int), ParseError>
    decreases toks.len() - pos,
{
    if pos < 0 || pos >= toks.len() || clause_at(toks, pos) {
        Ok((Seq::empty(), pos))
    } else {
        match spec_parse_expr(toks, end, pos, 0) {
            Ok((x, q)) =>
                if !(pos < q <= toks.len()) {
                    err(ErrorKind::Internal, end)
                } else if punct_at(toks, q, ',') {
                    match spec_parse_expr_items(toks, end, q + 1) {
                        Ok((rest, r)) => Ok((seq![x] + rest, r)),
                        Err(e) => Err(e),
                    }
                } else {
                    Ok((seq![x], q))
                },
            Err(e) => Err(e),
        }
    }
}

pub open spec fn spec_parse_group_by(toks: Seq<TokenTree>, end: Span, pos: int) -> Result<(GroupByModel, int), ParseError> {
    match spec_parse_keyword(toks, end, pos, Keyword::Group) {
        Ok((group, p1)) => match spec_parse_keyword(toks, end, p1, Keyword::By) {
            Ok((by, p2)) => match spec_parse_expr_items(toks, end, p2) {
                Ok((items, p3)) =>
                    if items.len() == 0 {
                        err(ErrorKind::EmptyGroupBy, span_at(toks, p3, end))
                    } else {
                        Ok((GroupByModel { group, by, items }, p3))
                    },
                Err(e) => Err(e),
            },
            Err(e) => Err(e),
        },
        Err(e) => Err(e),
    }
}

fn parse_group_by_items(toks: &Vec<TokenTree>, end: Span, pos: usize) -> (res: Result<(Vec<GroupByItem>, usize), ParseError>)
    requires
        pos <= toks.len(),
    ensures
        agrees_list(res, spec_parse_expr_items(toks@, end, pos as int)),
        res matches Ok((_, q)) ==> pos <= q <= toks.len(),
    decreases toks.len() - pos,
{
    if pos >= toks.len() || peek_clause(toks, pos) {
        let v: Vec<GroupByItem> = Vec::new();
        assert(v@.map_values(|x: GroupByItem| x@) =~= Seq::<ExprModel>::empty());
        return Ok((v, pos));
    }
    let (x, q) = match parse_expr(toks, end, pos, 0) {
        Ok(r) => r,
        Err(e) => return Err(e),
    };
    let item = GroupByItem { expr: x };
    if peek_punct(toks, q, ',') {
        let (mut rest, r) = match parse_group_by_items(toks, end, q + 1) {
            Ok(r) => r,
            Err(e) => return Err(e),
        };
        prepend(&mut rest, item);
        Ok((rest, r))
    } else {
        let mut v: Vec<GroupByItem> = Vec::new();
        let ghost m = item@;
        v.push(item);
        assert(v@.map_values(|x: GroupByItem| x@) =~= seq![m]);
        Ok((v, q))
    }
}

impl GroupBy {
    pub fn peek(toks: &Vec<TokenTree>, pos: usize) -> (found: bool)
        ensures
            found == keyword2_at(toks@, pos as int, Keyword::Group, Keyword::By),
    {
        peek_keyword2(toks, pos, Keyword::Group, Keyword::By)
    }

    pub fn parse(toks: &Vec<TokenTree>, end: Span, pos: usize) -> (res: Result<(GroupBy, usize), ParseError>)
        requires
            pos <= toks.len(),
        ensures
            agrees(res, spec_parse_group_by(toks@, end, pos as int)),
            res matches Ok((_, q)) ==> pos < q <= toks.len(),
    {
        let (group, p1) = match parse_keyword(toks, end, pos, Keyword::Group) {
            Ok(r) => r,
            Err(e) => return Err(e),
        };
        let (by, p2) = match parse_keyword(toks, end, p1, Keyword::By) {
            Ok(r) => r,
            Err(e) => return Err(e),
        };
        let (items, p3) = match parse_group_by_items(toks, end, p2) {
            Ok(r) => r,
            Err(e) => return Err(e),
        };
        if items.len() == 0 {
            return Err(error_at(ErrorKind::EmptyGroupBy, span_at_exec(toks, p3, end)));
        }
        Ok((GroupBy { group, by, items }, p3))
    }

    pub fn parse_optional(toks: &Vec<TokenTree>, end: Span, pos: usize) -> (res: Result<(Option<GroupBy>, usize), ParseError>)
        requires
            pos <= toks.len(),
        ensures
            agrees_opt(res, optional(keyword2_at(toks@, pos as int, Keyword::Group, Keyword::By), spec_parse_group_by(toks@, end, pos as int), pos as int)),
            res matches Ok((_, q)) ==> pos <= q <= toks.len(),
    {
        if GroupBy::peek(toks, pos) {
            match GroupBy::parse(toks, end, pos) {
                Ok((g, q)) => Ok((Some(g), q)),
                Err(e) => Err(e),
            }
        } else {
            Ok((None, pos))
        }
    }
}

// ---------------------------------------------------------------------------
// order by
// ---------------------------------------------------------------------------

#[derive(Clone, Copy, PartialEq, Eq, Structural, Debug)]
pub enum OrderByDir {
    Asc(Span),
    Desc(Span),
}

#[derive(Clone, Copy, PartialEq, Eq, Structural, Debug)]
pub enum OrderByNulls {
    First(Span, Span),
    Last(Span, Span),
}

pub open spec fn spec_parse_order_by_dir(toks: Seq<TokenTree>, end: Span, pos: int) -> Result<(OrderByDir, int), ParseError> {
    if keyword_at(toks, pos, Keyword::Asc.spec_text()) {
        Ok((OrderByDir::Asc(tt_span(toks[pos])), pos + 1))
    } else if keyword_at(toks, pos, Keyword::Desc.spec_text()) {
        Ok((OrderByDir::Desc(tt_span(toks[pos])), pos + 1))
    } else {
        expected(Expected::OrderByDir, span_at(toks, pos, end))
    }
}

pub open spec fn spec_parse_order_by_nulls(toks: Seq<TokenTree>, end: Span, pos: int) -> Result<(OrderByNulls, int), ParseError> {
    match spec_parse_keyword(toks, end, pos, Keyword::Nulls) {
        Ok((nulls, p1)) =>
            if keyword_at(toks, p1, Keyword::First.spec_text()) {
                Ok((OrderByNulls::First(nulls, tt_span(toks[p1])), p1 + 1))
            } else if keyword_at(toks, p1, Keyword::Last.spec_text()) {
                Ok((OrderByNulls::Last(nulls, tt_span(toks[p1])), p1 + 1))
            } else {
                expected(Expected::OrderByNulls, span_at(toks, p1, end))
            },
        Err(e) => Err(e),
    }
}

impl OrderByDir {
    pub fn peek(toks: &Vec<TokenTree>, pos: usize) -> (found: bool)
        ensures
            found == (keyword_at(toks@, pos as int, Keyword::Asc.spec_text()) || keyword_at(toks@, pos as int, Keyword::Desc.spec_text())),
    {
        peek_keyword(toks, pos, Keyword::Asc.text()) || peek_keyword(toks, pos, Keyword::Desc.text())
    }

    pub fn parse(toks: &Vec<TokenTree>, end: Span, pos: usize) -> (res: Result<(OrderByDir, usize), ParseError>)
        requires
            pos <= toks.len(),
        ensures
            match res {
                Ok((d, q)) => spec_parse_order_by_dir(toks@, end, pos as int) == Ok::<(OrderByDir, int), ParseError>((d, q as int)) && q == pos + 1,
                Err(e) => spec_parse_order_by_dir(toks@, end, pos as int) == Err::<(OrderByDir, int), ParseError>(e),
            },
    {
        if peek_keyword(toks, pos, Keyword::Asc.text()) {
            Ok((OrderByDir::Asc(toks[pos].span()), pos + 1))
        } else if peek_keyword(toks, pos, Keyword::Desc.text()) {
            Ok((OrderByDir::Desc(toks[pos].span()), pos + 1))
        } else {
            Err(expected_at(Expected::OrderByDir, span_at_exec(toks, pos, end)))
        }
    }

    pub fn parse_optional(toks: &Vec<TokenTree>, end: Span, pos: usize) -> (res: Result<(Option<OrderByDir>, usize), ParseError>)
        requires
            pos <= toks.len(),
        ensures
            match res {
                Ok((d, q)) => optional(keyword_at(toks@, pos as int, Keyword::Asc.spec_text()) || keyword_at(toks@, pos as int, Keyword::Desc.spec_text()),
                    spec_parse_order_by_dir(toks@, end, pos as int), pos as int) == Ok::<(Option<OrderByDir>, int), ParseError>((d, q as int))
                    && pos <= q <= toks.len(),
                Err(e) => optional(keyword_at(toks@, pos as int, Keyword::Asc.spec_text()) || keyword_at(toks@, pos as int, Keyword::Desc.spec_text()),
                    spec_parse_order_by_dir(toks@, end, pos as int), pos as int) == Err::<(Option<OrderByDir>, int), ParseError>(e),
            },
    {
        if OrderByDir::peek(toks, pos) {
            match OrderByDir::parse(toks, end, pos) {
                Ok((d, q)) => Ok((Some(d), q)),
                Err(e) => Err(e),
            }
        } else {
            Ok((None, pos))
        }
    }
}

impl OrderByNulls {
    pub fn peek(toks: &Vec<TokenTree>, pos: usize) -> (found: bool)
        ensures
            found == keyword_at(toks@, pos as int, Keyword::Nulls.spec_text()),
    {
        peek_keyword(toks, pos, Keyword::Nulls.text())
    }

    pub fn parse(toks: &Vec<TokenTree>, end: Span, pos: usize) -> (res: Result<(OrderByNulls, usize), ParseError>)
        requires
            pos <= toks.len(),
        ensures
            match res {
                Ok((n, q)) => spec_parse_order_by_nulls(toks@, end, pos as int) == Ok::<(OrderByNulls, int), ParseError>((n, q as int)) && q == pos + 2,
                Err(e) => spec_parse_order_by_nulls(toks@, end, pos as int) == Err::<(OrderByNulls, int), ParseError>(e),
            },
    {
        let (nulls, p1) = match parse_keyword(toks, end, pos, Keyword::Nulls) {
            Ok(r) => r,
            Err(e) => return Err(e),
        };
        if peek_keyword(toks, p1, Keyword::First.text()) {
            Ok((OrderByNulls::First(nulls, toks[p1].span()), p1 + 1))
        } else if peek_keyword(toks, p1, Keyword::Last.text()) {
            Ok((OrderByNulls::Last(nulls, toks[p1].span()), p1 + 1))
        } else {
            Err(expected_at(Expected::OrderByNulls, span_at_exec(toks, p1, end)))
        }
    }

    pub fn parse_optional(toks: &Vec<TokenTree>, end: Span, pos: usize) -> (res: Result<(Option<OrderByNulls>, usize), ParseError>)
        requires
            pos <= toks.len(),
        ensures
            match res {
                Ok((n, q)) => optional(keyword_at(toks@, pos as int, Keyword::Nulls.spec_text()),
                    spec_parse_order_by_nulls(toks@, end, pos as int), pos as int) == Ok::<(Option<OrderByNulls>, int), ParseError>((n, q as int))
                    && pos <= q <= toks.len(),
                Err(e) => optional(keyword_at(toks@, pos as int, Keyword::Nulls.spec_text()),
                    spec_parse_order_by_nulls(toks@, end, pos as int), pos as int) == Err::<(Option<OrderByNulls>, int), ParseError>(e),
            },
    {
        if OrderByNulls::peek(toks, pos) {
            match OrderByNulls::parse(toks, end, pos) {
                Ok((n, q)) => Ok((Some(n), q)),
                Err(e) => Err(e),
            }
        } else {
            Ok((None, pos))
        }
    }
}

/// One `order by` item: an expression with an optional direction and an
/// optional placement of nulls.
#[derive(Debug)]
pub struct OrderByItem {
    pub expr: Expr,
    pub dir: Option<OrderByDir>,
    pub nulls: Option<OrderByNulls>,
}

pub struct OrderByItemModel {
    pub expr: ExprModel,
    pub dir: Option<OrderByDir>,
    pub nulls: Option<OrderByNulls>,
}

impl View for OrderByItem {
    type V = OrderByItemModel;

    open spec fn view(&self) -> OrderByItemModel {
        OrderByItemModel { expr: self.expr@, dir: self.dir, nulls: self.nulls }
    }
}

pub open spec fn spec_parse_order_by_item(toks: Seq<TokenTree>, end: Span, pos: int) -> Result<(OrderByItemModel, int), ParseError> {
    match spec_parse_expr(toks, end, pos, 0) {
        Ok((expr, p1)) => match optional(keyword_at(toks, p1, Keyword::Asc.spec_text()) || keyword_at(toks, p1, Keyword::Desc.spec_text()),
            spec_parse_order_by_dir(toks, end, p1), p1) {
            Ok((dir, p2)) => match optional(keyword_at(toks, p2, Keyword::Nulls.spec_text()), spec_parse_order_by_nulls(toks, end, p2), p2) {
                Ok((nulls, p3)) => Ok((OrderByItemModel { expr, dir, nulls }, p3)),
                Err(e) => Err(e),
            },
            Err(e) => Err(e),
        },
        Err(e) => Err(e),
    }
}

impl OrderByItem {
    pub fn parse(toks: &Vec<TokenTree>, end: Span, pos: usize) -> (res: Result<(OrderByItem, usize), ParseError>)
        requires
            pos <= toks.len(),
        ensures
            agrees(res, spec_parse_order_by_item(toks@, end, pos as int)),
            res matches Ok((_, q)) ==> pos < q <= toks.len(),
    {
        let (expr, p1) = match parse_expr(toks, end, pos, 0) {
            Ok(r) => r,
            Err(e) => return Err(e),
        };
        let (dir, p2) = match OrderByDir::parse_optional(toks, end, p1) {
            Ok(r) => r,
            Err(e) => return Err(e),
        };
        let (nulls, p3) = match OrderByNulls::parse_optional(toks, end, p2) {
            Ok(r) => r,
            Err(e) => return Err(e),
        };
        Ok((OrderByItem { expr, dir, nulls }, p3))
    }
}

/// `order by item, ...` (at least one item).
#[derive(Debug)]
pub struct OrderBy {
    pub order: Span,
    pub by: Span,
    pub items: Vec<OrderByItem>,
}

pub struct OrderByModel {
    pub order: Span,
    pub by: Span,
    pub items: Seq<OrderByItemModel>,
}

impl View for OrderBy {
    type V = OrderByModel;

    open spec fn view(&self) -> OrderByModel {
        OrderByModel { order: self.order, by: self.by, items: self.items@.map_values(|i: OrderByItem| i@) }
    }
}

pub open spec fn spec_parse_order_by_items(toks: Seq<TokenTree>, end: Span, pos: int) -> Result<(Seq<OrderByItemModel>, int), ParseError>
    decreases toks.len() - pos,
{
    if pos < 0 || pos >= toks.len() || clause_at(toks, pos) {
        Ok((Seq::empty(), pos))
    } else {
        match spec_parse_order_by_item(toks, end, pos) {
            Ok((x, q)) =>
                if !(pos < q <= toks.len()) {
                    err(ErrorKind::Internal, end)
                } else if punct_at(toks, q, ',') {
                    match spec_parse_order_by_items(toks, end, q + 1) {
                        Ok((rest, r)) => Ok((seq![x] + rest, r)),
                        Err(e) => Err(e),
                    }
                } else {
                    Ok((seq![x], q))
                },
            Err(e) => Err(e),
        }
    }
}

pub open spec fn spec_parse_order_by(toks: Seq<TokenTree>, end: Span, pos: int) -> Result<(OrderByModel, int), ParseError> {
    match spec_parse_keyword(toks, end, pos, Keyword::Order) {
        Ok((order, p1)) => match spec_parse_keyword(toks, end, p1, Keyword::By) {
            Ok((by, p2)) => match spec_parse_order_by_items(toks, end, p2) {
                Ok((items, p3)) =>
                    if items.len() == 0 {
                        err(ErrorKind::EmptyOrderBy, span_at(toks, p3, end))
                    } else {
                        Ok((OrderByModel { order, by, items }, p3))
                    },
                Err(e) => Err(e),
            },
            Err(e) => Err(e),
        },
        Err(e) => Err(e),
    }
}

fn parse_order_by_items(toks: &Vec<TokenTree>, end: Span, pos: usize) -> (res: Result<(Vec<OrderByItem>, usize), ParseError>)
    requires
        pos <= toks.len(),
    ensures
        agrees_list(res, spec_parse_order_by_items(toks@, end, pos as int)),
        res matches Ok((_, q)) ==> pos <= q <= toks.len(),
    decreases toks.len() - pos,
{
    if pos >= toks.len() || peek_clause(toks, pos) {
        let v: Vec<OrderByItem> = Vec::new();
        assert(v@.map_values(|x: OrderByItem| x@) =~= Seq::<OrderByItemModel>::empty());
        return Ok((v, pos));
    }
    let (item, q) = match OrderByItem::parse(toks, end, pos) {
        Ok(r) => r,
        Err(e) => return Err(e),
    };
    if peek_punct(toks, q, ',') {
        let (mut rest, r) = match parse_order_by_items(toks, end, q + 1) {
            Ok(r) => r,
            Err(e) => return Err(e),
        };
        prepend(&mut rest, item);
        Ok((rest, r))
    } else {
        let mut v: Vec<OrderByItem> = Vec::new();
        let ghost m = item@;
        v.push(item);
        assert(v@.map_values(|x: OrderByItem| x@) =~= seq![m]);
        Ok((v, q))
    }
}

impl OrderBy {
    pub fn peek(toks: &Vec<TokenTree>, pos: usize) -> (found: bool)
        ensures
            found == keyword2_at(toks@, pos as int, Keyword::Order, Keyword::By),
    {
        peek_keyword2(toks, pos, Keyword::Order, Keyword::By)
    }

    pub fn parse(toks: &Vec<TokenTree>, end: Span, pos: usize) -> (res: Result<(OrderBy, usize), ParseError>)
        requires
            pos <= toks.len(),
        ensures
            agrees(res, spec_parse_order_by(toks@, end, pos as int)),
            res matches Ok((_, q)) ==> pos < q <= toks.len(),
    {
        let (order, p1) = match parse_keyword(toks, end, pos, Keyword::Order) {
            Ok(r) => r,
            Err(e) => return Err(e),
        };
        let (by, p2) = match parse_keyword(toks, end, p1, Keyword::By) {
            Ok(r) => r,
            Err(e) => return Err(e),
        };
        let (items, p3) = match parse_order_by_items(toks, end, p2) {
            Ok(r) => r,
            Err(e) => return Err(e),
        };
        if items.len() == 0 {
            return Err(error_at(ErrorKind::EmptyOrderBy, span_at_exec(toks, p3, end)));
        }
        Ok((OrderBy { order, by, items }, p3))
    }

    pub fn parse_optional(toks: &Vec<TokenTree>, end: Span, pos: usize) -> (res: Result<(Option<OrderBy>, usize), ParseError>)
        requires
            pos <= toks.len(),
        ensures
            agrees_opt(res, optional(keyword2_at(toks@, pos as int, Keyword::Order, Keyword::By), spec_parse_order_by(toks@, end, pos as int), pos as int)),
            res matches Ok((_, q)) ==> pos <= q <= toks.len(),
    {
        if OrderBy::peek(toks, pos) {
            match OrderBy::parse(toks, end, pos) {
                Ok((o, q)) => Ok((Some(o), q)),
                Err(e) => Err(e),
            }
        } else {
            Ok((None, pos))
        }
    }
}


// ---------------------------------------------------------------------------
// set
// ---------------------------------------------------------------------------

/// `column = default` or `column = expr`.
#[derive(Debug)]
pub enum SetItem {
    Default { column: Ident, eq: Span, default: Span },
    Expr { column: Ident, eq: Span, expr: Expr },
}

pub enum SetItemModel {
    Default { column: IdentModel, eq: Span, default: Span },
    Expr { column: IdentModel, eq: Span, expr: ExprModel },
}

impl View for SetItem {
    type V = SetItemModel;

    open spec fn view(&self) -> SetItemModel {
        match self {
            SetItem::Default { column, eq, default } => SetItemModel::Default { column: column@, eq: *eq, default: *default },
            SetItem::Expr { column, eq, expr } => SetItemModel::Expr { column: column@, eq: *eq, expr: expr@ },
        }
    }
}

pub open spec fn spec_parse_set_item(toks: Seq<TokenTree>, end: Span, pos: int) -> Result<(SetItemModel, int), ParseError> {
    if !ident_at(toks, pos) {
        expected(Expected::Identifier, span_at(toks, pos, end))
    } else if !punct_at(toks, pos + 1, '=') {
        expected(Expected::Punct('='), span_at(toks, pos + 1, end))
    } else if keyword_at(toks, pos + 2, Keyword::Default.spec_text()) {
        Ok((SetItemModel::Default {
            column: ident_model_at(toks, pos),
            eq: tt_span(toks[pos + 1]),
            default: tt_span(toks[pos + 2]),
        }, pos + 3))
    } else {
        match spec_parse_expr(toks, end, pos + 2, 0) {
            Ok((expr, q)) => Ok((SetItemModel::Expr {
                column: ident_model_at(toks, pos),
                eq: tt_span(toks[pos + 1]),
                expr,
            }, q)),
            Err(e) => Err(e),
        }
    }
}

impl SetItem {
    pub fn parse(toks: &Vec<TokenTree>, end: Span, pos: usize) -> (res: Result<(SetItem, usize), ParseError>)
        requires
            pos <= toks.len(),
        ensures
            agrees(res, spec_parse_set_item(toks@, end, pos as int)),
            res matches Ok((_, q)) ==> pos < q <= toks.len(),
    {
        if !peek_ident(toks, pos) {
            return Err(expected_at(Expected::Identifier, span_at_exec(toks, pos, end)));
        }
        if !peek_punct(toks, pos + 1, '=') {
            return Err(expected_at(Expected::Punct('='), span_at_exec(toks, pos + 1, end)));
        }
        let column = ident_at_exec(toks, pos);
        let eq = toks[pos + 1].span();
        if peek_keyword(toks, pos + 2, Keyword::Default.text()) {
            return Ok((SetItem::Default { column, eq, default: toks[pos + 2].span() }, pos + 3));
        }
        match parse_expr(toks, end, pos + 2, 0) {
            Ok((expr, q)) => Ok((SetItem::Expr { column, eq, expr }, q)),
            Err(e) => Err(e),
        }
    }
}

/// `set item, ...`.
#[derive(Debug)]
pub struct SetClause {
    pub set: Span,
    pub items: Vec<SetItem>,
}

pub struct SetClauseModel {
    pub set: Span,
    pub items: Seq<SetItemModel>,
}

impl View for SetClause {
    type V = SetClauseModel;

    open spec fn view(&self) -> SetClauseModel {
        SetClauseModel { set: self.set, items: self.items@.map_values(|i: SetItem| i@) }
    }
}

pub open spec fn spec_parse_set_items(toks: Seq<TokenTree>, end: Span, pos: int) -> Result<(Seq<SetItemModel>, int), ParseError>
    decreases toks.len() - pos,
{
    if pos < 0 || pos >= toks.len() || clause_at(toks, pos) {
        Ok((Seq::empty(), pos))
    } else {
        match spec_parse_set_item(toks, end, pos) {
            Ok((x, q)) =>
                if !(pos < q <= toks.len()) {
                    err(ErrorKind::Internal, end)
                } else if punct_at(toks, q, ',') {
                    match spec_parse_set_items(toks, end, q + 1) {
                        Ok((rest, r)) => Ok((seq![x] + rest, r)),
                        Err(e) => Err(e),
                    }
                } else {
                    Ok((seq![x], q))
                },
            Err(e) => Err(e),
        }
    }
}

pub open spec fn spec_parse_set(toks: Seq<TokenTree>, end: Span, pos: int) -> Result<(SetClauseModel, int), ParseError> {
    match spec_parse_keyword(toks, end, pos, Keyword::SetKw) {
        Ok((set, p1)) => match spec_parse_set_items(toks, end, p1) {
            Ok((items, p2)) => Ok((SetClauseModel { set, items }, p2)),
            Err(e) => Err(e),
        },
        Err(e) => Err(e),
    }
}

fn parse_set_items(toks: &Vec<TokenTree>, end: Span, pos: usize) -> (res: Result<(Vec<SetItem>, usize), ParseError>)
    requires
        pos <= toks.len(),
    ensures
        agrees_list(res, spec_parse_set_items(toks@, end, pos as int)),
        res matches Ok((_, q)) ==> pos <= q <= toks.len(),
    decreases toks.len() - pos,
{
    if pos >= toks.len() || peek_clause(toks, pos) {
        let v: Vec<SetItem> = Vec::new();
        assert(v@.map_values(|x: SetItem| x@) =~= Seq::<SetItemModel>::empty());
        return Ok((v, pos));
    }
    let (item, q) = match SetItem::parse(toks, end, pos) {
        Ok(r) => r,
        Err(e) => return Err(e),
    };
    if peek_punct(toks, q, ',') {
        let (mut rest, r) = match parse_set_items(toks, end, q + 1) {
            Ok(r) => r,
            Err(e) => return Err(e),
        };
        prepend(&mut rest, item);
        Ok((rest, r))
    } else {
        let mut v: Vec<SetItem> = Vec::new();
        let ghost m = item@;
        v.push(item);
        assert(v@.map_values(|x: SetItem| x@) =~= seq![m]);
        Ok((v, q))
    }
}

impl SetClause {
    pub fn peek(toks: &Vec<TokenTree>, pos: usize) -> (found: bool)
        ensures
            found == keyword_at(toks@, pos as int, Keyword::SetKw.spec_text()),
    {
        peek_keyword(toks, pos, Keyword::SetKw.text())
    }

    pub fn parse(toks: &Vec<TokenTree>, end: Span, pos: usize) -> (res: Result<(SetClause, usize), ParseError>)
        requires
            pos <= toks.len(),
        ensures
            agrees(res, spec_parse_set(toks@, end, pos as int)),
            res matches Ok((_, q)) ==> pos < q <= toks.len(),
    {
        let (set, p1) = match parse_keyword(toks, end, pos, Keyword::SetKw) {
            Ok(r) => r,
            Err(e) => return Err(e),
        };
        let (items, p2) = match parse_set_items(toks, end, p1) {
            Ok(r) => r,
            Err(e) => return Err(e),
        };
        Ok((SetClause { set, items }, p2))
    }

    pub fn parse_optional(toks: &Vec<TokenTree>, end: Span, pos: usize) -> (res: Result<(Option<SetClause>, usize), ParseError>)
        requires
            pos <= toks.len(),
        ensures
            agrees_opt(res, optional(keyword_at(toks@, pos as int, Keyword::SetKw.spec_text()), spec_parse_set(toks@, end, pos as int), pos as int)),
    {
        if SetClause::peek(toks, pos) {
            match SetClause::parse(toks, end, pos) {
                Ok((x, q)) => Ok((Some(x), q)),
                Err(e) => Err(e),
            }
        } else {
            Ok((None, pos))
        }
    }
}

// ---------------------------------------------------------------------------
// values
// ---------------------------------------------------------------------------

#[derive(Debug)]
pub enum ValuesItem {
    Default(Span),
    Expr(Expr),
}

pub enum ValuesItemModel {
    Default(Span),
    Expr(ExprModel),
}

impl View for ValuesItem {
    type V = ValuesItemModel;

    open spec fn view(&self) -> ValuesItemModel {
        match self {
            ValuesItem::Default(s) => ValuesItemModel::Default(*s),
            ValuesItem::Expr(e) => ValuesItemModel::Expr(e@),
        }
    }
}

pub open spec fn spec_parse_values_item(toks: Seq<TokenTree>, end: Span, pos: int) -> Result<(ValuesItemModel, int), ParseError> {
    if keyword_at(toks, pos, Keyword::Default.spec_text()) {
        Ok((ValuesItemModel::Default(tt_span(toks[pos])), pos + 1))
    } else {
        match spec_parse_expr(toks, end, pos, 0) {
            Ok((e, q)) => Ok((ValuesItemModel::Expr(e), q)),
            Err(e) => Err(e),
        }
    }
}

/// The items of a parenthesized row, comma separated, a trailing comma allowed.
pub open spec fn spec_parse_values_items(toks: Seq<TokenTree>, end: Span, pos: int) -> Result<(Seq<ValuesItemModel>, int), ParseError>
    decreases toks.len() - pos,
{
    if pos < 0 || pos >= toks.len() {
        Ok((Seq::empty(), pos))
    } else {
        match spec_parse_values_item(toks, end, pos) {
            Ok((x, q)) =>
                if !(pos < q <= toks.len()) {
                    err(ErrorKind::Internal, end)
                } else if q == toks.len() {
                    Ok((seq![x], q))
                } else if punct_at(toks, q, ',') {
                    match spec_parse_values_items(toks, end, q + 1) {
                        Ok((rest, r)) => Ok((seq![x] + rest, r)),
                        Err(e) => Err(e),
                    }
                } else {
                    expected(Expected::Punct(','), tt_span(toks[q]))
                },
            Err(e) => Err(e),
        }
    }
}

impl ValuesItem {
    pub fn parse(toks: &Vec<TokenTree>, end: Span, pos: usize) -> (res: Result<(ValuesItem, usize), ParseError>)
        requires
            pos <= toks.len(),
        ensures
            agrees(res, spec_parse_values_item(toks@, end, pos as int)),
            res matches Ok((_, q)) ==> pos < q <= toks.len(),
    {
        if peek_keyword(toks, pos, Keyword::Default.text()) {
            return Ok((ValuesItem::Default(toks[pos].span()), pos + 1));
        }
        match parse_expr(toks, end, pos, 0) {
            Ok((e, q)) => Ok((ValuesItem::Expr(e), q)),
            Err(e) => Err(e),
        }
    }
}

fn parse_values_items(toks: &Vec<TokenTree>, end: Span, pos: usize) -> (res: Result<(Vec<ValuesItem>, usize), ParseError>)
    requires
        pos <= toks.len(),
    ensures
        agrees_list(res, spec_parse_values_items(toks@, end, pos as int)),
        res matches Ok((_, q)) ==> q == toks.len(),
    decreases toks.len() - pos,
{
    if pos >= toks.len() {
        let v: Vec<ValuesItem> = Vec::new();
        assert(v@.map_values(|x: ValuesItem| x@) =~= Seq::<ValuesItemModel>::empty());
        return Ok((v, pos));
    }
    let (item, q) = match ValuesItem::parse(toks, end, pos) {
        Ok(r) => r,
        Err(e) => return Err(e),
    };
    if q == toks.len() {
        let mut v: Vec<ValuesItem> = Vec::new();
        let ghost m = item@;
        v.push(item);
        assert(v@.map_values(|x: ValuesItem| x@) =~= seq![m]);
        return Ok((v, q));
    }
    if !peek_punct(toks, q, ',') {
        return Err(expected_at(Expected::Punct(','), toks[q].span()));
    }
    let (mut rest, r) = match parse_values_items(toks, end, q + 1) {
        Ok(r) => r,
        Err(e) => return Err(e),
    };
    prepend(&mut rest, item);
    Ok((rest, r))
}

/// A parenthesized row of values.
#[derive(Debug)]
pub struct ValuesRow {
    pub paren: Span,
    pub items: Vec<ValuesItem>,
}

pub struct ValuesRowModel {
    pub paren: Span,
    pub items: Seq<ValuesItemModel>,
}

impl View for ValuesRow {
    type V = ValuesRowModel;

    open spec fn view(&self) -> ValuesRowModel {
        ValuesRowModel { paren: self.paren, items: self.items@.map_values(|i: ValuesItem| i@) }
    }
}

pub open spec fn spec_parse_values_row(toks: Seq<TokenTree>, end: Span, pos: int) -> Result<(ValuesRowModel, int), ParseError> {
    if !group_at(toks, pos, Delimiter::Parenthesis) {
        expected(Expected::Parentheses, span_at(toks, pos, end))
    } else {
        match spec_parse_values_items(group_stream(toks[pos]), tt_span(toks[pos]), 0) {
            Ok((items, _)) => Ok((ValuesRowModel { paren: tt_span(toks[pos]), items }, pos + 1)),
            Err(e) => Err(e),
        }
    }
}

impl ValuesRow {
    pub fn parse(toks: &Vec<TokenTree>, end: Span, pos: usize) -> (res: Result<(ValuesRow, usize), ParseError>)
        requires
            pos <= toks.len(),
        ensures
            agrees(res, spec_parse_values_row(toks@, end, pos as int)),
            res matches Ok((_, q)) ==> q == pos + 1 && q <= toks.len(),
    {
        if !peek_group(toks, pos, Delimiter::Parenthesis) {
            return Err(expected_at(Expected::Parentheses, span_at_exec(toks, pos, end)));
        }
        match &toks[pos] {
            TokenTree::Group { stream, span, .. } => {
                match parse_values_items(stream, *span, 0) {
                    Ok((items, _)) => Ok((ValuesRow { paren: *span, items }, pos + 1)),
                    Err(e) => Err(e),
                }
            },
            _ => {
                assert(false);
                Err(expected_at(Expected::Parentheses, end))
            },
        }
    }
}

/// `values (row), ...` (at least one row).
#[derive(Debug)]
pub struct Values {
    pub values: Span,
    pub rows: Vec<ValuesRow>,
}

pub struct ValuesModel {
    pub values: Span,
    pub rows: Seq<ValuesRowModel>,
}

impl View for Values {
    type V = ValuesModel;

    open spec fn view(&self) -> ValuesModel {
        ValuesModel { values: self.values, rows: self.rows@.map_values(|r: ValuesRow| r@) }
    }
}

pub open spec fn spec_parse_values_rows(toks: Seq<TokenTree>, end: Span, pos: int) -> Result<(Seq<ValuesRowModel>, int), ParseError>
    decreases toks.len() - pos,
{
    if pos < 0 || pos >= toks.len() || clause_at(toks, pos) {
        Ok((Seq::empty(), pos))
    } else {
        match spec_parse_values_row(toks, end, pos) {
            Ok((x, q)) =>
                if !(pos < q <= toks.len()) {
                    err(ErrorKind::Internal, end)
                } else if punct_at(toks, q, ',') {
                    match spec_parse_values_rows(toks, end, q + 1) {
                        Ok((rest, r)) => Ok((seq![x] + rest, r)),
                        Err(e) => Err(e),
                    }
                } else {
                    Ok((seq![x], q))
                },
            Err(e) => Err(e),
        }
    }
}

pub open spec fn spec_parse_values(toks: Seq<TokenTree>, end: Span, pos: int) -> Result<(ValuesModel, int), ParseError> {
    match spec_parse_keyword(toks, end, pos, Keyword::Values) {
        Ok((values, p1)) => match spec_parse_values_rows(toks, end, p1) {
            Ok((rows, p2)) =>
                if rows.len() == 0 {
                    err(ErrorKind::EmptyValues, span_at(toks, p2, end))
                } else {
                    Ok((ValuesModel { values, rows }, p2))
                },
            Err(e) => Err(e),
        },
        Err(e) => Err(e),
    }
}

fn parse_values_rows(toks: &Vec<TokenTree>, end: Span, pos: usize) -> (res: Result<(Vec<ValuesRow>, usize), ParseError>)
    requires
        pos <= toks.len(),
    ensures
        agrees_list(res, spec_parse_values_rows(toks@, end, pos as int)),
        res matches Ok((_, q)) ==> pos <= q <= toks.len(),
    decreases toks.len() - pos,
{
    if pos >= toks.len() || peek_clause(toks, pos) {
        let v: Vec<ValuesRow> = Vec::new();
        assert(v@.map_values(|x: ValuesRow| x@) =~= Seq::<ValuesRowModel>::empty());
        return Ok((v, pos));
    }
    let (row, q) = match ValuesRow::parse(toks, end, pos) {
        Ok(r) => r,
        Err(e) => return Err(e),
    };
    if peek_punct(toks, q, ',') {
        let (mut rest, r) = match parse_values_rows(toks, end, q + 1) {
            Ok(r) => r,
            Err(e) => return Err(e),
        };
        prepend(&mut rest, row);
        Ok((rest, r))
    } else {
        let mut v: Vec<ValuesRow> = Vec::new();
        let ghost m = row@;
        v.push(row);
        assert(v@.map_values(|x: ValuesRow| x@) =~= seq![m]);
        Ok((v, q))
    }
}

impl Values {
    pub fn peek(toks: &Vec<TokenTree>, pos: usize) -> (found: bool)
        ensures
            found == keyword_at(toks@, pos as int, Keyword::Values.spec_text()),
    {
        peek_keyword(toks, pos, Keyword::Values.text())
    }

    pub fn parse(toks: &Vec<TokenTree>, end: Span, pos: usize) -> (res: Result<(Values, usize), ParseError>)
        requires
            pos <= toks.len(),
        ensures
            agrees(res, spec_parse_values(toks@, end, pos as int)),
            res matches Ok((_, q)) ==> pos < q <= toks.len(),
    {
        let (values, p1) = match parse_keyword(toks, end, pos, Keyword::Values) {
            Ok(r) => r,
            Err(e) => return Err(e),
        };
        let (rows, p2) = match parse_values_rows(toks, end, p1) {
            Ok(r) => r,
            Err(e) => return Err(e),
        };
        if rows.len() == 0 {
            return Err(error_at(ErrorKind::EmptyValues, span_at_exec(toks, p2, end)));
        }
        Ok((Values { values, rows }, p2))
    }
}


// ---------------------------------------------------------------------------
// Parts of the from clause that hold no select.
// ---------------------------------------------------------------------------

/// A parenthesized list of column names.
#[derive(Debug)]
pub struct ColumnList {
    pub paren: Span,
    pub columns: Vec<Ident>,
}

pub struct ColumnListModel {
    pub paren: Span,
    pub columns: Seq<IdentModel>,
}

impl View for ColumnList {
    type V = ColumnListModel;

    open spec fn view(&self) -> ColumnListModel {
        ColumnListModel { paren: self.paren, columns: self.columns@.map_values(|i: Ident| i@) }
    }
}

/// Identifiers separated by commas up to the end, a trailing comma allowed.
pub open spec fn spec_parse_idents(toks: Seq<TokenTree>, end: Span, pos: int) -> Result<(Seq<IdentModel>, int), ParseError>
    decreases toks.len() - pos,
{
    if pos < 0 || pos >= toks.len() {
        Ok((Seq::empty(), pos))
    } else if !ident_at(toks, pos) {
        expected(Expected::Identifier, tt_span(toks[pos]))
    } else if pos + 1 == toks.len() {
        Ok((seq![ident_model_at(toks, pos)], pos + 1))
    } else if punct_at(toks, pos + 1, ',') {
        match spec_parse_idents(toks, end, pos + 2) {
            Ok((rest, r)) => Ok((seq![ident_model_at(toks, pos)] + rest, r)),
            Err(e) => Err(e),
        }
    } else {
        expected(Expected::Punct(','), tt_span(toks[pos + 1]))
    }
}

pub fn parse_idents(toks: &Vec<TokenTree>, end: Span, pos: usize) -> (res: Result<(Vec<Ident>, usize), ParseError>)
    requires
        pos <= toks.len(),
    ensures
        agrees_list(res, spec_parse_idents(toks@, end, pos as int)),
    decreases toks.len() - pos,
{
    if pos >= toks.len() {
        let v: Vec<Ident> = Vec::new();
        assert(v@.map_values(|x: Ident| x@) =~= Seq::<IdentModel>::empty());
        return Ok((v, pos));
    }
    if !peek_ident(toks, pos) {
        return Err(expected_at(Expected::Identifier, toks[pos].span()));
    }
    let ident = ident_at_exec(toks, pos);
    if pos + 1 == toks.len() {
        let mut v: Vec<Ident> = Vec::new();
        let ghost m = ident@;
        v.push(ident);
        assert(v@.map_values(|x: Ident| x@) =~= seq![m]);
        return Ok((v, pos + 1));
    }
    if !peek_punct(toks, pos + 1, ',') {
        return Err(expected_at(Expected::Punct(','), toks[pos + 1].span()));
    }
    let (mut rest, r) = match parse_idents(toks, end, pos + 2) {
        Ok(x) => x,
        Err(e) => return Err(e),
    };
    prepend(&mut rest, ident);
    Ok((rest, r))
}

pub open spec fn spec_parse_column_list(toks: Seq<TokenTree>, end: Span, pos: int) -> Result<(ColumnListModel, int), ParseError> {
    if !group_at(toks, pos, Delimiter::Parenthesis) {
        expected(Expected::Parentheses, span_at(toks, pos, end))
    } else {
        match spec_parse_idents(group_stream(toks[pos]), tt_span(toks[pos]), 0) {
            Ok((columns, _)) => Ok((ColumnListModel { paren: tt_span(toks[pos]), columns }, pos + 1)),
            Err(e) => Err(e),
        }
    }
}

impl ColumnList {
    pub fn parse(toks: &Vec<TokenTree>, end: Span, pos: usize) -> (res: Result<(ColumnList, usize), ParseError>)
        requires
            pos <= toks.len(),
        ensures
            agrees(res, spec_parse_column_list(toks@, end, pos as int)),
            res matches Ok((_, q)) ==> q == pos + 1 && q <= toks.len(),
    {
        if !peek_group(toks, pos, Delimiter::Parenthesis) {
            return Err(expected_at(Expected::Parentheses, span_at_exec(toks, pos, end)));
        }
        match &toks[pos] {
            TokenTree::Group { stream, span, .. } => match parse_idents(stream, *span, 0) {
                Ok((columns, _)) => Ok((ColumnList { paren: *span, columns }, pos + 1)),
                Err(e) => Err(e),
            },
            _ => {
                assert(false);
                Err(expected_at(Expected::Parentheses, end))
            },
        }
    }
}

/// `[as] name [(columns)]` after a table or subquery.
#[derive(Debug)]
pub struct TableAlias {
    pub as_token: Option<Span>,
    pub name: Ident,
    pub columns: Option<ColumnList>,
}

pub struct TableAliasModel {
    pub as_token: Option<Span>,
    pub name: IdentModel,
    pub columns: Option<ColumnListModel>,
}

impl View for TableAlias {
    type V = TableAliasModel;

    open spec fn view(&self) -> TableAliasModel {
        TableAliasModel { as_token: self.as_token, name: self.name@, columns: opt_view(self.columns) }
    }
}

pub open spec fn spec_parse_table_alias(toks: Seq<TokenTree>, end: Span, pos: int) -> Result<(TableAliasModel, int), ParseError> {
    let as_token = if keyword_at(toks, pos, Keyword::As.spec_text()) { Some(tt_span(toks[pos])) } else { None };
    let p1 = if as_token is Some { pos + 1 } else { pos };
    if !ident_at(toks, p1) {
        expected(Expected::Identifier, span_at(toks, p1, end))
    } else {
        match optional(group_at(toks, p1 + 1, Delimiter::Parenthesis), spec_parse_column_list(toks, end, p1 + 1), p1 + 1) {
            Ok((columns, q)) => Ok((TableAliasModel { as_token, name: ident_model_at(toks, p1), columns }, q)),
            Err(e) => Err(e),
        }
    }
}

/// The keywords after which no alias is looked for.
pub open spec fn alias_stop_at(toks: Seq<TokenTree>, pos: int) -> bool {
    pos >= toks.len() || clause_at(toks, pos)
    || keyword_at(toks, pos, Keyword::Inner.spec_text())
    || keyword_at(toks, pos, Keyword::Left.spec_text())
    || keyword_at(toks, pos, Keyword::Right.spec_text())
    || keyword_at(toks, pos, Keyword::Full.spec_text())
    || keyword_at(toks, pos, Keyword::On.spec_text())
    || keyword_at(toks, pos, Keyword::Natural.spec_text())
    || keyword_at(toks, pos, Keyword::Cross.spec_text())
}

impl TableAlias {
    pub fn parse(toks: &Vec<TokenTree>, end: Span, pos: usize) -> (res: Result<(TableAlias, usize), ParseError>)
        requires
            pos <= toks.len(),
        ensures
            agrees(res, spec_parse_table_alias(toks@, end, pos as int)),
            res matches Ok((_, q)) ==> pos < q <= toks.len(),
    {
        let as_token = if peek_keyword(toks, pos, Keyword::As.text()) { Some(toks[pos].span()) } else { None };
        let p1 = if as_token.is_some() { pos + 1 } else { pos };
        if !peek_ident(toks, p1) {
            return Err(expected_at(Expected::Identifier, span_at_exec(toks, p1, end)));
        }
        let name = ident_at_exec(toks, p1);
        if peek_group(toks, p1 + 1, Delimiter::Parenthesis) {
            match ColumnList::parse(toks, end, p1 + 1) {
                Ok((c, q)) => Ok((TableAlias { as_token, name, columns: Some(c) }, q)),
                Err(e) => Err(e),
            }
        } else {
            Ok((TableAlias { as_token, name, columns: None }, p1 + 1))
        }
    }

    /// An alias, unless the input ends or a clause, join or `on` keyword
    /// follows.
    pub fn parse_optional(toks: &Vec<TokenTree>, end: Span, pos: usize) -> (res: Result<(Option<TableAlias>, usize), ParseError>)
        requires
            pos <= toks.len(),
        ensures
            agrees_opt(res, optional(!alias_stop_at(toks@, pos as int), spec_parse_table_alias(toks@, end, pos as int), pos as int)),
            res matches Ok((_, q)) ==> pos <= q <= toks.len(),
    {
        if pos >= toks.len() || peek_clause(toks, pos)
            || peek_keyword(toks, pos, Keyword::Inner.text())
            || peek_keyword(toks, pos, Keyword::Left.text())
            || peek_keyword(toks, pos, Keyword::Right.text())
            || peek_keyword(toks, pos, Keyword::Full.text())
            || peek_keyword(toks, pos, Keyword::On.text())
            || peek_keyword(toks, pos, Keyword::Natural.text())
            || peek_keyword(toks, pos, Keyword::Cross.text())
        {
            return Ok((None, pos));
        }
        match TableAlias::parse(toks, end, pos) {
            Ok((a, q)) => Ok((Some(a), q)),
            Err(e) => Err(e),
        }
    }
}

/// The kind of a join, with the spans of its two keywords.
#[derive(Clone, Copy, PartialEq, Eq, Structural, Debug)]
pub enum JoinType {
    Inner(Span, Span),
    Left(Span, Span),
    Right(Span, Span),
    Full(Span, Span),
}

pub open spec fn join_keyword_at(toks: Seq<TokenTree>, pos: int) -> bool {
    keyword_at(toks, pos, Keyword::Inner.spec_text())
    || keyword_at(toks, pos, Keyword::Left.spec_text())
    || keyword_at(toks, pos, Keyword::Right.spec_text())
    || keyword_at(toks, pos, Keyword::Full.spec_text())
}

pub open spec fn spec_parse_join_type(toks: Seq<TokenTree>, end: Span, pos: int) -> Result<(JoinType, int), ParseError> {
    if !join_keyword_at(toks, pos) {
        expected(Expected::JoinType, span_at(toks, pos, end))
    } else if !keyword_at(toks, pos + 1, Keyword::Join.spec_text()) {
        expected(Expected::Keyword(Keyword::Join), span_at(toks, pos + 1, end))
    } else {
        let a = tt_span(toks[pos]);
        let b = tt_span(toks[pos + 1]);
        let j = if keyword_at(toks, pos, Keyword::Inner.spec_text()) {
            JoinType::Inner(a, b)
        } else if keyword_at(toks, pos, Keyword::Left.spec_text()) {
            JoinType::Left(a, b)
        } else if keyword_at(toks, pos, Keyword::Right.spec_text()) {
            JoinType::Right(a, b)
        } else {
            JoinType::Full(a, b)
        };
        Ok((j, pos + 2))
    }
}

impl JoinType {
    pub fn peek(toks: &Vec<TokenTree>, pos: usize) -> (found: bool)
        ensures
            found == join_keyword_at(toks@, pos as int),
    {
        peek_keyword(toks, pos, Keyword::Inner.text()) || peek_keyword(toks, pos, Keyword::Left.text())
            || peek_keyword(toks, pos, Keyword::Right.text()) || peek_keyword(toks, pos, Keyword::Full.text())
    }

    pub fn parse(toks: &Vec<TokenTree>, end: Span, pos: usize) -> (res: Result<(JoinType, usize), ParseError>)
        requires
            pos <= toks.len(),
        ensures
            match res {
                Ok((j, q)) => spec_parse_join_type(toks@, end, pos as int) == Ok::<(JoinType, int), ParseError>((j, q as int))
                    && q == pos + 2 && q <= toks.len(),
                Err(e) => spec_parse_join_type(toks@, end, pos as int) == Err::<(JoinType, int), ParseError>(e),
            },
    {
        if !JoinType::peek(toks, pos) {
            return Err(expected_at(Expected::JoinType, span_at_exec(toks, pos, end)));
        }
        if !peek_keyword(toks, pos + 1, Keyword::Join.text()) {
            return Err(expected_at(Expected::Keyword(Keyword::Join), span_at_exec(toks, pos + 1, end)));
        }
        let a = toks[pos].span();
        let b = toks[pos + 1].span();
        let j = if peek_keyword(toks, pos, Keyword::Inner.text()) {
            JoinType::Inner(a, b)
        } else if peek_keyword(toks, pos, Keyword::Left.text()) {
            JoinType::Left(a, b)
        } else if peek_keyword(toks, pos, Keyword::Right.text()) {
            JoinType::Right(a, b)
        } else {
            JoinType::Full(a, b)
        };
        Ok((j, pos + 2))
    }
}

/// `on expr`.
#[derive(Debug)]
pub struct On {
    pub on_token: Span,
    pub expr: Expr,
}

impl On {
    pub open spec fn parts(self) -> KeywordExprModel {
        KeywordExprModel { keyword: self.on_token, expr: self.expr@ }
    }

    pub fn parse(toks: &Vec<TokenTree>, end: Span, pos: usize) -> (res: Result<(On, usize), ParseError>)
        requires
            pos <= toks.len(),
        ensures
            agrees_kw(res, |o: On| o.parts(), spec_parse_keyword_expr(toks@, end, pos as int, Keyword::On)),
            res matches Ok((_, q)) ==> pos < q <= toks.len(),
    {
        match parse_keyword_expr(toks, end, pos, Keyword::On) {
            Ok((on_token, expr, q)) => Ok((On { on_token, expr }, q)),
            Err(e) => Err(e),
        }
    }
}

// ---------------------------------------------------------------------------
// Laws: a join type and an ordering direction are the ones their keyword
// names.
// ---------------------------------------------------------------------------

/// The word of the identifier at `pos`, if the token there is one.
pub open spec fn word_at(toks: Seq<TokenTree>, pos: int) -> Option<Seq<char>> {
    if 0 <= pos < toks.len() {
        match toks[pos] {
            TokenTree::Ident(i) => Some(i.name@),
            _ => None,
        }
    } else {
        None
    }
}

/// `inner join`, `left join`, `right join` and `full join` are read as the
/// join of that name; a word other than these four is refused.
pub proof fn lemma_join_type_names(toks: Seq<TokenTree>, end: Span, pos: int)
    ensures
        word_at(toks, pos + 1) == Some("join"@) ==> {
            &&& word_at(toks, pos) == Some("inner"@) ==> (spec_parse_join_type(toks, end, pos) matches Ok((JoinType::Inner(..), q)) && q == pos + 2)
            &&& word_at(toks, pos) == Some("left"@) ==> (spec_parse_join_type(toks, end, pos) matches Ok((JoinType::Left(..), q)) && q == pos + 2)
            &&& word_at(toks, pos) == Some("right"@) ==> (spec_parse_join_type(toks, end, pos) matches Ok((JoinType::Right(..), q)) && q == pos + 2)
            &&& word_at(toks, pos) == Some("full"@) ==> (spec_parse_join_type(toks, end, pos) matches Ok((JoinType::Full(..), q)) && q == pos + 2)
        },
        spec_parse_join_type(toks, end, pos) is Ok ==> {
            let w = word_at(toks, pos);
            w == Some("inner"@) || w == Some("left"@) || w == Some("right"@) || w == Some("full"@)
        },
{
    assert(Keyword::Inner.spec_text() == "inner"@);
    assert(Keyword::Left.spec_text() == "left"@);
    assert(Keyword::Right.spec_text() == "right"@);
    assert(Keyword::Full.spec_text() == "full"@);
    assert(Keyword::Join.spec_text() == "join"@);
    reveal_strlit("inner");
    reveal_strlit("left");
    reveal_strlit("right");
    reveal_strlit("full");
    assert("inner"@[0] != "left"@[0] && "inner"@[0] != "right"@[0] && "inner"@[0] != "full"@[0]);
    assert("left"@[0] != "right"@[0] && "left"@[0] != "full"@[0] && "right"@[0] != "full"@[0]);
}

/// `asc` is read as the ascending direction and `desc` as the descending
/// one; any other token is refused.
pub proof fn lemma_order_by_dir_names(toks: Seq<TokenTree>, end: Span, pos: int)
    ensures
        word_at(toks, pos) == Some("asc"@) ==> (spec_parse_order_by_dir(toks, end, pos) matches Ok((OrderByDir::Asc(_), q)) && q == pos + 1),
        word_at(toks, pos) == Some("desc"@) ==> (spec_parse_order_by_dir(toks, end, pos) matches Ok((OrderByDir::Desc(_), q)) && q == pos + 1),
        spec_parse_order_by_dir(toks, end, pos) is Ok ==> word_at(toks, pos) == Some("asc"@) || word_at(toks, pos) == Some("desc"@),
{
    assert(Keyword::Asc.spec_text() == "asc"@);
    assert(Keyword::Desc.spec_text() == "desc"@);
    reveal_strlit("asc");
    reveal_strlit("desc");
    assert("asc"@[0] != "desc"@[0]);
}

/// `nulls first` puts null values first and `nulls last` puts them last.
pub proof fn lemma_order_by_nulls_names(toks: Seq<TokenTree>, end: Span, pos: int)
    ensures
        word_at(toks, pos) == Some("nulls"@) && word_at(toks, pos + 1) == Some("first"@)
            ==> (spec_parse_order_by_nulls(toks, end, pos) matches Ok((OrderByNulls::First(..), q)) && q == pos + 2),
        word_at(toks, pos) == Some("nulls"@) && word_at(toks, pos + 1) == Some("last"@)
            ==> (spec_parse_order_by_nulls(toks, end, pos) matches Ok((OrderByNulls::Last(..), q)) && q == pos + 2),
{
    assert(Keyword::Nulls.spec_text() == "nulls"@);
    assert(Keyword::First.spec_text() == "first"@);
    assert(Keyword::Last.spec_text() == "last"@);
    reveal_strlit("first");
    reveal_strlit("last");
    assert("first"@[0] != "last"@[0]);
}

} // verus!

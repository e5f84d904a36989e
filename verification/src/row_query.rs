//! A query in its compact form: a table, then braces with the columns to read
//! and, for each relation, braces of its own, and an optional name. It
//! generates, per node, a module of `use` items and a row struct, and the
//! SQL text of the query.

use vstd::prelude::*;
use crate::error::{Expected, ErrorKind, ParseError, err, expected, expected_at, error_at};
use crate::token::{
    Span, TokenTree, Ident, IdentModel, Delimiter, tt_span, span_at, span_at_exec, ident_at, punct_at, group_at,
    group_stream, peek_ident, peek_punct, peek_group,
};
use crate::expr::{agrees, moved, ident_model_at, ident_at_exec, advanced, internal};
use crate::common::{AsIdent, AliasModel, spec_parse_alias};
use crate::path::{Path, PathModel, spec_parse_path, path_tokens};
use crate::token::{TokenModel, tts_view, call_site, call_site_span, copy_stream};
use crate::emit::{quote_tokens, quote_into, args_view, ident_tok, literal_tok, decimal, decimal_text, push_all, call_site_ident};
use crate::repr::{args1, args2, args3, args4, single, code_with, joined, join_parts};
use crate::sql::{SlottedSqlBuilder, SqlPart, SqlPartModel, sql_text, sql_slot, sql_string_tokens, sql_string_expr};
use crate::query::node_path::{QueryNodePath, module_name};
use crate::outside::{pascal_case, to_pascal_case};
use crate::derive::suffixed;

verus! {

// ---------------------------------------------------------------------------
// Syntax trees and their models.
// ---------------------------------------------------------------------------

/// `table { fields } [as name]`.
#[derive(Debug)]
pub struct Query {
    pub table: Path,
    pub body: QueryNodeBody,
    pub as_name: Option<AsIdent>,
}

/// `name { fields }`: a relation and what to read of it.
#[derive(Debug)]
pub struct QueryNode {
    pub name: Ident,
    pub body: QueryNodeBody,
}

/// `{ field, field, ... }`.
#[derive(Debug)]
pub struct QueryNodeBody {
    pub brace: Span,
    pub fields: Vec<QueryField>,
}

/// A column, or a relation with a body of its own.
#[derive(Debug)]
pub enum QueryField {
    Column(Ident),
    Relation(QueryNode),
}

pub enum QueryFieldModel {
    Column(IdentModel),
    Relation { name: IdentModel, body: QueryNodeBodyModel },
}

pub struct QueryNodeBodyModel {
    pub brace: Span,
    pub fields: Seq<QueryFieldModel>,
}

pub struct QueryModel {
    pub table: PathModel,
    pub body: QueryNodeBodyModel,
    pub as_name: Option<AliasModel>,
}

pub open spec fn body_view(b: QueryNodeBody) -> QueryNodeBodyModel
    decreases b,
{
    QueryNodeBodyModel { brace: b.brace, fields: fields_view(b.fields@) }
}

pub open spec fn fields_view(s: Seq<QueryField>) -> Seq<QueryFieldModel>
    decreases s,
{
    if s.len() == 0 {
        Seq::empty()
    } else {
        fields_view(s.subrange(0, s.len() - 1)).push(field_view(s[s.len() - 1]))
    }
}

pub open spec fn field_view(f: QueryField) -> QueryFieldModel
    decreases f,
{
    match f {
        QueryField::Column(c) => QueryFieldModel::Column(c@),
        QueryField::Relation(n) => QueryFieldModel::Relation { name: n.name@, body: body_view(n.body) },
    }
}

impl View for QueryNodeBody {
    type V = QueryNodeBodyModel;

    open spec fn view(&self) -> QueryNodeBodyModel {
        body_view(*self)
    }
}

impl View for QueryField {
    type V = QueryFieldModel;

    open spec fn view(&self) -> QueryFieldModel {
        field_view(*self)
    }
}

impl View for Query {
    type V = QueryModel;

    open spec fn view(&self) -> QueryModel {
        QueryModel {
            table: self.table@,
            body: self.body@,
            as_name: match self.as_name {
                Some(a) => Some(a.alias@),
                None => None,
            },
        }
    }
}

pub proof fn lemma_fields_view(s: Seq<QueryField>)
    ensures
        fields_view(s).len() == s.len(),
        forall|i: int| 0 <= i < s.len() ==> #[trigger] fields_view(s)[i] == field_view(s[i]),
    decreases s.len(),
{
    if s.len() > 0 {
        lemma_fields_view(s.subrange(0, s.len() - 1));
    }
}

/// The name a field is read under.
pub open spec fn field_name(f: QueryFieldModel) -> IdentModel {
    match f {
        QueryFieldModel::Column(c) => c,
        QueryFieldModel::Relation { name, .. } => name,
    }
}

// ---------------------------------------------------------------------------
// Grammar.
// ---------------------------------------------------------------------------

/// A braced body at `pos`; its fields must fill the braces.
pub open spec fn spec_parse_body(toks: Seq<TokenTree>, end: Span, pos: int) -> Result<(QueryNodeBodyModel, int), ParseError>
    decreases toks, toks.len() - pos, 0nat,
{
    if pos < 0 || pos > toks.len() {
        internal(end)
    } else if !group_at(toks, pos, Delimiter::Brace) {
        expected(Expected::Braces, span_at(toks, pos, end))
    } else {
        let inner = group_stream(toks[pos]);
        let brace = tt_span(toks[pos]);
        proof {
            assert(decreases_to!(toks => toks[pos]));
        }
        match spec_parse_fields(inner, brace, 0) {
            Ok((fields, _)) => Ok((QueryNodeBodyModel { brace, fields }, pos + 1)),
            Err(e) => Err(e),
        }
    }
}

/// A field: a name followed by braces is a relation, a name alone a column.
pub open spec fn spec_parse_field(toks: Seq<TokenTree>, end: Span, pos: int) -> Result<(QueryFieldModel, int), ParseError>
    decreases toks, toks.len() - pos, 1nat,
{
    if pos < 0 || pos > toks.len() {
        internal(end)
    } else if !ident_at(toks, pos) {
        expected(Expected::Identifier, span_at(toks, pos, end))
    } else if group_at(toks, pos + 1, Delimiter::Brace) {
        match spec_parse_body(toks, end, pos + 1) {
            Ok((body, q)) => Ok((QueryFieldModel::Relation { name: ident_model_at(toks, pos), body }, q)),
            Err(e) => Err(e),
        }
    } else {
        Ok((QueryFieldModel::Column(ident_model_at(toks, pos)), pos + 1))
    }
}

/// Fields separated by commas, a trailing comma allowed, up to the end.
pub open spec fn spec_parse_fields(toks: Seq<TokenTree>, end: Span, pos: int) -> Result<(Seq<QueryFieldModel>, int), ParseError>
    decreases toks, toks.len() - pos, 2nat,
{
    if pos < 0 || pos > toks.len() {
        internal(end)
    } else if pos == toks.len() {
        Ok((Seq::empty(), pos))
    } else {
        match spec_parse_field(toks, end, pos) {
            Ok((f, q)) =>
                if !advanced(toks, pos, q) {
                    internal(end)
                } else if q == toks.len() {
                    Ok((seq![f], q))
                } else if punct_at(toks, q, ',') {
                    match spec_parse_fields(toks, end, q + 1) {
                        Ok((rest, r)) => Ok((seq![f] + rest, r)),
                        Err(e) => Err(e),
                    }
                } else {
                    expected(Expected::Punct(','), tt_span(toks[q]))
                },
            Err(e) => Err(e),
        }
    }
}

/// The table, the body, and, unless the input ends there, `as name`.
pub open spec fn spec_parse_query(toks: Seq<TokenTree>, end: Span, pos: int) -> Result<(QueryModel, int), ParseError> {
    match spec_parse_path(toks, end, pos) {
        Ok((table, p1)) => match spec_parse_body(toks, end, p1) {
            Ok((body, p2)) =>
                if p2 >= toks.len() {
                    Ok((QueryModel { table, body, as_name: None }, p2))
                } else {
                    match spec_parse_alias(toks, end, p2) {
                        Ok((a, p3)) => Ok((QueryModel { table, body, as_name: Some(a) }, p3)),
                        Err(e) => Err(e),
                    }
                },
            Err(e) => Err(e),
        },
        Err(e) => Err(e),
    }
}

/// The whole input is one query; a token after it is refused.
pub open spec fn spec_parse_query_input(toks: Seq<TokenTree>, end: Span) -> Result<QueryModel, ParseError> {
    match spec_parse_query(toks, end, 0) {
        Ok((q, p)) =>
            if 0 <= p < toks.len() {
                err(ErrorKind::UnexpectedToken, tt_span(toks[p]))
            } else {
                Ok(q)
            },
        Err(e) => Err(e),
    }
}

// ---------------------------------------------------------------------------
// The parsers.
// ---------------------------------------------------------------------------

impl QueryNodeBody {
    pub fn parse(toks: &Vec<TokenTree>, end: Span, pos: usize) -> (res: Result<(QueryNodeBody, usize), ParseError>)
        requires
            pos <= toks.len(),
        ensures
            agrees(res, spec_parse_body(toks@, end, pos as int)),
            moved(res, toks@, pos as int),
        decreases toks@, toks.len() - pos, 0nat,
    {
        if !peek_group(toks, pos, Delimiter::Brace) {
            return Err(expected_at(Expected::Braces, span_at_exec(toks, pos, end)));
        }
        match &toks[pos] {
            TokenTree::Group { stream, span, .. } => {
                proof {
                    assert(decreases_to!(toks@ => toks@[pos as int]));
                }
                let brace = *span;
                match parse_fields(stream, brace, 0) {
                    Ok((fields, _)) => Ok((QueryNodeBody { brace, fields }, pos + 1)),
                    Err(e) => Err(e),
                }
            },
            _ => {
                assert(false);
                Err(expected_at(Expected::Braces, end))
            },
        }
    }
}

impl QueryField {
    pub fn parse(toks: &Vec<TokenTree>, end: Span, pos: usize) -> (res: Result<(QueryField, usize), ParseError>)
        requires
            pos <= toks.len(),
        ensures
            agrees(res, spec_parse_field(toks@, end, pos as int)),
            moved(res, toks@, pos as int),
        decreases toks@, toks.len() - pos, 1nat,
    {
        if !peek_ident(toks, pos) {
            return Err(expected_at(Expected::Identifier, span_at_exec(toks, pos, end)));
        }
        let name = ident_at_exec(toks, pos);
        if peek_group(toks, pos + 1, Delimiter::Brace) {
            match QueryNodeBody::parse(toks, end, pos + 1) {
                Ok((body, q)) => Ok((QueryField::Relation(QueryNode { name, body }), q)),
                Err(e) => Err(e),
            }
        } else {
            Ok((QueryField::Column(name), pos + 1))
        }
    }
}

impl QueryNode {
    /// `name { fields }`.
    pub fn parse(toks: &Vec<TokenTree>, end: Span, pos: usize) -> (res: Result<(QueryNode, usize), ParseError>)
        requires
            pos <= toks.len(),
        ensures
            match res {
                Ok((n, q)) => ident_at(toks@, pos as int) && n.name@ == ident_model_at(toks@, pos as int)
                    && spec_parse_body(toks@, end, pos + 1) == Ok::<(QueryNodeBodyModel, int), ParseError>((n.body@, q as int)),
                Err(e) => if !ident_at(toks@, pos as int) {
                    e == ParseError { kind: ErrorKind::Expected(Expected::Identifier), span: span_at(toks@, pos as int, end) }
                } else {
                    spec_parse_body(toks@, end, pos + 1) == Err::<(QueryNodeBodyModel, int), ParseError>(e)
                },
            },
    {
        if !peek_ident(toks, pos) {
            return Err(expected_at(Expected::Identifier, span_at_exec(toks, pos, end)));
        }
        let name = ident_at_exec(toks, pos);
        match QueryNodeBody::parse(toks, end, pos + 1) {
            Ok((body, q)) => Ok((QueryNode { name, body }, q)),
            Err(e) => Err(e),
        }
    }
}

fn parse_fields(toks: &Vec<TokenTree>, end: Span, pos: usize) -> (res: Result<(Vec<QueryField>, usize), ParseError>)
    requires
        pos <= toks.len(),
    ensures
        match res {
            Ok((v, q)) => spec_parse_fields(toks@, end, pos as int)
                == Ok::<(Seq<QueryFieldModel>, int), ParseError>((fields_view(v@), q as int)) && q == toks.len(),
            Err(e) => spec_parse_fields(toks@, end, pos as int) == Err::<(Seq<QueryFieldModel>, int), ParseError>(e),
        },
    decreases toks@, toks.len() - pos, 2nat,
{
    if pos == toks.len() {
        let v: Vec<QueryField> = Vec::new();
        proof {
            lemma_fields_view(v@);
            assert(fields_view(v@) =~= Seq::<QueryFieldModel>::empty());
        }
        return Ok((v, pos));
    }
    let (f, q) = match QueryField::parse(toks, end, pos) {
        Ok(x) => x,
        Err(e) => return Err(e),
    };
    if q == toks.len() {
        let mut v: Vec<QueryField> = Vec::new();
        let ghost m = f@;
        v.push(f);
        proof {
            lemma_fields_view(v@);
            assert(fields_view(v@) =~= seq![m]);
        }
        return Ok((v, q));
    }
    if !peek_punct(toks, q, ',') {
        return Err(expected_at(Expected::Punct(','), toks[q].span()));
    }
    let (mut rest, r) = match parse_fields(toks, end, q + 1) {
        Ok(x) => x,
        Err(e) => return Err(e),
    };
    let ghost m = f@;
    let ghost old_rest = rest@;
    rest.insert(0, f);
    proof {
        lemma_fields_view(rest@);
        lemma_fields_view(old_rest);
        assert(fields_view(rest@) =~= seq![m] + fields_view(old_rest));
    }
    Ok((rest, r))
}

impl Query {
    pub fn parse(toks: &Vec<TokenTree>, end: Span, pos: usize) -> (res: Result<(Query, usize), ParseError>)
        requires
            pos <= toks.len(),
        ensures
            agrees(res, spec_parse_query(toks@, end, pos as int)),
            res matches Ok((_, q)) ==> q <= toks.len(),
    {
        let (table, p1) = match Path::parse(toks, end, pos) {
            Ok(x) => x,
            Err(e) => return Err(e),
        };
        let (body, p2) = match QueryNodeBody::parse(toks, end, p1) {
            Ok(x) => x,
            Err(e) => return Err(e),
        };
        if p2 >= toks.len() {
            return Ok((Query { table, body, as_name: None }, p2));
        }
        match AsIdent::parse(toks, end, p2) {
            Ok((a, p3)) => {
                proof {
                    assert(p3 == p2 + 2);
                }
                Ok((Query { table, body, as_name: Some(a) }, p3))
            },
            Err(e) => Err(e),
        }
    }

    /// The whole input as one query.
    pub fn parse_input(toks: &Vec<TokenTree>, end: Span) -> (res: Result<Query, ParseError>)
        ensures
            match res {
                Ok(q) => spec_parse_query_input(toks@, end) == Ok::<QueryModel, ParseError>(q@),
                Err(e) => spec_parse_query_input(toks@, end) == Err::<QueryModel, ParseError>(e),
            },
    {
        match Query::parse(toks, end, 0) {
            Ok((q, p)) => {
                if p < toks.len() {
                    Err(error_at(ErrorKind::UnexpectedToken, toks[p].span()))
                } else {
                    Ok(q)
                }
            },
            Err(e) => Err(e),
        }
    }
}

// ---------------------------------------------------------------------------
// What a query generates.
// ---------------------------------------------------------------------------

/// `::relations::name::target_table` for each relation on the way to a node.
pub open spec fn path_suffix(path: Seq<IdentModel>) -> Seq<TokenModel>
    decreases path.len(),
{
    if path.len() == 0 {
        Seq::empty()
    } else {
        path_suffix(path.drop_last()) + quote_tokens("::relations::$::target_table"@, seq![seq![TokenModel::Ident(path.last())]])
    }
}

/// The module of a node: `row`, then `_` and each relation name.
pub open spec fn row_module_name(path: Seq<IdentModel>) -> Seq<char> {
    module_name("row"@, path)
}

/// The row struct of a node: its module name in Pascal case.
pub open spec fn row_struct_name(path: Seq<IdentModel>) -> Seq<char> {
    pascal_case(module_name("row"@, path))
}

pub open spec fn name_tok(name: Seq<char>) -> Seq<TokenModel> {
    seq![ident_tok(name)]
}

/// `pub name: Type,`: a column's type from the table's column module, a
/// relation's from its `Wrapper` around the relation node's row struct.
pub open spec fn field_struct_tokens(f: QueryFieldModel, t: Seq<TokenModel>, path: Seq<IdentModel>) -> Seq<TokenModel> {
    let s = path_suffix(path);
    match f {
        QueryFieldModel::Column(c) => quote_tokens(
            "pub $: super::$ $::columns::$::Type,"@,
            seq![seq![TokenModel::Ident(c)], t, s, seq![TokenModel::Ident(c)]],
        ),
        QueryFieldModel::Relation { name, .. } => quote_tokens(
            "pub $: super::$ $::relations::$::Wrapper<$>,"@,
            seq![seq![TokenModel::Ident(name)], t, s, seq![TokenModel::Ident(name)], name_tok(row_struct_name(path.push(name)))],
        ),
    }
}

/// The `use` item that brings a field's name into the node's module.
pub open spec fn field_use_tokens(f: QueryFieldModel, t: Seq<TokenModel>, path: Seq<IdentModel>) -> Seq<TokenModel> {
    let s = path_suffix(path);
    match f {
        QueryFieldModel::Column(c) => quote_tokens(
            "use super::super::$ $::columns_and_relations::$;"@,
            seq![t, s, seq![TokenModel::Ident(c)]],
        ),
        QueryFieldModel::Relation { name, .. } => quote_tokens(
            "use super::super::$ $::relations::$;"@,
            seq![t, s, seq![TokenModel::Ident(name)]],
        ),
    }
}

pub open spec fn fields_struct_tokens(fields: Seq<QueryFieldModel>, t: Seq<TokenModel>, path: Seq<IdentModel>) -> Seq<TokenModel>
    decreases fields.len(),
{
    if fields.len() == 0 {
        Seq::empty()
    } else {
        fields_struct_tokens(fields.drop_last(), t, path) + field_struct_tokens(fields.last(), t, path)
    }
}

pub open spec fn fields_use_tokens(fields: Seq<QueryFieldModel>, t: Seq<TokenModel>, path: Seq<IdentModel>) -> Seq<TokenModel>
    decreases fields.len(),
{
    if fields.len() == 0 {
        Seq::empty()
    } else {
        fields_use_tokens(fields.drop_last(), t, path) + field_use_tokens(fields.last(), t, path)
    }
}

/// `name: row.get(k)` for the `k`-th field.
pub open spec fn row_gets(fields: Seq<QueryFieldModel>) -> Seq<Seq<TokenModel>>
    decreases fields.len(),
{
    if fields.len() == 0 {
        Seq::empty()
    } else {
        row_gets(fields.drop_last()).push(quote_tokens(
            "$: row.get($)"@,
            seq![seq![TokenModel::Ident(field_name(fields.last()))], seq![literal_tok(decimal((fields.len() - 1) as nat) + "usize"@)]],
        ))
    }
}

/// The root node's row struct reads itself from a `postgres` row; the others
/// have no such impl.
pub open spec fn root_impl(fields: Seq<QueryFieldModel>, path: Seq<IdentModel>) -> Seq<TokenModel> {
    if path.len() == 0 {
        quote_tokens(
            "impl From<::postgres::Row> for $ { fn from(row: ::postgres::Row) -> Self { Self { $ } } }"@,
            seq![name_tok(row_struct_name(path)), joined(row_gets(fields))],
        )
    } else {
        Seq::empty()
    }
}

/// A node's module and row struct, then those of each relation's node.
pub open spec fn body_tokens(body: QueryNodeBodyModel, t: Seq<TokenModel>, path: Seq<IdentModel>) -> Seq<TokenModel>
    decreases body, body.fields.len() + 1,
{
    quote_tokens(
        "mod $ { $ } #[derive(Default, Debug)] pub struct $ { $ } $"@,
        seq![
            name_tok(row_module_name(path)),
            fields_use_tokens(body.fields, t, path),
            name_tok(row_struct_name(path)),
            fields_struct_tokens(body.fields, t, path),
            root_impl(body.fields, path),
        ],
    ) + body_children_tokens(body, t, path, 0)
}

pub open spec fn body_children_tokens(body: QueryNodeBodyModel, t: Seq<TokenModel>, path: Seq<IdentModel>, i: int) -> Seq<TokenModel>
    decreases body, body.fields.len() - i,
{
    if i < 0 || i >= body.fields.len() {
        Seq::empty()
    } else {
        let here = match body.fields[i] {
            QueryFieldModel::Relation { name, body: child } => {
                proof {
                    assert(decreases_to!(body => body.fields[i]));
                }
                body_tokens(child, t, path.push(name))
            },
            _ => Seq::empty(),
        };
        here + body_children_tokens(body, t, path, i + 1)
    }
}

/// The SQL of the `k`-th field: a column's name as a slot, a relation
/// nothing; then `, ` unless it is the last field.
pub open spec fn field_sql(fields: Seq<QueryFieldModel>, k: int, t: Seq<TokenModel>, s: Seq<TokenModel>) -> Seq<SqlPartModel> {
    (match fields[k] {
        QueryFieldModel::Column(c) => sql_slot(quote_tokens("super::$ $::columns::$::NAME"@, seq![t, s, seq![TokenModel::Ident(c)]])),
        _ => Seq::empty(),
    }) + if k < fields.len() - 1 { sql_text(", "@) } else { Seq::empty() }
}

pub open spec fn fields_sql(fields: Seq<QueryFieldModel>, n: nat, t: Seq<TokenModel>, s: Seq<TokenModel>) -> Seq<SqlPartModel>
    decreases n,
{
    if n == 0 {
        Seq::empty()
    } else {
        fields_sql(fields, (n - 1) as nat, t, s) + field_sql(fields, n - 1, t, s)
    }
}

/// `select ` and a node's fields, then the same for each relation's node.
pub open spec fn body_sql(body: QueryNodeBodyModel, t: Seq<TokenModel>, path: Seq<IdentModel>) -> Seq<SqlPartModel>
    decreases body, body.fields.len() + 1,
{
    sql_text("select "@) + fields_sql(body.fields, body.fields.len(), t, path_suffix(path)) + body_children_sql(body, t, path, 0)
}

pub open spec fn body_children_sql(body: QueryNodeBodyModel, t: Seq<TokenModel>, path: Seq<IdentModel>, i: int) -> Seq<SqlPartModel>
    decreases body, body.fields.len() - i,
{
    if i < 0 || i >= body.fields.len() {
        Seq::empty()
    } else {
        let here = match body.fields[i] {
            QueryFieldModel::Relation { name, body: child } => {
                proof {
                    assert(decreases_to!(body => body.fields[i]));
                }
                body_sql(child, t, path.push(name))
            },
            _ => Seq::empty(),
        };
        here + body_children_sql(body, t, path, i + 1)
    }
}

/// The query's module, named by `as name` or else `internal`: the nodes'
/// modules and row structs, and a `Query` whose `sql_string` builds the SQL.
pub open spec fn query_tokens(q: QueryModel) -> Seq<TokenModel> {
    let t = path_tokens(q.table);
    let module = match q.as_name {
        Some(a) => seq![TokenModel::Ident(a.ident)],
        None => name_tok("internal"@),
    };
    quote_tokens(
        "mod $ { $ pub struct Query { } impl Query { pub fn sql_string(&self) -> String { $ } } }"@,
        seq![module, body_tokens(q.body, t, Seq::empty()), sql_string_tokens(body_sql(q.body, t, Seq::empty()))],
    )
}

fn suffix_tokens(path: &QueryNodePath) -> (toks: Vec<TokenTree>)
    ensures
        tts_view(toks@) == path_suffix(path@),
{
    let mut toks: Vec<TokenTree> = Vec::new();
    assert(tts_view(toks@) =~= Seq::<TokenModel>::empty());
    let mut i: usize = 0;
    while i < path.segments.len()
        invariant
            i <= path.segments.len(),
            tts_view(toks@) == path_suffix(path@.subrange(0, i as int)),
        decreases path.segments.len() - i,
    {
        push_all(&mut toks, code_with("::relations::$::target_table", args1(single(TokenTree::Ident(path.segments[i].duplicate())))));
        proof {
            let sub = path@.subrange(0, i + 1);
            assert(sub.drop_last() =~= path@.subrange(0, i as int));
            assert(sub.last() == path.segments@[i as int]@);
        }
        i += 1;
    }
    assert(path@.subrange(0, i as int) =~= path@);
    toks
}

fn row_struct_ident(path: &QueryNodePath) -> (ident: Ident)
    ensures
        ident@ == (IdentModel { name: row_struct_name(path@), span: call_site() }),
{
    let module = path.to_module_name("row");
    Ident::new(to_pascal_case(module.name.as_str()), call_site_span())
}

/// The tokens of one template with one run and one identifier spliced in.
fn field_item(template: &str, t: &Vec<TokenTree>, s: &Vec<TokenTree>, name: &Ident) -> (toks: Vec<TokenTree>)
    ensures
        tts_view(toks@) == quote_tokens(template@, seq![tts_view(t@), tts_view(s@), seq![TokenModel::Ident(name@)]]),
{
    code_with(template, args3(copy_stream(t), copy_stream(s), single(TokenTree::Ident(name.duplicate()))))
}

/// Appends a node's tokens and SQL, then those of the nodes below it.
fn body_to_tokens(body: &QueryNodeBody, out: &mut Vec<TokenTree>, builder: &mut SlottedSqlBuilder, t: &Vec<TokenTree>, path: &QueryNodePath)
    ensures
        tts_view(final(out)@) == tts_view(old(out)@) + body_tokens(body@, tts_view(t@), path@),
        final(builder)@ == old(builder)@ + body_sql(body@, tts_view(t@), path@),
    decreases body, body@.fields.len() + 1,
{
    let ghost start = tts_view(out@);
    let ghost sql_start = builder@;
    let ghost tm = tts_view(t@);
    let ghost fs = body@.fields;
    proof {
        lemma_fields_view(body.fields@);
    }
    let s = suffix_tokens(path);
    let mut uses: Vec<TokenTree> = Vec::new();
    assert(tts_view(uses@) =~= Seq::<TokenModel>::empty());
    let mut fields: Vec<TokenTree> = Vec::new();
    assert(tts_view(fields@) =~= Seq::<TokenModel>::empty());
    let mut gets: Vec<Vec<TokenTree>> = Vec::new();
    assert(args_view(gets@) =~= Seq::<Seq<TokenModel>>::empty());
    builder.append_str("select ");
    let ghost head = builder@;
    proof {
        assert(fields_sql(fs, 0, tm, path_suffix(path@)) =~= Seq::<SqlPartModel>::empty());
    }
    let n = body.fields.len();
    let mut i: usize = 0;
    while i < n
        invariant
            i <= n,
            n == body.fields.len(),
            fs == body@.fields,
            fs.len() == n,
            forall|k: int| 0 <= k < n ==> #[trigger] fs[k] == field_view(body.fields@[k]),
            tm == tts_view(t@),
            tts_view(s@) == path_suffix(path@),
            tts_view(uses@) == fields_use_tokens(fs.subrange(0, i as int), tm, path@),
            tts_view(fields@) == fields_struct_tokens(fs.subrange(0, i as int), tm, path@),
            args_view(gets@) == row_gets(fs.subrange(0, i as int)),
            builder@ == head + fields_sql(fs, i as nat, tm, path_suffix(path@)),
        decreases n - i,
    {
        let ghost f = fs[i as int];
        let ghost before_sql = builder@;
        let name = match &body.fields[i] {
            QueryField::Column(c) => {
                push_all(&mut uses, field_item("use super::super::$ $::columns_and_relations::$;", t, &s, c));
                push_all(&mut fields, code_with(
                    "pub $: super::$ $::columns::$::Type,",
                    args4(single(TokenTree::Ident(c.duplicate())), copy_stream(t), copy_stream(&s), single(TokenTree::Ident(c.duplicate()))),
                ));
                builder.append_slot(field_item("super::$ $::columns::$::NAME", t, &s, c));
                c
            },
            QueryField::Relation(node) => {
                push_all(&mut uses, field_item("use super::super::$ $::relations::$;", t, &s, &node.name));
                let inner = row_struct_ident(&path.duplicate().appended(node.name.duplicate()));
                let mut args: Vec<Vec<TokenTree>> = Vec::new();
                let ghost parts = seq![
                    seq![TokenModel::Ident(node.name@)],
                    tm,
                    tts_view(s@),
                    seq![TokenModel::Ident(node.name@)],
                    seq![TokenModel::Ident(inner@)],
                ];
                args.push(single(TokenTree::Ident(node.name.duplicate())));
                args.push(copy_stream(t));
                args.push(copy_stream(&s));
                args.push(single(TokenTree::Ident(node.name.duplicate())));
                args.push(single(TokenTree::Ident(inner)));
                assert(args_view(args@) =~= parts);
                push_all(&mut fields, code_with("pub $: super::$ $::relations::$::Wrapper<$>,", args));
                &node.name
            },
        };
        let g = code_with("$: row.get($)", args2(single(TokenTree::Ident(name.duplicate())), single(suffixed(decimal_text(i as u64), "usize"))));
        let ghost gm = tts_view(g@);
        gets.push(g);
        if i + 1 < n {
            builder.append_str(", ");
        }
        proof {
            let sub = fs.subrange(0, i + 1);
            assert(sub.drop_last() =~= fs.subrange(0, i as int));
            assert(sub.last() == f);
            assert(field_name(f) == name@);
            assert(tts_view(uses@) =~= fields_use_tokens(sub, tm, path@));
            assert(tts_view(fields@) =~= fields_struct_tokens(sub, tm, path@));
            assert(args_view(gets@) =~= row_gets(sub));
            assert(builder@ =~= before_sql + field_sql(fs, i as int, tm, path_suffix(path@)));
            assert(fields_sql(fs, (i + 1) as nat, tm, path_suffix(path@)) == fields_sql(fs, i as nat, tm, path_suffix(path@))
                + field_sql(fs, i as int, tm, path_suffix(path@)));
        }
        i += 1;
    }
    assert(fs.subrange(0, i as int) =~= fs);
    let struct_name = row_struct_ident(path);
    let root = if path.segments.len() == 0 {
        code_with(
            "impl From<::postgres::Row> for $ { fn from(row: ::postgres::Row) -> Self { Self { $ } } }",
            args2(single(TokenTree::Ident(struct_name.duplicate())), join_parts(gets)),
        )
    } else {
        let v: Vec<TokenTree> = Vec::new();
        assert(tts_view(v@) =~= Seq::<TokenModel>::empty());
        v
    };
    assert(tts_view(root@) == root_impl(fs, path@));
    let mut args: Vec<Vec<TokenTree>> = Vec::new();
    let ghost parts = seq![
        name_tok(row_module_name(path@)),
        tts_view(uses@),
        name_tok(row_struct_name(path@)),
        tts_view(fields@),
        tts_view(root@),
    ];
    args.push(single(TokenTree::Ident(path.to_module_name("row"))));
    args.push(uses);
    args.push(single(TokenTree::Ident(struct_name)));
    args.push(fields);
    args.push(root);
    assert(args_view(args@) =~= parts);
    quote_into(out, "mod $ { $ } #[derive(Default, Debug)] pub struct $ { $ } $", &args);
    let ghost mid_sql = builder@;
    assert(mid_sql =~= sql_start + sql_text("select "@) + fields_sql(fs, n as nat, tm, path_suffix(path@)));
    children_to_tokens(body, out, builder, t, path, 0);
    assert(tts_view(out@) =~= start + body_tokens(body@, tm, path@));
    assert(builder@ =~= sql_start + body_sql(body@, tm, path@));
}

fn children_to_tokens(body: &QueryNodeBody, out: &mut Vec<TokenTree>, builder: &mut SlottedSqlBuilder, t: &Vec<TokenTree>, path: &QueryNodePath, i: usize)
    requires
        i <= body.fields.len(),
    ensures
        tts_view(final(out)@) == tts_view(old(out)@) + body_children_tokens(body@, tts_view(t@), path@, i as int),
        final(builder)@ == old(builder)@ + body_children_sql(body@, tts_view(t@), path@, i as int),
    decreases body, body@.fields.len() - i,
{
    proof {
        lemma_fields_view(body.fields@);
    }
    let ghost start = tts_view(out@);
    let ghost sql_start = builder@;
    if i >= body.fields.len() {
        assert(tts_view(out@) =~= start + body_children_tokens(body@, tts_view(t@), path@, i as int));
        assert(builder@ =~= sql_start + body_children_sql(body@, tts_view(t@), path@, i as int));
        return;
    }
    assert(body@.fields[i as int] == field_view(body.fields@[i as int]));
    match &body.fields[i] {
        QueryField::Relation(node) => {
            proof {
                assert(decreases_to!(*body => body.fields));
                assert(decreases_to!(body.fields => body.fields@[i as int]));
            }
            let child_path = path.duplicate().appended(node.name.duplicate());
            body_to_tokens(&node.body, out, builder, t, &child_path);
        },
        QueryField::Column(_) => {},
    }
    children_to_tokens(body, out, builder, t, path, i + 1);
    assert(tts_view(out@) =~= start + body_children_tokens(body@, tts_view(t@), path@, i as int));
    assert(builder@ =~= sql_start + body_children_sql(body@, tts_view(t@), path@, i as int));
}

impl Query {
    /// Appends the query's module.
    pub fn to_tokens(&self, out: &mut Vec<TokenTree>)
        ensures
            tts_view(final(out)@) == tts_view(old(out)@) + query_tokens(self@),
    {
        let mut t: Vec<TokenTree> = Vec::new();
        assert(tts_view(t@) =~= Seq::<TokenModel>::empty());
        self.table.to_tokens(&mut t);
        assert(tts_view(t@) =~= path_tokens(self.table@));
        let mut nodes: Vec<TokenTree> = Vec::new();
        assert(tts_view(nodes@) =~= Seq::<TokenModel>::empty());
        let mut builder = SlottedSqlBuilder::new();
        let root = QueryNodePath::new();
        body_to_tokens(&self.body, &mut nodes, &mut builder, &t, &root);
        assert(tts_view(nodes@) =~= body_tokens(self.body@, tts_view(t@), Seq::empty()));
        let ghost sql = builder@;
        let parts = builder.build();
        let sql_tokens = sql_string_expr(&parts);
        let module = match &self.as_name {
            Some(a) => TokenTree::Ident(a.ident().duplicate()),
            None => {
                proof {
                    reveal_strlit("internal");
                }
                TokenTree::Ident(call_site_ident("internal"))
            },
        };
        quote_into(
            out,
            "mod $ { $ pub struct Query { } impl Query { pub fn sql_string(&self) -> String { $ } } }",
            &args3(single(module), nodes, sql_tokens),
        );
    }
}

} // verus!

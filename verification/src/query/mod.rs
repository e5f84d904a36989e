//! The `query!` macro: a tree of nodes, each naming the columns and the
//! relations of one table to fetch.

pub mod node_path;
pub mod bind_params;
pub mod node;
pub mod clauses;
pub mod star;

use vstd::prelude::*;
use crate::error::{Expected, ErrorKind, ParseError, err, expected, expected_at, error_at};
use crate::token::{
    Span, TokenTree, Ident, IdentModel, Delimiter, tt_span, span_at, span_at_exec, ident_at, punct_at,
    group_at, group_stream, keyword_at, str_eq, peek_ident, peek_punct, peek_group,
};
use crate::error::Keyword;
use crate::expr::{agrees, moved, ident_model_at, ident_at_exec, advanced, internal};
use crate::common::{
    Attribute, AttributeModel, Alias, AliasModel, ColonTypeModel, TypeOverride, attrs_view,
    spec_parse_outer_attrs, spec_parse_inner_attrs, spec_parse_alias, spec_parse_colon_type, optional, opt_view,
};
use crate::path::{Path, PathModel, spec_parse_path};
use crate::attribute::{CustomMeta, CustomMetaModel, MetaLocation, meta_of, lemma_meta_of};

verus! {

// ---------------------------------------------------------------------------
// Syntax trees and their models.
// ---------------------------------------------------------------------------

/// A field of a query node: a column, or a relation with a node of its own.
#[derive(Debug)]
pub enum QueryField {
    Column { attrs: Vec<Attribute>, name: Ident, alias: Option<Alias>, type_override: Option<TypeOverride> },
    Relation { attrs: Vec<Attribute>, name: Ident, node: QueryNode, alias: Option<Alias> },
}

/// `{ *, field, field, ... }`: an optional star (all columns of the table)
/// and the fields.
#[derive(Debug)]
pub struct QueryNode {
    pub brace: Span,
    pub star: Option<Span>,
    pub fields: Vec<QueryField>,
}

pub enum QueryFieldModel {
    Column {
        attrs: Seq<AttributeModel>,
        name: IdentModel,
        alias: Option<AliasModel>,
        type_override: Option<ColonTypeModel>,
    },
    Relation { attrs: Seq<AttributeModel>, name: IdentModel, node: QueryNodeModel, alias: Option<AliasModel> },
}

pub struct QueryNodeModel {
    pub brace: Span,
    pub star: Option<Span>,
    pub fields: Seq<QueryFieldModel>,
}

pub open spec fn query_node_view(n: QueryNode) -> QueryNodeModel
    decreases n,
{
    QueryNodeModel { brace: n.brace, star: n.star, fields: query_fields_view(n.fields@) }
}

pub open spec fn query_fields_view(s: Seq<QueryField>) -> Seq<QueryFieldModel>
    decreases s,
{
    if s.len() == 0 {
        Seq::empty()
    } else {
        query_fields_view(s.subrange(0, s.len() - 1)).push(query_field_view(s[s.len() - 1]))
    }
}

pub open spec fn query_field_view(f: QueryField) -> QueryFieldModel
    decreases f,
{
    match f {
        QueryField::Column { attrs, name, alias, type_override } => QueryFieldModel::Column {
            attrs: attrs_view(attrs@),
            name: name@,
            alias: opt_view(alias),
            type_override: opt_view(type_override),
        },
        QueryField::Relation { attrs, name, node, alias } => QueryFieldModel::Relation {
            attrs: attrs_view(attrs@),
            name: name@,
            node: query_node_view(node),
            alias: opt_view(alias),
        },
    }
}

impl View for QueryNode {
    type V = QueryNodeModel;

    open spec fn view(&self) -> QueryNodeModel {
        query_node_view(*self)
    }
}

impl View for QueryField {
    type V = QueryFieldModel;

    open spec fn view(&self) -> QueryFieldModel {
        query_field_view(*self)
    }
}

pub proof fn lemma_query_fields_view(s: Seq<QueryField>)
    ensures
        query_fields_view(s).len() == s.len(),
        forall|i: int| 0 <= i < s.len() ==> #[trigger] query_fields_view(s)[i] == query_field_view(s[i]),
    decreases s.len(),
{
    if s.len() > 0 {
        lemma_query_fields_view(s.subrange(0, s.len() - 1));
    }
}

/// The name of a field.
pub open spec fn field_name(f: QueryFieldModel) -> IdentModel {
    match f {
        QueryFieldModel::Column { name, .. } => name,
        QueryFieldModel::Relation { name, .. } => name,
    }
}

/// The name under which a field is fetched: its alias, else its name.
pub open spec fn field_alias_or_name(f: QueryFieldModel) -> IdentModel {
    match f {
        QueryFieldModel::Column { name, alias, .. } => match alias {
            Some(a) => a.ident,
            None => name,
        },
        QueryFieldModel::Relation { name, alias, .. } => match alias {
            Some(a) => a.ident,
            None => name,
        },
    }
}

// ---------------------------------------------------------------------------
// Grammar.
// ---------------------------------------------------------------------------

/// The first field, from `i` on, that is a column after a `*` or repeats the
/// name of an earlier field; its error.
pub open spec fn field_error(star: bool, fields: Seq<QueryFieldModel>, i: int) -> Option<ParseError>
    decreases fields.len() - i,
{
    if i < 0 || i >= fields.len() {
        None
    } else if star && fields[i] is Column {
        Some(ParseError { kind: ErrorKind::ColumnAfterStar, span: field_name(fields[i]).span })
    } else if exists|j: int| 0 <= j < i && #[trigger] field_name(fields[j]).name == field_name(fields[i]).name {
        Some(ParseError { kind: ErrorKind::DuplicateField, span: field_name(fields[i]).span })
    } else {
        field_error(star, fields, i + 1)
    }
}

/// A braced query node at `pos`.
pub open spec fn spec_parse_query_node(toks: Seq<TokenTree>, end: Span, pos: int) -> Result<(QueryNodeModel, int), ParseError>
    decreases toks, toks.len() - pos, 0nat,
{
    if pos < 0 || pos > toks.len() {
        internal(end)
    } else if !group_at(toks, pos, Delimiter::Brace) {
        expected(Expected::Braces, span_at(toks, pos, end))
    } else {
        let inner = group_stream(toks[pos]);
        let brace = tt_span(toks[pos]);
        proof {
            assert(decreases_to!(toks => toks[pos]));
        }
        let star = if punct_at(inner, 0, '*') { Some(tt_span(inner[0])) } else { None };
        if star is Some && 1 < inner.len() && !punct_at(inner, 1, ',') {
            expected(Expected::Punct(','), tt_span(inner[1]))
        } else {
            let first = if star is None { 0 } else if 1 < inner.len() { 2int } else { 1int };
            match spec_parse_query_fields(inner, brace, first) {
                Ok((fields, _)) => match field_error(star is Some, fields, 0) {
                    Some(e) => Err(e),
                    None => Ok((QueryNodeModel { brace, star, fields }, pos + 1)),
                },
                Err(e) => Err(e),
            }
        }
    }
}

/// A field: attributes, a name, then either a node and an alias (a relation)
/// or an alias and a type override (a column).
pub open spec fn spec_parse_query_field(toks: Seq<TokenTree>, end: Span, pos: int) -> Result<(QueryFieldModel, int), ParseError>
    decreases toks, toks.len() - pos, 1nat,
{
    if pos < 0 || pos > toks.len() {
        internal(end)
    } else {
        match spec_parse_outer_attrs(toks, end, pos) {
            Ok((attrs, p1)) =>
                if !(pos <= p1 <= toks.len()) {
                    internal(end)
                } else if !ident_at(toks, p1) {
                    expected(Expected::Identifier, span_at(toks, p1, end))
                } else {
                    let name = ident_model_at(toks, p1);
                    if group_at(toks, p1 + 1, Delimiter::Brace) {
                        match spec_parse_query_node(toks, end, p1 + 1) {
                            Ok((node, p2)) => match optional(keyword_at(toks, p2, Keyword::As.spec_text()), spec_parse_alias(toks, end, p2), p2) {
                                Ok((alias, p3)) => Ok((QueryFieldModel::Relation { attrs, name, node, alias }, p3)),
                                Err(e) => Err(e),
                            },
                            Err(e) => Err(e),
                        }
                    } else {
                        match optional(keyword_at(toks, p1 + 1, Keyword::As.spec_text()), spec_parse_alias(toks, end, p1 + 1), p1 + 1) {
                            Ok((alias, p2)) => match optional(punct_at(toks, p2, ':'), spec_parse_colon_type(toks, end, p2), p2) {
                                Ok((type_override, p3)) => Ok((QueryFieldModel::Column { attrs, name, alias, type_override }, p3)),
                                Err(e) => Err(e),
                            },
                            Err(e) => Err(e),
                        }
                    }
                },
            Err(e) => Err(e),
        }
    }
}

/// Fields separated by commas, a trailing comma allowed, up to the end of the
/// group.
pub open spec fn spec_parse_query_fields(toks: Seq<TokenTree>, end: Span, pos: int) -> Result<(Seq<QueryFieldModel>, int), ParseError>
    decreases toks, toks.len() - pos, 2nat,
{
    if pos < 0 || pos > toks.len() {
        internal(end)
    } else if pos == toks.len() {
        Ok((Seq::empty(), pos))
    } else {
        match spec_parse_query_field(toks, end, pos) {
            Ok((f, q)) =>
                if !advanced(toks, pos, q) {
                    internal(end)
                } else if q == toks.len() {
                    Ok((seq![f], q))
                } else if punct_at(toks, q, ',') {
                    match spec_parse_query_fields(toks, end, q + 1) {
                        Ok((rest, r)) => Ok((seq![f] + rest, r)),
                        Err(e) => Err(e),
                    }
                } else {
                    expected(Expected::Punct(','), tt_span(toks[q]))
                },
            Err(e) => Err(e),
        }
    }
}

// ---------------------------------------------------------------------------
// The parsers.
// ---------------------------------------------------------------------------

impl QueryField {
    /// The field's name.
    pub fn name(&self) -> (name: &Ident)
        ensures
            name@ == field_name(self@),
    {
        match self {
            QueryField::Column { name, .. } => name,
            QueryField::Relation { name, .. } => name,
        }
    }

    /// The field's alias, if it has one.
    pub fn alias(&self) -> (alias: Option<&Alias>)
        ensures
            match self@ {
                QueryFieldModel::Column { alias: a, .. } => opt_view(alias) == a,
                QueryFieldModel::Relation { alias: a, .. } => opt_view(alias) == a,
            },
    {
        match self {
            QueryField::Column { alias, .. } => alias.as_ref(),
            QueryField::Relation { alias, .. } => alias.as_ref(),
        }
    }

    /// The span of the field's name.
    pub fn span(&self) -> (span: Span)
        ensures
            span == field_name(self@).span,
    {
        self.name().span
    }

    pub fn is_column(&self) -> (column: bool)
        ensures
            column == (self@ is Column),
    {
        match self {
            QueryField::Column { .. } => true,
            QueryField::Relation { .. } => false,
        }
    }

    pub fn parse(toks: &Vec<TokenTree>, end: Span, pos: usize) -> (res: Result<(QueryField, usize), ParseError>)
        requires
            pos <= toks.len(),
        ensures
            agrees(res, spec_parse_query_field(toks@, end, pos as int)),
            moved(res, toks@, pos as int),
        decreases toks@, toks.len() - pos, 1nat,
    {
        let (attrs, p1) = match Attribute::parse_outer(toks, end, pos) {
            Ok(x) => x,
            Err(e) => return Err(e),
        };
        if !peek_ident(toks, p1) {
            return Err(expected_at(Expected::Identifier, span_at_exec(toks, p1, end)));
        }
        let name = ident_at_exec(toks, p1);
        if peek_group(toks, p1 + 1, Delimiter::Brace) {
            let (node, p2) = match QueryNode::parse(toks, end, p1 + 1) {
                Ok(x) => x,
                Err(e) => return Err(e),
            };
            let (alias, p3) = match Alias::parse_optional(toks, end, p2) {
                Ok(x) => x,
                Err(e) => return Err(e),
            };
            Ok((QueryField::Relation { attrs, name, node, alias }, p3))
        } else {
            let (alias, p2) = match Alias::parse_optional(toks, end, p1 + 1) {
                Ok(x) => x,
                Err(e) => return Err(e),
            };
            let (type_override, p3) = match TypeOverride::parse_optional(toks, end, p2) {
                Ok(x) => x,
                Err(e) => return Err(e),
            };
            Ok((QueryField::Column { attrs, name, alias, type_override }, p3))
        }
    }
}

fn parse_query_fields(toks: &Vec<TokenTree>, end: Span, pos: usize) -> (res: Result<(Vec<QueryField>, usize), ParseError>)
    requires
        pos <= toks.len(),
    ensures
        match res {
            Ok((v, q)) => spec_parse_query_fields(toks@, end, pos as int)
                == Ok::<(Seq<QueryFieldModel>, int), ParseError>((query_fields_view(v@), q as int)) && q == toks.len(),
            Err(e) => spec_parse_query_fields(toks@, end, pos as int) == Err::<(Seq<QueryFieldModel>, int), ParseError>(e),
        },
    decreases toks@, toks.len() - pos, 2nat,
{
    if pos == toks.len() {
        let v: Vec<QueryField> = Vec::new();
        proof {
            lemma_query_fields_view(v@);
            assert(query_fields_view(v@) =~= Seq::<QueryFieldModel>::empty());
        }
        return Ok((v, pos));
    }
    let (f, q) = match QueryField::parse(toks, end, pos) {
        Ok(x) => x,
        Err(e) => return Err(e),
    };
    if q == toks.len() {
        let mut v: Vec<QueryField> = Vec::new();
        let ghost m = f@;
        v.push(f);
        proof {
            lemma_query_fields_view(v@);
            assert(query_fields_view(v@) =~= seq![m]);
        }
        return Ok((v, q));
    }
    if !peek_punct(toks, q, ',') {
        return Err(expected_at(Expected::Punct(','), toks[q].span()));
    }
    let (mut rest, r) = match parse_query_fields(toks, end, q + 1) {
        Ok(x) => x,
        Err(e) => return Err(e),
    };
    let ghost m = f@;
    let ghost old_rest = rest@;
    rest.insert(0, f);
    proof {
        lemma_query_fields_view(rest@);
        lemma_query_fields_view(old_rest);
        assert(query_fields_view(rest@) =~= seq![m] + query_fields_view(old_rest));
    }
    Ok((rest, r))
}

/// The first field that is a column after a `*`, or repeats an earlier name.
fn check_fields(star: bool, fields: &Vec<QueryField>) -> (e: Option<ParseError>)
    ensures
        e == field_error(star, query_fields_view(fields@), 0),
{
    let ghost fm = query_fields_view(fields@);
    proof {
        lemma_query_fields_view(fields@);
    }
    let mut i: usize = 0;
    while i < fields.len()
        invariant
            i <= fields.len(),
            fm == query_fields_view(fields@),
            fm.len() == fields.len(),
            forall|k: int| 0 <= k < fields.len() ==> #[trigger] fm[k] == query_field_view(fields@[k]),
            field_error(star, fm, 0) == field_error(star, fm, i as int),
        decreases fields.len() - i,
    {
        let column = fields[i].is_column();
        if star && column {
            return Some(error_at(ErrorKind::ColumnAfterStar, fields[i].span()));
        }
        assert(column == (fm[i as int] is Column));
        let mut j: usize = 0;
        while j < i
            invariant
                j <= i < fields.len(),
                fm == query_fields_view(fields@),
                fm.len() == fields.len(),
                forall|k: int| 0 <= k < fields.len() ==> #[trigger] fm[k] == query_field_view(fields@[k]),
                forall|k: int| 0 <= k < j ==> field_name(#[trigger] fm[k]).name != field_name(fm[i as int]).name,
                !(star && fm[i as int] is Column),
                field_error(star, fm, 0) == field_error(star, fm, i as int),
            decreases i - j,
        {
            if str_eq(fields[j].name().name.as_str(), fields[i].name().name.as_str()) {
                proof {
                    assert(0 <= j < i && field_name(fm[j as int]).name == field_name(fm[i as int]).name);
                }
                return Some(error_at(ErrorKind::DuplicateField, fields[i].span()));
            }
            j = j + 1;
        }
        i = i + 1;
    }
    None
}

impl QueryNode {
    /// A braced node at `pos`. A column after `*`, or two fields of one name,
    /// are refused.
    pub fn parse(toks: &Vec<TokenTree>, end: Span, pos: usize) -> (res: Result<(QueryNode, usize), ParseError>)
        requires
            pos <= toks.len(),
        ensures
            agrees(res, spec_parse_query_node(toks@, end, pos as int)),
            moved(res, toks@, pos as int),
        decreases toks@, toks.len() - pos, 0nat,
    {
        if !peek_group(toks, pos, Delimiter::Brace) {
            return Err(expected_at(Expected::Braces, span_at_exec(toks, pos, end)));
        }
        match &toks[pos] {
            TokenTree::Group { stream, span, .. } => {
                proof {
                    assert(decreases_to!(toks@ => toks@[pos as int]));
                }
                let brace = *span;
                let star = if peek_punct(stream, 0, '*') { Some(stream[0].span()) } else { None };
                let first: usize = if star.is_none() {
                    0
                } else if 1 < stream.len() {
                    if !peek_punct(stream, 1, ',') {
                        return Err(expected_at(Expected::Punct(','), stream[1].span()));
                    }
                    2
                } else {
                    1
                };
                let (fields, _) = match parse_query_fields(stream, brace, first) {
                    Ok(x) => x,
                    Err(e) => return Err(e),
                };
                match check_fields(star.is_some(), &fields) {
                    Some(e) => Err(e),
                    None => Ok((QueryNode { brace, star, fields }, pos + 1)),
                }
            },
            _ => {
                assert(false);
                Err(expected_at(Expected::Braces, end))
            },
        }
    }
}

// ---------------------------------------------------------------------------
// The whole query.
// ---------------------------------------------------------------------------

/// `#![inner attrs] #[outer attrs] table { fields } as alias`.
#[derive(Debug)]
pub struct Query {
    pub inner_attrs: Vec<Attribute>,
    pub outer_attrs: Vec<Attribute>,
    pub table: Path,
    pub body: QueryNode,
    pub alias: Option<Alias>,
}

pub struct QueryModel {
    pub inner_attrs: Seq<AttributeModel>,
    pub outer_attrs: Seq<AttributeModel>,
    pub table: PathModel,
    pub body: QueryNodeModel,
    pub alias: Option<AliasModel>,
}

impl View for Query {
    type V = QueryModel;

    open spec fn view(&self) -> QueryModel {
        QueryModel {
            inner_attrs: attrs_view(self.inner_attrs@),
            outer_attrs: attrs_view(self.outer_attrs@),
            table: self.table@,
            body: self.body@,
            alias: opt_view(self.alias),
        }
    }
}

/// A query: the inner attributes, whose `kosame` arguments must be valid
/// there, the outer attributes likewise, the table path, the root node and an
/// optional alias.
pub open spec fn spec_parse_query(toks: Seq<TokenTree>, end: Span, pos: int) -> Result<(QueryModel, int), ParseError> {
    match spec_parse_inner_attrs(toks, end, pos) {
        Ok((inner_attrs, p1)) => match meta_of(inner_attrs, MetaLocation::QueryInner) {
            Err(e) => Err(e),
            Ok(_) => match spec_parse_outer_attrs(toks, end, p1) {
                Ok((outer_attrs, p2)) => match meta_of(outer_attrs, MetaLocation::QueryOuter) {
                    Err(e) => Err(e),
                    Ok(_) => match spec_parse_path(toks, end, p2) {
                        Ok((table, p3)) => match spec_parse_query_node(toks, end, p3) {
                            Ok((body, p4)) => match optional(keyword_at(toks, p4, Keyword::As.spec_text()), spec_parse_alias(toks, end, p4), p4) {
                                Ok((alias, p5)) => Ok((QueryModel { inner_attrs, outer_attrs, table, body, alias }, p5)),
                                Err(e) => Err(e),
                            },
                            Err(e) => Err(e),
                        },
                        Err(e) => Err(e),
                    },
                },
                Err(e) => Err(e),
            },
        },
        Err(e) => Err(e),
    }
}

/// The whole macro input is one query; a token after it is refused.
pub open spec fn spec_parse_query_input(toks: Seq<TokenTree>, end: Span) -> Result<QueryModel, ParseError> {
    match spec_parse_query(toks, end, 0) {
        Ok((q, p)) =>
            if 0 <= p < toks.len() {
                err(ErrorKind::UnexpectedToken, tt_span(toks[p]))
            } else {
                Ok(q)
            },
        Err(e) => Err(e),
    }
}

/// Checks the `kosame` arguments of attributes for a place.
fn check_meta(attrs: &Vec<Attribute>, location: MetaLocation) -> (res: Result<(), ParseError>)
    ensures
        match res {
            Ok(()) => meta_of(attrs_view(attrs@), location) is Ok,
            Err(e) => meta_of(attrs_view(attrs@), location) == Err::<CustomMetaModel, ParseError>(e),
        },
{
    proof {
        lemma_meta_of(attrs@, location);
    }
    match CustomMeta::read_attrs(attrs, location) {
        Ok(_) => Ok(()),
        Err(e) => Err(e),
    }
}

impl Query {
    pub fn parse(toks: &Vec<TokenTree>, end: Span, pos: usize) -> (res: Result<(Query, usize), ParseError>)
        requires
            pos <= toks.len(),
        ensures
            agrees(res, spec_parse_query(toks@, end, pos as int)),
            moved(res, toks@, pos as int),
    {
        let (inner_attrs, p1) = match Attribute::parse_inner(toks, end, pos) {
            Ok(x) => x,
            Err(e) => return Err(e),
        };
        match check_meta(&inner_attrs, MetaLocation::QueryInner) {
            Ok(()) => {},
            Err(e) => return Err(e),
        }
        let (outer_attrs, p2) = match Attribute::parse_outer(toks, end, p1) {
            Ok(x) => x,
            Err(e) => return Err(e),
        };
        match check_meta(&outer_attrs, MetaLocation::QueryOuter) {
            Ok(()) => {},
            Err(e) => return Err(e),
        }
        let (table, p3) = match Path::parse(toks, end, p2) {
            Ok(x) => x,
            Err(e) => return Err(e),
        };
        let (body, p4) = match QueryNode::parse(toks, end, p3) {
            Ok(x) => x,
            Err(e) => return Err(e),
        };
        let (alias, p5) = match Alias::parse_optional(toks, end, p4) {
            Ok(x) => x,
            Err(e) => return Err(e),
        };
        Ok((Query { inner_attrs, outer_attrs, table, body, alias }, p5))
    }

    /// Reads the whole input of the `query!` macro.
    pub fn parse_input(toks: &Vec<TokenTree>, end: Span) -> (res: Result<Query, ParseError>)
        ensures
            match res {
                Ok(q) => spec_parse_query_input(toks@, end) == Ok::<QueryModel, ParseError>(q@),
                Err(e) => spec_parse_query_input(toks@, end) == Err::<QueryModel, ParseError>(e),
            },
    {
        match Query::parse(toks, end, 0) {
            Ok((q, p)) => {
                if p < toks.len() {
                    Err(error_at(ErrorKind::UnexpectedToken, toks[p].span()))
                } else {
                    Ok(q)
                }
            },
            Err(e) => Err(e),
        }
    }

    /// The inner attributes of the query name no driver; the macro reports
    /// this without stopping.
    pub fn missing_driver(&self) -> (missing: bool)
        ensures
            missing == (meta_of(attrs_view(self.inner_attrs@), MetaLocation::QueryInner) matches Ok(m) && m.driver is None),
    {
        proof {
            lemma_meta_of(self.inner_attrs@, MetaLocation::QueryInner);
        }
        match CustomMeta::read_attrs(&self.inner_attrs, MetaLocation::QueryInner) {
            Ok(m) => m.driver_missing(MetaLocation::QueryInner),
            Err(_) => false,
        }
    }
}

// ---------------------------------------------------------------------------
// Law: every node of a parsed query has fields of distinct names, and after a
// `*` only relations.
// ---------------------------------------------------------------------------

/// The fields of one node have distinct names, and a node with `*` holds only
/// relations.
pub open spec fn node_fields_ok(n: QueryNodeModel) -> bool {
    &&& forall|i: int, j: int|
        0 <= i < j < n.fields.len() ==> field_name(#[trigger] n.fields[i]).name != field_name(#[trigger] n.fields[j]).name
    &&& n.star is Some ==> forall|i: int| 0 <= i < n.fields.len() ==> #[trigger] n.fields[i] is Relation
}

/// The node and every node below it have fields of distinct names and no
/// column after a `*`.
pub open spec fn node_wf(n: QueryNodeModel) -> bool
    decreases n,
{
    &&& node_fields_ok(n)
    &&& forall|i: int| 0 <= i < n.fields.len() ==> #[trigger] field_wf(n, i)
}

pub open spec fn field_wf(n: QueryNodeModel, i: int) -> bool
    decreases n, 0nat,
{
    if 0 <= i < n.fields.len() {
        match n.fields[i] {
            QueryFieldModel::Relation { node, .. } => {
                proof {
                    assert(decreases_to!(n => n.fields[i]));
                }
                node_wf(node)
            },
            _ => true,
        }
    } else {
        true
    }
}

proof fn lemma_field_error_none(star: bool, fields: Seq<QueryFieldModel>, i: int)
    requires
        0 <= i,
        field_error(star, fields, i) is None,
    ensures
        forall|k: int, j: int|
            0 <= j < k && i <= k < fields.len() ==> field_name(#[trigger] fields[j]).name != field_name(#[trigger] fields[k]).name,
        star ==> forall|k: int| i <= k < fields.len() ==> #[trigger] fields[k] is Relation,
    decreases fields.len() - i,
{
    if i < fields.len() {
        lemma_field_error_none(star, fields, i + 1);
        assert forall|k: int, j: int| 0 <= j < k && i <= k < fields.len() implies field_name(#[trigger] fields[j]).name != field_name(#[trigger] fields[k]).name by {
            if k == i {
                if field_name(fields[j]).name == field_name(fields[k]).name {
                    assert(exists|jj: int| 0 <= jj < i && #[trigger] field_name(fields[jj]).name == field_name(fields[i]).name);
                }
            }
        }
    }
}

proof fn lemma_query_node_wf(toks: Seq<TokenTree>, end: Span, pos: int)
    ensures
        spec_parse_query_node(toks, end, pos) matches Ok((n, _)) ==> node_wf(n),
    decreases toks, toks.len() - pos, 0nat,
{
    if 0 <= pos <= toks.len() && group_at(toks, pos, Delimiter::Brace) {
        let inner = group_stream(toks[pos]);
        assert(decreases_to!(toks => toks[pos]));
        let brace = tt_span(toks[pos]);
        let star = if punct_at(inner, 0, '*') { Some(tt_span(inner[0])) } else { None };
        let first = if star is None { 0 } else if 1 < inner.len() { 2int } else { 1int };
        lemma_query_fields_wf(inner, brace, first);
        if let Ok((n, _)) = spec_parse_query_node(toks, end, pos) {
            lemma_field_error_none(star is Some, n.fields, 0);
            assert(node_fields_ok(n));
            assert forall|i: int| 0 <= i < n.fields.len() implies #[trigger] field_wf(n, i) by {
                assert(field_ok(n.fields[i]));
            }
        }
    }
}

/// A relation field holds a well-formed node.
pub open spec fn field_ok(f: QueryFieldModel) -> bool {
    match f {
        QueryFieldModel::Relation { node, .. } => node_wf(node),
        _ => true,
    }
}

proof fn lemma_query_field_wf(toks: Seq<TokenTree>, end: Span, pos: int)
    ensures
        spec_parse_query_field(toks, end, pos) matches Ok((f, _)) ==> field_ok(f),
    decreases toks, toks.len() - pos, 1nat,
{
    if 0 <= pos <= toks.len() {
        if let Ok((_, p1)) = spec_parse_outer_attrs(toks, end, pos) {
            if pos <= p1 <= toks.len() && ident_at(toks, p1) && group_at(toks, p1 + 1, Delimiter::Brace) {
                lemma_query_node_wf(toks, end, p1 + 1);
            }
        }
    }
}

proof fn lemma_query_fields_wf(toks: Seq<TokenTree>, end: Span, pos: int)
    ensures
        spec_parse_query_fields(toks, end, pos) matches Ok((fs, _)) ==> forall|i: int| 0 <= i < fs.len() ==> field_ok(#[trigger] fs[i]),
    decreases toks, toks.len() - pos, 2nat,
{
    if 0 <= pos < toks.len() {
        lemma_query_field_wf(toks, end, pos);
        if let Ok((f, q)) = spec_parse_query_field(toks, end, pos) {
            if advanced(toks, pos, q) && q < toks.len() && punct_at(toks, q, ',') {
                lemma_query_fields_wf(toks, end, q + 1);
                if let Ok((rest, _)) = spec_parse_query_fields(toks, end, q + 1) {
                    let all = seq![f] + rest;
                    assert forall|i: int| 0 <= i < all.len() implies field_ok(#[trigger] all[i]) by {
                        if i > 0 {
                            assert(all[i] == rest[i - 1]);
                        }
                    }
                }
            }
        }
    }
}

/// Every node of a parsed query tree, the root and each relation's node below
/// it, has fields of pairwise distinct names, and a node with `*` holds only
/// relation fields.
pub proof fn lemma_parsed_node_wf(toks: Seq<TokenTree>, end: Span, pos: int)
    requires
        spec_parse_query_node(toks, end, pos) is Ok,
    ensures
        node_wf(spec_parse_query_node(toks, end, pos)->Ok_0.0),
{
    lemma_query_node_wf(toks, end, pos);
}

} // verus!

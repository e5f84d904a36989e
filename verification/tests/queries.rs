use kosame_macro::token::{Delimiter, Ident, Spacing, Span, TokenTree};

fn convert(stream: proc_macro2::TokenStream, next: &mut usize) -> Vec<TokenTree> {
    let mut out = Vec::new();
    for t in stream {
        *next += 1;
        let span = Span { id: *next };
        out.push(match t {
            proc_macro2::TokenTree::Group(g) => {
                let delimiter = match g.delimiter() {
                    proc_macro2::Delimiter::Parenthesis => Delimiter::Parenthesis,
                    proc_macro2::Delimiter::Brace => Delimiter::Brace,
                    proc_macro2::Delimiter::Bracket => Delimiter::Bracket,
                    proc_macro2::Delimiter::None => Delimiter::Invisible,
                };
                TokenTree::Group { delimiter, stream: convert(g.stream(), next), span }
            }
            proc_macro2::TokenTree::Ident(i) => TokenTree::Ident(Ident::new(i.to_string(), span)),
            proc_macro2::TokenTree::Punct(p) => TokenTree::Punct {
                ch: p.as_char(),
                spacing: match p.spacing() {
                    proc_macro2::Spacing::Joint => Spacing::Joint,
                    proc_macro2::Spacing::Alone => Spacing::Alone,
                },
                span,
            },
            proc_macro2::TokenTree::Literal(l) => TokenTree::Literal { repr: l.to_string(), span },
        });
    }
    out
}

fn toks(src: &str) -> Vec<TokenTree> {
    let mut next = 0;
    convert(src.parse().unwrap(), &mut next)
}


fn render(ts: &[TokenTree]) -> String {
    let mut s = String::new();
    for t in ts {
        match t {
            TokenTree::Ident(i) => s.push_str(&i.name),
            TokenTree::Literal { repr, .. } => s.push_str(repr),
            TokenTree::Punct { ch, .. } => s.push(*ch),
            TokenTree::Group { delimiter, stream, .. } => {
                let (open, close) = match delimiter {
                    Delimiter::Parenthesis => ("(", ")"),
                    Delimiter::Brace => ("{", "}"),
                    Delimiter::Bracket => ("[", "]"),
                    Delimiter::Invisible => ("", ""),
                };
                s.push_str(open);
                s.push(' ');
                s.push_str(&render(stream));
                s.push_str(close);
            }
        }
        s.push(' ');
    }
    s
}

fn same_code(actual: &[TokenTree], expected: &str) {
    assert_eq!(render(actual), render(&toks(expected)));
}

use kosame_macro::error::{ErrorKind, Expected, MetaArg, ParseError};
use kosame_macro::message::message;
use kosame_macro::path::Path;
use kosame_macro::query::bind_params::BindParamsBuilder;
use kosame_macro::query::clauses::{entry_to_tokens, FilterClause, LimitClause, OrderBy};
use kosame_macro::query::node_path::{QueryNodePath, RelationPath};
use kosame_macro::query::star::Star;
use kosame_macro::query::{Query, QueryField, QueryNode};
use kosame_macro::row::Features;
use kosame_macro::sql::{SlottedSqlBuilder, SqlPart};
use kosame_macro::expr::{parse_expr, BindParam};

const END: Span = Span { id: 1000 };

fn node(src: &str) -> Result<(QueryNode, usize), ParseError> {
    QueryNode::parse(&toks(src), END, 0)
}

fn path(src: &str) -> Path {
    Path::parse(&toks(src), END, 0).unwrap().0
}

fn ident(name: &str) -> Ident {
    Ident::new(name.to_string(), Span { id: 0 })
}

fn sql(parts: &[SqlPart]) -> String {
    let mut s = String::new();
    for p in parts {
        match p {
            SqlPart::Text(t) => s.push_str(t),
            SqlPart::Slot(t) => {
                s.push('{');
                s.push_str(&render(t));
                s.push('}');
            }
        }
    }
    s
}

fn slot(src: &str) -> String {
    format!("{{{}}}", render(&toks(src)))
}

const NO_FEATURES: Features = Features { serde: false, serde_full: false, postgres: false, postgres_types: false };

#[test]
fn query_with_attributes_and_alias() {
    let t = toks("#![kosame(driver = \"postgres\")] #[derive(Clone)] schema::posts { *, comments { body } as notes } as latest");
    let q = Query::parse_input(&t, END).unwrap();
    assert_eq!(q.inner_attrs.len(), 1);
    assert_eq!(q.outer_attrs.len(), 1);
    assert!(q.body.star.is_some());
    assert_eq!(q.body.fields.len(), 1);
    assert_eq!(q.alias.as_ref().unwrap().ident.name, "latest");
    assert!(!q.missing_driver());
}

#[test]
fn query_without_driver() {
    let q = Query::parse_input(&toks("posts { id }"), END).unwrap();
    assert!(q.missing_driver());
}

#[test]
fn tokens_after_the_query() {
    let e = Query::parse_input(&toks("posts { id } as x y"), END).unwrap_err();
    assert_eq!(e, ParseError { kind: ErrorKind::UnexpectedToken, span: Span { id: 6 } });
}

#[test]
fn meta_not_allowed_on_a_query() {
    let e = Query::parse_input(&toks("#[kosame(driver = \"postgres\")] posts { id }"), END).unwrap_err();
    assert_eq!(e.kind, ErrorKind::MetaNotAllowed(MetaArg::Driver));
}

#[test]
fn columns_after_star_are_refused() {
    let e = node("{ *, id }").unwrap_err();
    assert_eq!(e, ParseError { kind: ErrorKind::ColumnAfterStar, span: Span { id: 4 } });
    assert!(node("{ *, comments { id } }").is_ok());
    assert!(node("{ * }").is_ok());
}

#[test]
fn duplicate_fields_are_refused() {
    let e = node("{ id, title, id }").unwrap_err();
    assert_eq!(e, ParseError { kind: ErrorKind::DuplicateField, span: Span { id: 6 } });
    let e = node("{ id, comments { id, body, body } }").unwrap_err();
    assert_eq!(e.kind, ErrorKind::DuplicateField);
}

#[test]
fn fields_need_commas_and_braces() {
    let e = node("{ id title }").unwrap_err();
    assert_eq!(e, ParseError { kind: ErrorKind::Expected(Expected::Punct(',')), span: Span { id: 3 } });
    let e = node("( id )").unwrap_err();
    assert_eq!(e, ParseError { kind: ErrorKind::Expected(Expected::Braces), span: Span { id: 1 } });
}

#[test]
fn a_parsed_node_has_distinct_names_and_no_column_after_star() {
    let (n, _) = node("{ *, a { x, y }, b { x, c { x } } }").unwrap();
    let names: Vec<String> = n.fields.iter().map(|f| f.name().name.clone()).collect();
    assert_eq!(names, vec!["a", "b"]);
    assert!(n.fields.iter().all(|f| !f.is_column()));
}

#[test]
fn field_accessors() {
    let (n, _) = node("{ id as key: my::Id, comments { body } as notes }").unwrap();
    let f = &n.fields[0];
    assert_eq!(f.name().name, "id");
    assert_eq!(f.alias().unwrap().ident.name, "key");
    assert!(f.is_column());
    assert_eq!(f.span(), Span { id: 2 });
    assert_eq!(n.fields[1].alias().unwrap().ident.name, "notes");
    assert!(!n.fields[1].is_column());
}

#[test]
fn struct_and_module_names() {
    let mut p = QueryNodePath::new();
    assert_eq!(p.to_struct_name("Row").name, "Row");
    assert_eq!(p.to_module_name("row").name, "row");
    p.append(ident("comments"));
    p.append(ident("author_profile"));
    assert_eq!(p.to_struct_name("Row").name, "RowCommentsAuthorProfile");
    assert_eq!(p.to_module_name("row").name, "row_comments_author_profile");
    let mut r = RelationPath::new();
    assert!(r.is_empty());
    r.append(ident("posts"));
    assert_eq!(r.to_struct_name("Relation").name, "RelationPosts");
    assert_eq!(r.to_module_name("relation").name, "relation_posts");
}

#[test]
fn resolving_a_node_path() {
    let mut p = QueryNodePath::new();
    p.append(ident("comments"));
    let mut out = Vec::new();
    p.resolve(&path("schema::posts")).to_tokens(&mut out);
    same_code(&out, "schema::posts::relations::comments::target_table");
}

#[test]
fn sql_of_a_node_with_a_relation() {
    let (n, _) = node("{ id, comments { body } }").unwrap();
    let mut b = SlottedSqlBuilder::new();
    n.to_sql_select(&mut b, &path("schema::posts"), QueryNodePath::new(), None);
    let expected = format!(
        "select id, (select array_agg(row(body)) from {} where {}) from {}",
        slot("super::schema::posts::relations::comments::target_table::NAME"),
        slot("super::schema::posts::relations::comments::JOIN_CONDITION"),
        slot("super::schema::posts::NAME"),
    );
    assert_eq!(sql(&b.build()), expected);
}

#[test]
fn sql_of_a_node_with_star() {
    let (n, _) = node("{ * }").unwrap();
    let mut b = SlottedSqlBuilder::new();
    n.to_sql_select(&mut b, &path("::db::users"), QueryNodePath::new(), None);
    let expected = format!("select row({}) from {}", slot("::db::users::ALL_FIELDS"), slot("::db::users::NAME"));
    assert_eq!(sql(&b.build()), expected);
}

#[test]
fn row_struct_fields_of_query_fields() {
    let (n, _) = node("{ id as key, title: my::Title, comments { body } as notes }").unwrap();
    let table = path("schema::posts");
    let mut np = QueryNodePath::new();
    np.append(ident("posts"));
    let f = n.fields[0].to_row_struct_field(&table, &np);
    assert_eq!(f.name.name, "key");
    same_code(&f.ty, "schema::posts::columns::id::Type");
    let f = n.fields[1].to_row_struct_field(&table, &np);
    assert_eq!(f.name.name, "title");
    same_code(&f.ty, "super::my::Title");
    let f = n.fields[2].to_row_struct_field(&table, &np);
    assert_eq!(f.name.name, "notes");
    same_code(&f.ty, "schema::posts::relations::comments::Type<RowPostsComments>");
}

#[test]
fn star_field() {
    let t = toks("#[serde(skip)] *");
    let (star, q) = Star::parse(&t, END, 0).unwrap();
    assert_eq!(q, 3);
    let plain = star.to_record_struct_field(&path("posts"), NO_FEATURES);
    assert_eq!(plain.name.name, "_star");
    assert_eq!(plain.attrs.len(), 1);
    same_code(&plain.ty, "posts::Select");
    let with_serde = star.to_record_struct_field(&path("posts"), Features { serde: true, ..NO_FEATURES });
    assert_eq!(with_serde.attrs.len(), 2);
    same_code(&with_serde.attrs[1].tokens, "serde(flatten)");
    let e = Star::parse(&toks("id"), END, 0).unwrap_err();
    assert_eq!(e, ParseError { kind: ErrorKind::Expected(Expected::Punct('*')), span: Span { id: 1 } });
}

#[test]
fn row_tokens_of_a_node() {
    let (n, _) = node("{ id }").unwrap();
    let mut out = Vec::new();
    n.to_tokens(&mut out, &Vec::new(), &path("posts"), &QueryNodePath::new(), NO_FEATURES);
    same_code(
        &out,
        "mod autocomplete_row { use super::super::posts::columns_and_relations::id; }
         #[derive(::kosame::Row, Debug)] pub struct Row { pub id: super::posts::columns::id::Type, }",
    );
}

fn params_of(src: &str) -> kosame_macro::query::bind_params::BindParams {
    let t = toks(src);
    let (e, _) = parse_expr(&t, END, 0, 0).unwrap();
    let mut b = BindParamsBuilder::new();
    e.accept(&mut b);
    b.build()
}

#[test]
fn bind_params_code() {
    let params = params_of(":a = :b or :a");
    let mut out = Vec::new();
    params.to_tokens(&mut out, NO_FEATURES);
    same_code(
        &out,
        "mod params {
            pub(super) mod a { pub const BIND_PARAM: ::kosame::expr::BindParam = ::kosame::expr::BindParam::new(\"a\", 0u32); }
            pub(super) mod b { pub const BIND_PARAM: ::kosame::expr::BindParam = ::kosame::expr::BindParam::new(\"b\", 1u32); }
         }
         #[derive(Debug, Clone)]
         pub struct Params<'a> {
            pub a: &'a (dyn ::kosame::driver::postgres_types::ToSql + ::std::marker::Sync),
            pub b: &'a (dyn ::kosame::driver::postgres_types::ToSql + ::std::marker::Sync)
         }",
    );
    let mut out = Vec::new();
    params.to_tokens(&mut out, Features { postgres_types: true, ..NO_FEATURES });
    let text = render(&out);
    assert!(text.contains("fn to_driver"));
    assert!(text.contains(render(&toks("vec![self.a, self.b]")).as_str()));
}

#[test]
fn no_bind_params_code() {
    let params = params_of("1");
    let mut out = Vec::new();
    params.to_tokens(&mut out, NO_FEATURES);
    same_code(&out, "mod params {} #[derive(Debug, Clone)] pub struct Params {}");
}

#[test]
fn bind_params_closure() {
    let params = params_of(":x + :y");
    let out = params.to_closure_token_stream(&ident("internal"));
    same_code(
        &out,
        "let bind_param_0 = &x; let bind_param_1 = &y; let closure = internal::Params { x: bind_param_0, y: bind_param_1, };",
    );
}

#[test]
fn bind_param_name() {
    let t = toks(":id");
    let (b, _) = BindParam::parse(&t, END, 0).unwrap();
    assert_eq!(b.name().name, "id");
}

#[test]
fn query_clauses() {
    let t = toks("filter a = 1 order by a desc, b nulls first limit 5");
    let (f, p1) = FilterClause::parse_optional(&t, END, 0).unwrap();
    assert!(f.is_some());
    assert_eq!(p1, 4);
    let (o, p2) = OrderBy::parse_optional(&t, END, p1).unwrap();
    let o = o.unwrap();
    assert_eq!(o.entries.len(), 2);
    let (l, p3) = LimitClause::parse_optional(&t, END, p2).unwrap();
    assert!(l.is_some());
    assert_eq!(p3, t.len());
    let mut out = Vec::new();
    entry_to_tokens(&o.entries[1], &mut out);
    assert!(render(&out).contains(render(&toks("None, Some(::kosame::query::OrderByNulls::First)")).as_str()));
    let mut out = Vec::new();
    o.to_tokens(&mut out);
    assert!(render(&out).starts_with(render(&toks("::kosame::query::OrderBy::new")).as_str()));
    let (none, p) = LimitClause::parse_optional(&t, END, 0).unwrap();
    assert!(none.is_none());
    assert_eq!(p, 0);
    let e = OrderBy::parse(&toks("order by limit 1"), END, 0).unwrap_err();
    assert_eq!(e.kind, ErrorKind::EmptyOrderBy);
}

#[test]
fn query_field_parse() {
    let t = toks("#[x] comments { body } as c");
    let (f, q) = QueryField::parse(&t, END, 0).unwrap();
    assert_eq!(q, t.len());
    assert!(!f.is_column());
}

#[test]
fn duplicate_field_message_names_the_field() {
    let t = toks("{ id, name, id }");
    let e = QueryNode::parse(&t, END, 0).unwrap_err();
    // {..}(1) id(2) ,(3) name(4) ,(5) id(6)
    assert_eq!(e, ParseError { kind: ErrorKind::DuplicateField, span: Span { id: 6 } });
    assert_eq!(message(e, &t), "duplicate field `id`");
    let t = toks("{ *, id }");
    let e = QueryNode::parse(&t, END, 0).unwrap_err();
    assert_eq!(message(e, &t), "only relation fields are allowed after `*`");
}

#[test]
fn autocomplete_module_keeps_the_given_name() {
    let (n, _) = node("{ id, title }").unwrap();
    let name = Ident::new("autocomplete_row_comments".to_string(), Span { id: 77 });
    let out = n.to_autocomplete_module(&name, &path("posts"));
    same_code(
        &out,
        "mod autocomplete_row_comments {
            use super::super::posts::columns_and_relations::id;
            use super::super::posts::columns_and_relations::title;
         }",
    );
    match &out[1] {
        TokenTree::Ident(i) => assert_eq!(i.span, Span { id: 77 }),
        other => panic!("{:?}", other),
    }
}

#[test]
fn module_of_an_aliased_query() {
    let q = Query::parse_input(&toks("posts { id } as latest"), END).unwrap();
    let mut out = Vec::new();
    q.to_module_tokens(&mut out, &toks("REPR_VALUE"), NO_FEATURES);
    same_code(
        &out,
        "pub mod latest {
            mod autocomplete_row { use super::super::posts::columns_and_relations::id; }
            #[derive(::kosame::Row, Debug)] pub struct Row { pub id: super::posts::columns::id::Type, }
            mod params {} #[derive(Debug, Clone)] pub struct Params {}
            pub struct Query { params: Params, }
            impl Query { pub fn new(params: Params) -> Self { Self { params } } }
            impl ::kosame::query::Query for Query {
                type Params = Params;
                type Row = Row;
                const REPR: ::kosame::query::Node<'static> = REPR_VALUE;
                fn params(&self) -> &Self::Params { &self.params }
            }
         }",
    );
}

#[test]
fn module_of_a_query_without_alias() {
    let q = Query::parse_input(&toks("posts { id }"), END).unwrap();
    let mut out = Vec::new();
    q.to_module_tokens(&mut out, &toks("R"), NO_FEATURES);
    same_code(
        &out,
        "{
            let closure = internal::Params {};
            pub mod internal {
                mod autocomplete_row { use super::super::posts::columns_and_relations::id; }
                #[derive(::kosame::Row, Debug)] pub struct Row { pub id: super::posts::columns::id::Type, }
                mod params {} #[derive(Debug, Clone)] pub struct Params {}
                pub struct Query { params: Params, }
                impl Query { pub fn new(params: Params) -> Self { Self { params } } }
                impl ::kosame::query::Query for Query {
                    type Params = Params;
                    type Row = Row;
                    const REPR: ::kosame::query::Node<'static> = R;
                    fn params(&self) -> &Self::Params { &self.params }
                }
            }
            internal::Query::new(closure)
         }",
    );
}

#[test]
fn a_node_has_no_bind_params() {
    let (n, _) = node("{ id, comments { body } }").unwrap();
    let mut b = BindParamsBuilder::new();
    n.accept(&mut b);
    assert!(b.build().is_empty());
}

use kosame_macro::token::{Delimiter, Ident, Spacing, Span, TokenTree};

fn convert(stream: proc_macro2::TokenStream, next: &mut usize) -> Vec<TokenTree> {
    let mut out = Vec::new();
    for t in stream {
        *next += 1;
        let span = Span { id: *next };
        out.push(match t {
            proc_macro2::TokenTree::Group(g) => {
                let delimiter = match g.delimiter() {
                    proc_macro2::Delimiter::Parenthesis => Delimiter::Parenthesis,
                    proc_macro2::Delimiter::Brace => Delimiter::Brace,
                    proc_macro2::Delimiter::Bracket => Delimiter::Bracket,
                    proc_macro2::Delimiter::None => Delimiter::Invisible,
                };
                TokenTree::Group { delimiter, stream: convert(g.stream(), next), span }
            }
            proc_macro2::TokenTree::Ident(i) => TokenTree::Ident(Ident::new(i.to_string(), span)),
            proc_macro2::TokenTree::Punct(p) => TokenTree::Punct {
                ch: p.as_char(),
                spacing: match p.spacing() {
                    proc_macro2::Spacing::Joint => Spacing::Joint,
                    proc_macro2::Spacing::Alone => Spacing::Alone,
                },
                span,
            },
            proc_macro2::TokenTree::Literal(l) => TokenTree::Literal { repr: l.to_string(), span },
        });
    }
    out
}

fn toks(src: &str) -> Vec<TokenTree> {
    let mut next = 0;
    convert(src.parse().unwrap(), &mut next)
}


fn render(ts: &[TokenTree]) -> String {
    let mut s = String::new();
    for t in ts {
        match t {
            TokenTree::Ident(i) => s.push_str(&i.name),
            TokenTree::Literal { repr, .. } => s.push_str(repr),
            TokenTree::Punct { ch, .. } => s.push(*ch),
            TokenTree::Group { delimiter, stream, .. } => {
                let (open, close) = match delimiter {
                    Delimiter::Parenthesis => ("(", ")"),
                    Delimiter::Brace => ("{", "}"),
                    Delimiter::Bracket => ("[", "]"),
                    Delimiter::Invisible => ("", ""),
                };
                s.push_str(open);
                s.push(' ');
                s.push_str(&render(stream));
                s.push_str(close);
            }
        }
        s.push(' ');
    }
    s
}

fn same_code(actual: &[TokenTree], expected: &str) {
    assert_eq!(render(actual), render(&toks(expected)));
}

use kosame_macro::error::{ErrorKind, Expected, Keyword, ParseError};
use kosame_macro::row_query::{Query, QueryField, QueryNode, QueryNodeBody};
use kosame_macro::sql::{sql_string_expr, SlottedSqlBuilder};

const END: Span = Span { id: 1000 };

fn query(src: &str) -> Result<Query, ParseError> {
    Query::parse_input(&toks(src), END)
}

#[test]
fn compact_query_parse() {
    let q = query("posts { id, title, comments { body, author { name } } } as latest").unwrap();
    assert!(q.table.is_ident("posts"));
    assert_eq!(q.body.fields.len(), 3);
    match &q.body.fields[2] {
        QueryField::Relation(node) => {
            assert_eq!(node.name.name, "comments");
            assert_eq!(node.body.fields.len(), 2);
        }
        other => panic!("{:?}", other),
    }
    assert_eq!(q.as_name.unwrap().ident().name, "latest");
    let q = query("posts { id, }").unwrap();
    assert!(q.as_name.is_none());
    assert_eq!(q.body.fields.len(), 1);
}

#[test]
fn compact_query_errors() {
    // posts(1) {..}(2) id(3) latest(4)
    let e = query("posts { id } latest").unwrap_err();
    assert_eq!(e, ParseError { kind: ErrorKind::Expected(Expected::Keyword(Keyword::As)), span: Span { id: 4 } });
    let e = query("posts { id } as x y").unwrap_err();
    assert_eq!(e, ParseError { kind: ErrorKind::UnexpectedToken, span: Span { id: 6 } });
    let e = query("posts { id title }").unwrap_err();
    assert_eq!(e, ParseError { kind: ErrorKind::Expected(Expected::Punct(',')), span: Span { id: 4 } });
    let e = query("posts { 1 }").unwrap_err();
    assert_eq!(e, ParseError { kind: ErrorKind::Expected(Expected::Identifier), span: Span { id: 3 } });
    let e = query("posts").unwrap_err();
    assert_eq!(e, ParseError { kind: ErrorKind::Expected(Expected::Braces), span: END });
}

#[test]
fn compact_node_and_body() {
    let t = toks("comments { body }");
    let (node, q) = QueryNode::parse(&t, END, 0).unwrap();
    assert_eq!(q, 2);
    assert_eq!(node.name.name, "comments");
    let (body, q) = QueryNodeBody::parse(&t, END, 1).unwrap();
    assert_eq!(q, 2);
    assert_eq!(body.fields.len(), 1);
    let (f, _) = QueryField::parse(&t, END, 0).unwrap();
    assert!(matches!(f, QueryField::Relation(_)));
}

#[test]
fn compact_query_code() {
    let q = query("posts { id, comments { body } }").unwrap();
    let mut out = Vec::new();
    q.to_tokens(&mut out);
    same_code(
        &out,
        "mod internal {
            mod row { use super::super::posts::columns_and_relations::id; use super::super::posts::relations::comments; }
            #[derive(Default, Debug)] pub struct Row {
                pub id: super::posts::columns::id::Type,
                pub comments: super::posts::relations::comments::Wrapper<RowComments>,
            }
            impl From<::postgres::Row> for Row { fn from(row: ::postgres::Row) -> Self { Self { id: row.get(0usize), comments: row.get(1usize) } } }
            mod row_comments { use super::super::posts::relations::comments::target_table::columns_and_relations::body; }
            #[derive(Default, Debug)] pub struct RowComments {
                pub body: super::posts::relations::comments::target_table::columns::body::Type,
            }
            pub struct Query { }
            impl Query {
                pub fn sql_string(&self) -> String {
                    ::std::format!(\"select {}, select {}\",
                        super::posts::columns::id::NAME,
                        super::posts::relations::comments::target_table::columns::body::NAME)
                }
            }
        }",
    );
}

#[test]
fn compact_query_module_name() {
    let q = query("posts { id } as recent").unwrap();
    let mut out = Vec::new();
    q.to_tokens(&mut out);
    assert!(render(&out).starts_with("mod recent {"));
}

#[test]
fn sql_format_string_doubles_braces() {
    let mut b = SlottedSqlBuilder::new();
    b.append_str("select '{x}' from ");
    b.append_slot(toks("t::NAME"));
    let out = sql_string_expr(&b.build());
    same_code(&out, "::std::format!(\"select '{{x}}' from {}\", t::NAME)");
}

#[test]
fn rust_keywords_are_no_field_names() {
    let e = query("posts { type }").unwrap_err();
    assert_eq!(e, ParseError { kind: ErrorKind::Expected(Expected::Identifier), span: Span { id: 3 } });
    let e = query("posts { _ }").unwrap_err();
    assert_eq!(e, ParseError { kind: ErrorKind::Expected(Expected::Identifier), span: Span { id: 3 } });
}

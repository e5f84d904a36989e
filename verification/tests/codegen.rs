use kosame_macro::token::{Delimiter, Ident, Spacing, Span, TokenTree};

fn convert(stream: proc_macro2::TokenStream, next: &mut usize) -> Vec<TokenTree> {
    let mut out = Vec::new();
    for t in stream {
        *next += 1;
        let span = Span { id: *next };
        out.push(match t {
            proc_macro2::TokenTree::Group(g) => {
                let delimiter = match g.delimiter() {
                    proc_macro2::Delimiter::Parenthesis => Delimiter::Parenthesis,
                    proc_macro2::Delimiter::Brace => Delimiter::Brace,
                    proc_macro2::Delimiter::Bracket => Delimiter::Bracket,
                    proc_macro2::Delimiter::None => Delimiter::Invisible,
                };
                TokenTree::Group { delimiter, stream: convert(g.stream(), next), span }
            }
            proc_macro2::TokenTree::Ident(i) => TokenTree::Ident(Ident::new(i.to_string(), span)),
            proc_macro2::TokenTree::Punct(p) => TokenTree::Punct {
                ch: p.as_char(),
                spacing: match p.spacing() {
                    proc_macro2::Spacing::Joint => Spacing::Joint,
                    proc_macro2::Spacing::Alone => Spacing::Alone,
                },
                span,
            },
            proc_macro2::TokenTree::Literal(l) => TokenTree::Literal { repr: l.to_string(), span },
        });
    }
    out
}

fn toks(src: &str) -> Vec<TokenTree> {
    let mut next = 0;
    convert(src.parse().unwrap(), &mut next)
}


fn render(ts: &[TokenTree]) -> String {
    let mut s = String::new();
    for t in ts {
        match t {
            TokenTree::Ident(i) => s.push_str(&i.name),
            TokenTree::Literal { repr, .. } => s.push_str(repr),
            TokenTree::Punct { ch, .. } => s.push(*ch),
            TokenTree::Group { delimiter, stream, .. } => {
                let (open, close) = match delimiter {
                    Delimiter::Parenthesis => ("(", ")"),
                    Delimiter::Brace => ("{", "}"),
                    Delimiter::Bracket => ("[", "]"),
                    Delimiter::Invisible => ("", ""),
                };
                s.push_str(open);
                s.push(' ');
                s.push_str(&render(stream));
                s.push_str(close);
            }
        }
        s.push(' ');
    }
    s
}

fn same_code(actual: &[TokenTree], expected: &str) {
    assert_eq!(render(actual), render(&toks(expected)));
}

use kosame_macro::clause::Field;
use kosame_macro::data_type::DataType;
use kosame_macro::derive::{derive_row, derive_row_input, write_tokens, DeriveData, DeriveRowError};
use kosame_macro::message::{derive_row_message, row_field_message};
use kosame_macro::emit::{decimal_text, quote, string_literal, suffixed_literal};
use kosame_macro::error::{ErrorKind, Expected, Keyword, ParseError};
use kosame_macro::mssql::Dialect;
use kosame_macro::path::{Path, PathExt};
use kosame_macro::record_struct::{RecordStruct, RecordStructField};
use kosame_macro::repr::QuoteOption;
use kosame_macro::row::{Features, Row, RowField, RowFieldErrorKind};
use kosame_macro::schema::{doc_attribute, to_docs_token_stream, Arrow, Column, CreateTable, Docs, NotNull, PrimaryKey, Relation};

const END: Span = Span { id: 1000 };

const NO_FEATURES: Features = Features { serde: false, serde_full: false, postgres: false, postgres_types: false };

fn path(src: &str) -> Path {
    Path::parse(&toks(src), END, 0).unwrap().0
}

fn ident(name: &str) -> Ident {
    Ident::new(name.to_string(), Span { id: 0 })
}

fn path_code(p: &Path) -> Vec<TokenTree> {
    let mut out = Vec::new();
    p.to_tokens(&mut out);
    out
}

#[test]
fn templates_splice_their_arguments_in_order() {
    let args = vec![toks("a + b"), toks("c")];
    let out = quote("f($) :: g { $ }", &args);
    same_code(&out, "f(a + b)::g { c }");
    match &out[2] {
        TokenTree::Punct { ch: ':', spacing: Spacing::Joint, .. } => {}
        other => panic!("{:?}", other),
    }
    let out = quote("x == y => 'a ..", &Vec::new());
    assert!(matches!(out[1], TokenTree::Punct { ch: '=', spacing: Spacing::Joint, .. }));
    assert!(matches!(out[4], TokenTree::Punct { ch: '=', spacing: Spacing::Joint, .. }));
    assert!(matches!(out[6], TokenTree::Punct { ch: '\'', spacing: Spacing::Joint, .. }));
    assert_eq!(out.len(), 10);
}

#[test]
fn string_literals_are_escaped() {
    match string_literal("say \"hi\"\n\\") {
        TokenTree::Literal { repr, span } => {
            assert_eq!(repr, "\"say \\\"hi\\\"\\n\\\\\"");
            assert_eq!(span, Span { id: 0 });
        }
        other => panic!("{:?}", other),
    }
}

#[test]
fn decimal_numbers() {
    assert_eq!(decimal_text(0), "0");
    assert_eq!(decimal_text(1234567890), "1234567890");
    match suffixed_literal(42, "u32") {
        TokenTree::Literal { repr, .. } => assert_eq!(repr, "42u32"),
        other => panic!("{:?}", other),
    }
}

#[test]
fn paths_at_the_call_site() {
    let p = path("schema::posts");
    assert!(!p.is_absolute());
    assert!(p.is_relative());
    same_code(&path_code(&p.to_call_site(2)), "super::super::schema::posts");
    same_code(&path_code(&path("::std::string::String").to_call_site(3)), "::std::string::String");
    same_code(&path_code(&path("crate::db::users").to_call_site(1)), "crate::db::users");
    let i = path("i64");
    assert!(i.is_primitive_type());
    same_code(&path_code(&i.to_call_site(1)), "i64");
    same_code(&path_code(&p.to_call_site(1).to_call_site(2)), "super::super::super::schema::posts");
}

#[test]
fn data_types() {
    let (d, q) = DataType::parse(&toks("text"), END, 0).unwrap();
    assert_eq!(q, 1);
    assert_eq!(d.name(), "text");
    let mut out = Vec::new();
    d.to_tokens(&mut out);
    same_code(&out, "::std::string::String");
    let mut out = Vec::new();
    DataType::Int(Span { id: 1 }).to_tokens(&mut out);
    same_code(&out, "i32");
    let e = DataType::parse(&toks("float"), END, 0).unwrap_err();
    assert_eq!(e, ParseError { kind: ErrorKind::Expected(Expected::DataType), span: Span { id: 1 } });
}

#[test]
fn column_module() {
    let t = toks("title text");
    let (c, q) = Column::parse(&t, END, 0).unwrap();
    assert_eq!(q, 2);
    assert_eq!(c.name().name, "title");
    assert!(matches!(c.data_type(), DataType::Text(_)));
    assert!(c.not_null.is_none());
    let mut out = Vec::new();
    c.to_tokens(&mut out);
    same_code(
        &out,
        "#[doc = r\" kosame column\"] pub mod title { pub const NAME: &str = \"title\"; pub type Type = ::std::string::String; }",
    );
}

#[test]
fn relation_module() {
    let t = toks("author: (author_id) => users (id)");
    let (r, q) = Relation::parse(&t, END, 0).unwrap();
    assert_eq!(q, t.len());
    assert_eq!(r.name().name, "author");
    assert!(matches!(r.arrow, Arrow::ManyToOne(_)));
    let mut out = Vec::new();
    r.to_tokens(&mut out);
    same_code(
        &out,
        "#[doc = r\" kosame relation\"] pub mod author {
            pub const NAME: &str = \"author\";
            pub mod source_columns { pub use super::super::super::columns::author_id; }
            pub mod target_table { pub use super::super::super::super::users::*; }
            pub mod target_columns { pub use super::target_table::columns::id; }
        }",
    );
    let (r, _) = Relation::parse(&toks("posts: (id, x) <= posts (author_id, y)"), END, 0).unwrap();
    assert!(matches!(r.arrow, Arrow::OneToMany(_)));
    assert_eq!(r.source_columns.columns.len(), 2);
    let e = Relation::parse(&toks("posts: (id) -> posts (author_id)"), END, 0).unwrap_err();
    assert_eq!(e, ParseError { kind: ErrorKind::Expected(Expected::Arrow), span: Span { id: 5 } });
}

#[test]
fn keyword_pairs() {
    let (c, q) = CreateTable::parse(&toks("create table posts"), END, 0).unwrap();
    assert_eq!(q, 2);
    assert_eq!(c.table, Span { id: 2 });
    assert!(NotNull::parse(&toks("not null"), END, 0).is_ok());
    assert!(PrimaryKey::parse(&toks("primary key"), END, 0).is_ok());
    let e = PrimaryKey::parse(&toks("primary"), END, 0).unwrap_err();
    assert_eq!(e, ParseError { kind: ErrorKind::Expected(Expected::Keyword(Keyword::Key)), span: END });
}

#[test]
fn derive_row_for_a_struct() {
    let data = DeriveData::Struct(vec![Some(ident("id")), Some(ident("title"))]);
    let out = derive_row(&ident("Post"), &data, NO_FEATURES).unwrap();
    assert!(out.is_empty());
    let out = derive_row(&ident("Post"), &data, Features { postgres: true, ..NO_FEATURES }).unwrap();
    same_code(
        &out,
        "impl From<&::kosame::driver::postgres_types::Row> for Post {
            fn from(row: &::kosame::driver::postgres_types::Row) -> Self { Self { id: row.get(0usize), title: row.get(1usize) } }
        }
        impl<'a> ::kosame::driver::postgres_types::FromSql<'a> for Post {
            fn accepts(ty: &::kosame::driver::postgres_types::Type) -> bool { ty.name() == \"record\" }
            fn from_sql(ty: &::kosame::driver::postgres_types::Type, raw: &[u8],) -> Result<Self, Box<dyn std::error::Error + Sync + Send>> {
                let column_count = ::kosame::driver::postgres_types::int4_from_sql(&raw[..4])?;
                assert_eq!(column_count, 2i32);
                let mut offset = 4;
                Ok(Self {
                    id: ::kosame::driver::postgres_types::record_field_from_sql(&raw, &mut offset)?,
                    title: ::kosame::driver::postgres_types::record_field_from_sql(&raw, &mut offset)?
                })
            }
        }",
    );
}

#[test]
fn derive_row_refuses_enums() {
    assert_eq!(derive_row(&ident("E"), &DeriveData::Enum, NO_FEATURES).unwrap_err(), DeriveRowError::NotAStruct);
    assert_eq!(derive_row(&ident("U"), &DeriveData::Union, NO_FEATURES).unwrap_err(), DeriveRowError::NotAStruct);
}

#[test]
fn record_struct_code() {
    let rs = RecordStruct::new(
        ident("RowPosts"),
        vec![RecordStructField::new(ident("id"), toks("i32")), RecordStructField::new(ident("body"), toks("String"))],
    );
    let mut out = Vec::new();
    rs.to_tokens(&mut out, Features { serde: true, ..NO_FEATURES });
    let text = render(&out);
    assert!(text.starts_with(&render(&toks(
        "#[derive(Debug, ::serde::Serialize)] pub struct RowPosts { pub id: i32, pub body: String, }"
    ))));
    assert!(text.contains(&render(&toks("impl From<::postgres::Row> for RowPosts"))));
    assert!(text.contains(&render(&toks("Self { id: row.get(0usize), body: row.get(1usize) }"))));
    assert!(text.contains(&render(&toks("assert_eq!(column_count, 2i32);"))));
    assert!(text.contains(&render(&toks("ty.name() == \"_record\""))));
}

#[test]
fn row_struct_code() {
    let row = Row::new(
        Vec::new(),
        ident("Row"),
        vec![RowField::new(Vec::new(), ident("id"), toks("i32"))],
    );
    let mut out = Vec::new();
    row.to_tokens(&mut out, Features { serde: true, serde_full: true, ..NO_FEATURES });
    same_code(&out, "#[derive(::kosame::Row, Debug, ::serde::Serialize, ::serde::Deserialize)] pub struct Row { pub id: i32, }");
}

fn field(src: &str) -> Field {
    Field::parse(&toks(src), END, 0).unwrap().0
}

#[test]
fn row_field_of_a_select_field() {
    let f = field("posts.title: my::Title");
    let rf = f.to_row_field().unwrap();
    assert_eq!(rf.name.name, "title");
    same_code(&rf.ty, "super::my::Title");
    let f = field("count(id) as n: i64");
    let rf = f.to_row_field().unwrap();
    assert_eq!(rf.name.name, "n");
    same_code(&rf.ty, "i64");
    assert!(f.infer_type().is_some());
}

#[test]
fn row_field_errors() {
    // count(1) (..)(2)
    let e = field("count(id): i64").to_row_field().unwrap_err();
    assert_eq!(e.kind, RowFieldErrorKind::NameNotInferred);
    assert_eq!((e.start, e.end), (Span { id: 1 }, Span { id: 2 }));
    let e = field("id").to_row_field().unwrap_err();
    assert_eq!(e.kind, RowFieldErrorKind::TypeOverrideRequired);
    assert_eq!((e.start, e.end), (Span { id: 1 }, Span { id: 1 }));
}

#[test]
fn sql_server_dialect() {
    assert_eq!(Dialect::ident_esc(), ("[", "]"));
    let mut s = String::from("where id = ");
    Dialect::fmt_bind_param(&mut s, "id", 0);
    assert_eq!(s, "where id = @id");
    assert_eq!(Dialect::SqlServer, Dialect::SqlServer);
}

struct Described;

impl Docs for Described {
    fn docs(&self) -> String {
        "A table of posts.".to_string()
    }
}

#[test]
fn doc_attributes() {
    same_code(&doc_attribute("x"), "#[doc = \"x\"]");
    same_code(&to_docs_token_stream(&Described), "#[doc = \"A table of posts.\"]");
}

#[test]
fn optional_code() {
    let mut out = Vec::new();
    QuoteOption(Some(toks("x"))).to_tokens(&mut out);
    QuoteOption(None).to_tokens(&mut out);
    same_code(&out, "::std::option::Option::Some(x) ::std::option::Option::None");
}

#[test]
fn type_annotation_code() {
    let t = toks(": my::Type");
    let (c, q) = kosame_macro::common::ColonType::parse(&t, END, 0).unwrap();
    assert_eq!(q, 5);
    let mut out = Vec::new();
    c.to_tokens(&mut out);
    same_code(&out, ": my::Type");
    assert!(matches!(out[0], TokenTree::Punct { ch: ':', span: Span { id: 1 }, .. }));
}

#[test]
fn derive_row_reads_the_item() {
    let input = toks("#[derive(Row)] pub struct Post { pub id: i32, title: Option<String>, }");
    let out = derive_row_input(&input, Features { postgres: true, ..NO_FEATURES }).unwrap().unwrap();
    let data = DeriveData::Struct(vec![Some(ident("id")), Some(ident("title"))]);
    let expected = derive_row(&ident("Post"), &data, Features { postgres: true, ..NO_FEATURES }).unwrap();
    assert_eq!(render(&out), render(&expected));
    assert!(render(&out).contains(&render(&toks("for Post"))));
    let out = derive_row_input(&input, NO_FEATURES).unwrap().unwrap();
    assert!(out.is_empty());
}

#[test]
fn derive_row_on_an_enum_or_garbage() {
    let input = toks("enum Colour { Red, Green }");
    assert_eq!(derive_row_input(&input, NO_FEATURES).unwrap().unwrap_err(), DeriveRowError::NotAStruct);
    assert_eq!(derive_row_message(DeriveRowError::NotAStruct), "#[derive(Row)] can only be used on structs.");
    assert!(derive_row_input(&toks("fn f() {}"), NO_FEATURES).is_none());
    assert!(derive_row_input(&toks("struct"), NO_FEATURES).is_none());
}

#[test]
fn written_tokens_read_back() {
    let input = toks("struct A<'a> { x: &'a [u8; 4], y: ::std::vec::Vec<i32>, }");
    let mut text = String::new();
    write_tokens(&input, &mut text);
    assert_eq!(render(&toks(&text)), render(&input));
}

#[test]
fn row_field_messages() {
    let (m, help) = row_field_message(RowFieldErrorKind::NameNotInferred);
    assert_eq!(m, "field name cannot be inferred");
    assert_eq!(help.unwrap(), "consider adding an alias using `as my_alias`");
    let (m, help) = row_field_message(RowFieldErrorKind::TypeOverrideRequired);
    assert_eq!(m, "field requires type override using `: RustType`");
    assert!(help.is_none());
}

#[test]
fn derive_row_keeps_the_input_spans() {
    // struct(1) Post(2) {..}(3) id(4) :(5) i32(6) ,(7) title(8) :(9) String(10)
    let input = toks("struct Post { id: i32, title: String }");
    let out = derive_row_input(&input, Features { postgres: true, ..NO_FEATURES }).unwrap().unwrap();
    let mut spans = Vec::new();
    collect_ident_spans(&out, &mut spans);
    assert!(spans.contains(&("Post".to_string(), Span { id: 2 })));
    assert!(spans.contains(&("id".to_string(), Span { id: 4 })));
    assert!(spans.contains(&("title".to_string(), Span { id: 8 })));
    assert!(!spans.contains(&("Post".to_string(), Span { id: 0 })));
}

fn collect_ident_spans(ts: &[TokenTree], out: &mut Vec<(String, Span)>) {
    for t in ts {
        match t {
            TokenTree::Ident(i) => out.push((i.name.clone(), i.span)),
            TokenTree::Group { stream, .. } => collect_ident_spans(stream, out),
            _ => {}
        }
    }
}

use kosame_macro::token::{Delimiter, Ident, Spacing, Span, TokenTree};

fn convert(stream: proc_macro2::TokenStream, next: &mut usize) -> Vec<TokenTree> {
    let mut out = Vec::new();
    for t in stream {
        *next += 1;
        let span = Span { id: *next };
        out.push(match t {
            proc_macro2::TokenTree::Group(g) => {
                let delimiter = match g.delimiter() {
                    proc_macro2::Delimiter::Parenthesis => Delimiter::Parenthesis,
                    proc_macro2::Delimiter::Brace => Delimiter::Brace,
                    proc_macro2::Delimiter::Bracket => Delimiter::Bracket,
                    proc_macro2::Delimiter::None => Delimiter::Invisible,
                };
                TokenTree::Group { delimiter, stream: convert(g.stream(), next), span }
            }
            proc_macro2::TokenTree::Ident(i) => TokenTree::Ident(Ident::new(i.to_string(), span)),
            proc_macro2::TokenTree::Punct(p) => TokenTree::Punct {
                ch: p.as_char(),
                spacing: match p.spacing() {
                    proc_macro2::Spacing::Joint => Spacing::Joint,
                    proc_macro2::Spacing::Alone => Spacing::Alone,
                },
                span,
            },
            proc_macro2::TokenTree::Literal(l) => TokenTree::Literal { repr: l.to_string(), span },
        });
    }
    out
}

fn toks(src: &str) -> Vec<TokenTree> {
    let mut next = 0;
    convert(src.parse().unwrap(), &mut next)
}


fn render(ts: &[TokenTree]) -> String {
    let mut s = String::new();
    for t in ts {
        match t {
            TokenTree::Ident(i) => s.push_str(&i.name),
            TokenTree::Literal { repr, .. } => s.push_str(repr),
            TokenTree::Punct { ch, .. } => s.push(*ch),
            TokenTree::Group { delimiter, stream, .. } => {
                let (open, close) = match delimiter {
                    Delimiter::Parenthesis => ("(", ")"),
                    Delimiter::Brace => ("{", "}"),
                    Delimiter::Bracket => ("[", "]"),
                    Delimiter::Invisible => ("", ""),
                };
                s.push_str(open);
                s.push(' ');
                s.push_str(&render(stream));
                s.push_str(close);
            }
        }
        s.push(' ');
    }
    s
}

fn same_code(actual: &[TokenTree], expected: &str) {
    assert_eq!(render(actual), render(&toks(expected)));
}

use kosame_macro::attribute::{is_known_driver, paths_same, CustomMeta, MetaItem, MetaLocation};
use kosame_macro::common::Attribute;
use kosame_macro::error::{ErrorKind, Expected, MetaArg, ParseError};
use kosame_macro::message::message;
use kosame_macro::path::Path;
use kosame_macro::token::peek_ident;

const END: Span = Span { id: 1000 };

fn meta(src: &str, location: MetaLocation) -> Result<CustomMeta, ParseError> {
    meta_reported(src, location).0
}

fn meta_reported(src: &str, location: MetaLocation) -> (Result<CustomMeta, ParseError>, Vec<ParseError>) {
    let t = toks(src);
    let (attrs, q) = if src.starts_with("#!") {
        Attribute::parse_inner(&t, END, 0).unwrap()
    } else {
        Attribute::parse_outer(&t, END, 0).unwrap()
    };
    assert_eq!(q, t.len());
    let mut diagnostics = Vec::new();
    let res = CustomMeta::parse_attrs(&attrs, location, &mut diagnostics);
    (res, diagnostics)
}

fn meta_message(src: &str, location: MetaLocation) -> String {
    message(meta(src, location).unwrap_err(), &toks(src))
}

fn path(src: &str) -> Path {
    Path::parse(&toks(src), END, 0).unwrap().0
}

#[test]
fn driver_of_a_query() {
    let m = meta("#![kosame(driver = \"postgres\")]", MetaLocation::QueryInner).unwrap();
    assert_eq!(m.driver.as_ref().unwrap().value, "postgres");
    assert!(!m.driver_missing(MetaLocation::QueryInner));
    let m = meta("#![doc = \"x\"]", MetaLocation::QueryInner).unwrap();
    assert!(m.driver_missing(MetaLocation::QueryInner));
    assert!(!m.driver_missing(MetaLocation::Column));
}

#[test]
fn driver_value_is_read_as_a_string_literal() {
    let m = meta("#![kosame(driver = \"tokio\\x2dpostgres\")]", MetaLocation::StatementInner).unwrap();
    assert_eq!(m.driver.unwrap().value, "tokio-postgres");
    let m = meta("#![kosame(driver = r\"postgres\")]", MetaLocation::TableInner).unwrap();
    assert_eq!(m.driver.unwrap().value, "postgres");
}

#[test]
fn unknown_driver() {
    // #(1) !(2) [..](3) kosame(4) (..)(5) driver(6) =(7) "mysql"(8)
    let e = meta("#![kosame(driver = \"mysql\")]", MetaLocation::QueryInner).unwrap_err();
    assert_eq!(e, ParseError { kind: ErrorKind::UnknownDriver, span: Span { id: 8 } });
    let e = meta("#![kosame(driver = 5)]", MetaLocation::QueryInner).unwrap_err();
    assert_eq!(e, ParseError { kind: ErrorKind::Expected(Expected::StrLiteral), span: Span { id: 8 } });
    assert!(is_known_driver("postgres"));
    assert!(is_known_driver("tokio-postgres"));
    assert!(!is_known_driver("sqlite"));
}

#[test]
fn duplicate_meta() {
    // #(1) [..](2) kosame(3) (..)(4) rename(5) =(6) a(7) ,(8) rename(9)
    let e = meta("#[kosame(rename = a, rename = b)]", MetaLocation::Column).unwrap_err();
    assert_eq!(e, ParseError { kind: ErrorKind::DuplicateMeta(MetaArg::Rename), span: Span { id: 9 } });
    let e = meta("#[kosame(ty = i64)] #[kosame(ty = i32)]", MetaLocation::Column).unwrap_err();
    assert_eq!(e.kind, ErrorKind::DuplicateMeta(MetaArg::Ty));
}

#[test]
fn meta_in_the_wrong_place() {
    let e = meta("#[kosame(rename = a)]", MetaLocation::QueryOuter).unwrap_err();
    assert_eq!(e, ParseError { kind: ErrorKind::MetaNotAllowed(MetaArg::Rename), span: Span { id: 5 } });
    let e = meta("#[kosame(driver = \"postgres\")]", MetaLocation::Column).unwrap_err();
    assert_eq!(e.kind, ErrorKind::MetaNotAllowed(MetaArg::Driver));
}

#[test]
fn column_meta() {
    let m = meta("#[kosame(rename = post_title, ty = ::std::string::String,)]", MetaLocation::Column).unwrap();
    assert_eq!(m.rename.unwrap().value.name, "post_title");
    assert!(m.type_override.is_some());
    assert_eq!(m.pass, 0);
}

#[test]
fn pass_numbers() {
    let m = meta("#[kosame(__pass = 3)]", MetaLocation::QueryOuter).unwrap();
    assert_eq!(m.pass, 3);
    let m = meta("#[kosame(__pass = 0x10)]", MetaLocation::QueryOuter).unwrap();
    assert_eq!(m.pass, 16);
    let m = meta("#[kosame(__pass = 1, __pass = 2)]", MetaLocation::QueryOuter).unwrap();
    assert_eq!(m.pass, 2);
    // #(1) [..](2) kosame(3) (..)(4) __pass(5) =(6) -(7) 1(8)
    let e = meta("#[kosame(__pass = -1)]", MetaLocation::QueryOuter).unwrap_err();
    assert_eq!(e, ParseError { kind: ErrorKind::InvalidInteger, span: Span { id: 7 } });
    let e = meta("#[kosame(__pass = 99999999999)]", MetaLocation::QueryOuter).unwrap_err();
    assert_eq!(e, ParseError { kind: ErrorKind::IntegerTooLarge, span: Span { id: 7 } });
    let e = meta("#[kosame(__pass = \"1\")]", MetaLocation::QueryOuter).unwrap_err();
    assert_eq!(e, ParseError { kind: ErrorKind::Expected(Expected::IntLiteral), span: Span { id: 7 } });
    let e = meta("#[kosame(__pass = 1.5)]", MetaLocation::QueryOuter).unwrap_err();
    assert_eq!(e.kind, ErrorKind::Expected(Expected::IntLiteral));
    let e = meta("#[kosame(__pass = x)]", MetaLocation::QueryOuter).unwrap_err();
    assert_eq!(e, ParseError { kind: ErrorKind::Expected(Expected::IntLiteral), span: Span { id: 7 } });
    let m = meta("#[kosame(__pass = 7u8)]", MetaLocation::QueryOuter).unwrap();
    assert_eq!(m.pass, 7);
}

#[test]
fn pass_messages() {
    assert_eq!(meta_message("#[kosame(__pass = -1)]", MetaLocation::QueryOuter), "invalid digit found in string");
    assert_eq!(
        meta_message("#[kosame(__pass = 99999999999)]", MetaLocation::QueryOuter),
        "number too large to fit in target type"
    );
    assert_eq!(meta_message("#[kosame(__pass = \"1\")]", MetaLocation::QueryOuter), "expected integer literal");
    // The literal is refused while the arguments are read, before a repeated
    // argument is found.
    assert_eq!(
        meta_message("#[kosame(rename = a, rename = b, __pass = \"1\")]", MetaLocation::Column),
        "expected integer literal"
    );
}

#[test]
fn tables_handed_over() {
    let m = meta(
        "#[kosame(__table(schema::posts = a b), __table(users = c), __table(schema::posts = d))]",
        MetaLocation::QueryOuter,
    )
    .unwrap();
    assert_eq!(m.tables.len(), 2);
    assert!(paths_same(&m.tables[0].path, &path("schema::posts")));
    same_code(&m.tables[0].value, "d");
    same_code(&m.tables[1].value, "c");
}

#[test]
fn path_equality_ignores_spans_and_compares_generics() {
    assert!(paths_same(&path("a::b"), &path("a::b")));
    assert!(!paths_same(&path("a::b"), &path("::a::b")));
    assert!(!paths_same(&path("a::b"), &path("a::c")));
    assert!(paths_same(&path("a<T>"), &path("a<T>")));
    assert!(paths_same(&path("a::<Vec<u8>>"), &path("a::<Vec<u8>>")));
    assert!(!paths_same(&path("a<T>"), &path("a<U>")));
    assert!(!paths_same(&path("a<T>"), &path("a")));
    assert!(!paths_same(&path("a<T>"), &path("a::<T>")));
}

#[test]
fn malformed_kosame_attributes() {
    let e = meta("#[kosame = 1]", MetaLocation::Column).unwrap_err();
    assert_eq!(e, ParseError { kind: ErrorKind::ExpectedList(false), span: Span { id: 4 } });
    let e = meta("#[kosame(colour = 1)]", MetaLocation::Column).unwrap_err();
    assert_eq!(e, ParseError { kind: ErrorKind::Expected(Expected::MetaItem), span: Span { id: 5 } });
    let e = meta("#[kosame(rename = a b)]", MetaLocation::Column).unwrap_err();
    assert_eq!(e, ParseError { kind: ErrorKind::Expected(Expected::Punct(',')), span: Span { id: 8 } });
    let m = meta("#[other(rename = a)]", MetaLocation::QueryOuter).unwrap();
    assert!(m.rename.is_none());
}

#[test]
fn one_meta_item() {
    let t = toks("driver = \"postgres\"");
    let (item, q) = MetaItem::parse(&t, END, 0).unwrap();
    assert_eq!(q, 3);
    assert!(matches!(item, MetaItem::Driver(_)));
}

#[test]
fn equal_attributes_read_the_same() {
    let t = toks("#[kosame(rename = a, ty = x::Y)]");
    let (attrs, _) = Attribute::parse_outer(&t, END, 0).unwrap();
    let copy: Vec<Attribute> = attrs.iter().map(|a| a.duplicate()).collect();
    let m1 = CustomMeta::parse_attrs(&attrs, MetaLocation::Column, &mut Vec::new()).unwrap();
    let m2 = CustomMeta::parse_attrs(&copy, MetaLocation::Column, &mut Vec::new()).unwrap();
    assert_eq!(m1.rename.unwrap().value.name, m2.rename.unwrap().value.name);
    assert!(paths_same(&m1.type_override.unwrap().value, &m2.type_override.unwrap().value));
}

#[test]
fn missing_driver_is_reported_at_inner_locations() {
    for location in [MetaLocation::TableInner, MetaLocation::QueryInner, MetaLocation::StatementInner] {
        let (res, reported) = meta_reported("#![doc = \"x\"]", location);
        assert!(res.unwrap().driver.is_none());
        assert_eq!(reported.len(), 1);
        assert_eq!(reported[0].kind, ErrorKind::MissingDriver);
        assert_eq!(
            message(reported[0], &toks("")),
            "missing `driver` attribute, e.g. #[kosame(driver = \"tokio-postgres\")]"
        );
    }
    for location in [MetaLocation::TableOuter, MetaLocation::QueryOuter, MetaLocation::Column] {
        let (res, reported) = meta_reported("#[doc = \"x\"]", location);
        assert!(res.is_ok());
        assert!(reported.is_empty());
    }
    let (res, reported) = meta_reported("#![kosame(driver = \"postgres\")]", MetaLocation::QueryInner);
    assert!(res.is_ok());
    assert!(reported.is_empty());
    let (res, reported) = meta_reported("#![kosame(driver = \"mysql\")]", MetaLocation::QueryInner);
    assert!(res.is_err());
    assert!(reported.is_empty());
}

#[test]
fn meta_messages_name_the_argument() {
    assert_eq!(
        meta_message("#[kosame(driver = \"tokio-postgres\")]", MetaLocation::Column),
        "meta argument `driver` not allowed in this location"
    );
    assert_eq!(
        meta_message("#[kosame(rename = a)]", MetaLocation::QueryOuter),
        "meta argument `rename` not allowed in this location"
    );
    assert_eq!(
        meta_message("#[kosame(ty = i32)]", MetaLocation::TableOuter),
        "meta argument `ty` not allowed in this location"
    );
    assert_eq!(
        meta_message("#[kosame(rename = a, rename = b)]", MetaLocation::Column),
        "duplicate use of meta argument `rename`"
    );
    assert_eq!(
        meta_message("#[kosame(rename = a)] #[kosame(rename = b)]", MetaLocation::Column),
        "duplicate use of meta argument `rename`"
    );
    assert_eq!(
        meta_message("#![kosame(driver = \"mysql\")]", MetaLocation::QueryInner),
        "unknown driver value"
    );
}

#[test]
fn other_attributes_are_passed_over() {
    let plain = meta("#[kosame(rename = a)]", MetaLocation::Column).unwrap();
    let mixed = meta(
        "#[doc = \"x\"] #[serde(skip)] #[kosame(rename = a)] #[a::kosame(rename = b)] #[kosame::x]",
        MetaLocation::Column,
    )
    .unwrap();
    assert_eq!(plain.rename.unwrap().value.name, mixed.rename.unwrap().value.name);
    assert!(mixed.type_override.is_none());
    assert_eq!(mixed.pass, 0);
    let e1 = meta("#[kosame(driver = \"postgres\")]", MetaLocation::Column).unwrap_err();
    let e2 = meta("#[doc = \"x\"] #[kosame(driver = \"postgres\")]", MetaLocation::Column).unwrap_err();
    assert_eq!(e1.kind, e2.kind);
}

#[test]
fn keywords_are_not_names() {
    assert!(peek_ident(&toks("name"), 0));
    assert!(peek_ident(&toks("r#match"), 0));
    assert!(!peek_ident(&toks("match"), 0));
    assert!(!peek_ident(&toks("_"), 0));
    assert!(!peek_ident(&toks("Self"), 0));
    assert!(!peek_ident(&toks("yield"), 0));
}

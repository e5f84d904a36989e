use kosame_macro::token::{Delimiter, Ident, Spacing, Span, TokenTree};

fn convert(stream: proc_macro2::TokenStream, next: &mut usize) -> Vec<TokenTree> {
    let mut out = Vec::new();
    for t in stream {
        *next += 1;
        let span = Span { id: *next };
        out.push(match t {
            proc_macro2::TokenTree::Group(g) => {
                let delimiter = match g.delimiter() {
                    proc_macro2::Delimiter::Parenthesis => Delimiter::Parenthesis,
                    proc_macro2::Delimiter::Brace => Delimiter::Brace,
                    proc_macro2::Delimiter::Bracket => Delimiter::Bracket,
                    proc_macro2::Delimiter::None => Delimiter::Invisible,
                };
                TokenTree::Group { delimiter, stream: convert(g.stream(), next), span }
            }
            proc_macro2::TokenTree::Ident(i) => TokenTree::Ident(Ident::new(i.to_string(), span)),
            proc_macro2::TokenTree::Punct(p) => TokenTree::Punct {
                ch: p.as_char(),
                spacing: match p.spacing() {
                    proc_macro2::Spacing::Joint => Spacing::Joint,
                    proc_macro2::Spacing::Alone => Spacing::Alone,
                },
                span,
            },
            proc_macro2::TokenTree::Literal(l) => TokenTree::Literal { repr: l.to_string(), span },
        });
    }
    out
}

fn toks(src: &str) -> Vec<TokenTree> {
    let mut next = 0;
    convert(src.parse().unwrap(), &mut next)
}


fn render(ts: &[TokenTree]) -> String {
    let mut s = String::new();
    for t in ts {
        match t {
            TokenTree::Ident(i) => s.push_str(&i.name),
            TokenTree::Literal { repr, .. } => s.push_str(repr),
            TokenTree::Punct { ch, .. } => s.push(*ch),
            TokenTree::Group { delimiter, stream, .. } => {
                let (open, close) = match delimiter {
                    Delimiter::Parenthesis => ("(", ")"),
                    Delimiter::Brace => ("{", "}"),
                    Delimiter::Bracket => ("[", "]"),
                    Delimiter::Invisible => ("", ""),
                };
                s.push_str(open);
                s.push(' ');
                s.push_str(&render(stream));
                s.push_str(close);
            }
        }
        s.push(' ');
    }
    s
}

fn same_code(actual: &[TokenTree], expected: &str) {
    assert_eq!(render(actual), render(&toks(expected)));
}

use kosame_macro::clause::{JoinType, SetItem, ValuesItem};
use kosame_macro::command::{Command, FromItem, Insert};
use kosame_macro::error::{ErrorKind, Expected, Keyword, ParseError};
use kosame_macro::expr::Expr;
use kosame_macro::query::bind_params::BindParamsBuilder;

const END: Span = Span { id: 1000 };

fn command(src: &str) -> Result<(Command, usize), ParseError> {
    Command::parse(&toks(src), END, 0)
}

fn names(params: &[Ident]) -> Vec<String> {
    params.iter().map(|i| i.name.clone()).collect()
}

#[test]
fn select_with_every_clause() {
    let src = "select a, b as c from posts where a = 1 group by a order by a desc nulls last limit 10 offset 5";
    let (cmd, q) = command(src).unwrap();
    assert_eq!(q, toks(src).len());
    match cmd {
        Command::Select(s) => {
            assert_eq!(s.select.fields.0.len(), 2);
            assert_eq!(s.select.fields.0[1].infer_name().unwrap().name, "c");
            assert!(matches!(s.from.as_ref().unwrap().item, FromItem::Table { .. }));
            assert!(s.where_clause.is_some());
            assert_eq!(s.group_by.as_ref().unwrap().items.len(), 1);
            assert!(s.having.is_none());
            assert_eq!(s.order_by.as_ref().unwrap().items.len(), 1);
            assert!(s.limit.is_some());
            assert!(s.offset.is_some());
        }
        other => panic!("{:?}", other),
    }
}

#[test]
fn having_is_looked_for_where_a_where_stands() {
    // The select ends before `having`: a `having` clause is expected after
    // `group by` only where a `where` follows, and then the keyword is missing.
    let src = "select a from t group by a having count(a) > 1";
    let (_, q) = command(src).unwrap();
    assert_eq!(q, 7);
    // select(1) a(2) from(3) t(4) group(5) by(6) a(7) where(8)
    let e = command("select a from t group by a where a > 1").unwrap_err();
    assert_eq!(e, ParseError { kind: ErrorKind::Expected(Expected::Keyword(Keyword::Having)), span: Span { id: 8 } });
}

#[test]
fn joins_nest_to_the_left() {
    let (cmd, _) = command("select a from posts left join comments on true inner join users on false").unwrap();
    match cmd {
        Command::Select(s) => match &s.from.as_ref().unwrap().item {
            FromItem::Join { left, join_type, right, .. } => {
                assert!(matches!(join_type, JoinType::Inner(..)));
                assert!(matches!(**right, FromItem::Table { .. }));
                assert!(matches!(**left, FromItem::Join { join_type: JoinType::Left(..), .. }));
            }
            other => panic!("{:?}", other),
        },
        other => panic!("{:?}", other),
    }
}

#[test]
fn natural_and_cross_joins_and_subqueries() {
    let (cmd, _) = command("select a from posts natural left join comments cross join (select b from users) as u").unwrap();
    match cmd {
        Command::Select(s) => match &s.from.as_ref().unwrap().item {
            FromItem::CrossJoin { left, right, .. } => {
                assert!(matches!(**left, FromItem::NaturalJoin { .. }));
                match &**right {
                    FromItem::Subquery { alias, .. } => assert_eq!(alias.as_ref().unwrap().name.name, "u"),
                    other => panic!("{:?}", other),
                }
            }
            other => panic!("{:?}", other),
        },
        other => panic!("{:?}", other),
    }
}

#[test]
fn delete_and_update_commands() {
    let (cmd, _) = command("delete from posts using users where posts.author = users.id returning posts.id").unwrap();
    match cmd {
        Command::Delete(d) => {
            assert!(d.table.is_ident("posts"));
            assert!(d.using.is_some());
            assert!(d.returning.is_some());
        }
        other => panic!("{:?}", other),
    }
    let (cmd, _) = command("update posts set title = :title, views = default where id = :id").unwrap();
    match cmd {
        Command::Update(u) => {
            assert_eq!(u.set.items.len(), 2);
            assert!(matches!(u.set.items[0], SetItem::Expr { .. }));
            assert!(matches!(u.set.items[1], SetItem::Default { .. }));
        }
        other => panic!("{:?}", other),
    }
}

#[test]
fn attributes_before_a_command() {
    let (cmd, _) = command("#[doc = \"x\"] select 1").unwrap();
    assert_eq!(cmd.attrs().len(), 1);
    assert_eq!(cmd.fields().unwrap().0.len(), 1);
    let (cmd, _) = command("delete from posts").unwrap();
    assert!(cmd.fields().is_none());
}

#[test]
fn not_a_command() {
    let e = command("insert into posts values (1)").unwrap_err();
    assert_eq!(e, ParseError { kind: ErrorKind::Expected(Expected::Command), span: Span { id: 1 } });
    let e = command("").unwrap_err();
    assert_eq!(e, ParseError { kind: ErrorKind::Expected(Expected::Command), span: END });
}

#[test]
fn insert_with_values() {
    let t = toks("insert into posts values (1, default), (:a, 2) returning id");
    let (ins, q) = Insert::parse(&t, END, 0).unwrap();
    assert_eq!(q, t.len());
    assert_eq!(ins.values.rows.len(), 2);
    assert!(matches!(ins.values.rows[0].items[1], ValuesItem::Default(_)));
    assert!(matches!(ins.values.rows[1].items[0], ValuesItem::Expr(Expr::BindParam(_))));
    assert!(ins.returning.is_some());
}

#[test]
fn empty_lists_are_refused() {
    let e = command("select a from t group by").unwrap_err();
    assert_eq!(e.kind, ErrorKind::EmptyGroupBy);
    let e = command("select a from t order by").unwrap_err();
    assert_eq!(e.kind, ErrorKind::EmptyOrderBy);
    let e = Insert::parse(&toks("insert into t values"), END, 0).unwrap_err();
    assert_eq!(e.kind, ErrorKind::EmptyValues);
}

#[test]
fn missing_keywords() {
    let e = command("delete posts").unwrap_err();
    assert_eq!(e, ParseError { kind: ErrorKind::Expected(Expected::Keyword(Keyword::From)), span: Span { id: 2 } });
}

#[test]
fn bind_params_are_collected_once_in_order_of_first_use() {
    let (cmd, _) = command("select :b, :a from t where x = :b and y = :c").unwrap();
    let mut builder = BindParamsBuilder::new();
    cmd.accept(&mut builder);
    let params = builder.build();
    assert_eq!(names(params.params()), vec!["b", "a", "c"]);
    assert!(!params.is_empty());
}

#[test]
fn no_bind_params() {
    let (cmd, _) = command("select a from t").unwrap();
    let mut builder = BindParamsBuilder::new();
    cmd.accept(&mut builder);
    assert!(builder.build().is_empty());
}

#[test]
fn update_visits_set_then_where() {
    let (cmd, _) = command("update t set a = :x, b = :y where c = :x returning :z").unwrap();
    let mut builder = BindParamsBuilder::new();
    cmd.accept(&mut builder);
    assert_eq!(names(builder.build().params()), vec!["x", "y", "z"]);
}

#[test]
fn select_code() {
    let (cmd, _) = command("select a from posts").unwrap();
    let mut out = Vec::new();
    match &cmd {
        Command::Select(s) => s.to_tokens(&mut out),
        _ => unreachable!(),
    }
    same_code(
        &out,
        "{ const select: ::kosame::repr::command::Select<'static> = ::kosame::repr::command::Select::new(
            ::kosame::repr::clause::Select::new(::kosame::repr::clause::Fields::new(&[
                ::kosame::repr::clause::Field::new(::kosame::repr::expr::Expr::ColumnRef(
                    ::kosame::repr::expr::ColumnRef::new(::core::option::Option::None, scope::a::COLUMN_NAME)), None)])),
            ::std::option::Option::Some(::kosame::repr::clause::From::new(
                ::kosame::repr::clause::FromItem::Table { table: &super::posts::TABLE, alias: ::std::option::Option::None, })),
            ::std::option::Option::None, ::std::option::Option::None, ::std::option::Option::None,
            ::std::option::Option::None, ::std::option::Option::None, ::std::option::Option::None,); select }",
    );
}

#[test]
fn delete_code() {
    let (cmd, _) = command("delete from posts where id = :id").unwrap();
    let mut out = Vec::new();
    cmd.to_tokens(&mut out);
    same_code(
        &out,
        "::kosame::repr::command::Command::Delete({ ::kosame::repr::command::Delete::new(&super::posts::TABLE,
            ::std::option::Option::None,
            ::std::option::Option::Some(::kosame::repr::clause::Where::new(::kosame::repr::expr::Expr::Binary(
                ::kosame::repr::expr::Binary::new(
                    &::kosame::repr::expr::Expr::ColumnRef(::kosame::repr::expr::ColumnRef::new(::core::option::Option::None, scope::id::COLUMN_NAME)),
                    ::kosame::repr::expr::BinOp::Eq,
                    &::kosame::repr::expr::Expr::BindParam(params::id::BIND_PARAM))))),
            ::std::option::Option::None,) })",
    );
}

#[test]
fn literals_in_code() {
    let t = toks("-3");
    let (e, _) = Expr::parse(&t, END, 0).unwrap();
    let mut out = Vec::new();
    e.to_tokens(&mut out);
    assert!(render(&out).starts_with(": : kosame : : repr : : expr : : Expr : : Lit"));
    assert!(render(&out).contains("Lit : : Int ( -3 as i64 )"));
    let t = toks("\"hi\"");
    let (e, _) = Expr::parse(&t, END, 0).unwrap();
    let mut out = Vec::new();
    e.to_tokens(&mut out);
    same_code(&out, "::kosame::repr::expr::Expr::Lit(::kosame::repr::expr::Lit::Str(\"hi\"))");
}

#[test]
fn a_whole_statement() {
    assert!(Command::parse_input(&toks("select a from t"), END).is_ok());
    // select(1) a(2) from(3) t(4) x(5) y(6); `x` is the alias of `t`
    let e = Command::parse_input(&toks("select a from t x y"), END).unwrap_err();
    assert_eq!(e, ParseError { kind: ErrorKind::UnexpectedToken, span: Span { id: 6 } });
}

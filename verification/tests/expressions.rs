use kosame_macro::error::{ErrorKind, Expected, Keyword, ParseError};
use kosame_macro::expr::{parse_prefix, Associativity, BinOp, Expr, Lit, UnaryOp};
use kosame_macro::message::message;
use kosame_macro::token::{Delimiter, Ident, Spacing, Span, TokenTree};

fn convert(stream: proc_macro2::TokenStream, next: &mut usize) -> Vec<TokenTree> {
    let mut out = Vec::new();
    for t in stream {
        *next += 1;
        let span = Span { id: *next };
        out.push(match t {
            proc_macro2::TokenTree::Group(g) => {
                let delimiter = match g.delimiter() {
                    proc_macro2::Delimiter::Parenthesis => Delimiter::Parenthesis,
                    proc_macro2::Delimiter::Brace => Delimiter::Brace,
                    proc_macro2::Delimiter::Bracket => Delimiter::Bracket,
                    proc_macro2::Delimiter::None => Delimiter::Invisible,
                };
                TokenTree::Group { delimiter, stream: convert(g.stream(), next), span }
            }
            proc_macro2::TokenTree::Ident(i) => TokenTree::Ident(Ident::new(i.to_string(), span)),
            proc_macro2::TokenTree::Punct(p) => TokenTree::Punct {
                ch: p.as_char(),
                spacing: match p.spacing() {
                    proc_macro2::Spacing::Joint => Spacing::Joint,
                    proc_macro2::Spacing::Alone => Spacing::Alone,
                },
                span,
            },
            proc_macro2::TokenTree::Literal(l) => TokenTree::Literal { repr: l.to_string(), span },
        });
    }
    out
}

fn toks(src: &str) -> Vec<TokenTree> {
    let mut next = 0;
    convert(src.parse().unwrap(), &mut next)
}

const END: Span = Span { id: 1000 };

fn parse(src: &str) -> Result<(Expr, usize), ParseError> {
    Expr::parse(&toks(src), END, 0)
}

fn column_name(e: &Expr) -> String {
    match e {
        Expr::ColumnRef(c) => c.name.name.clone(),
        other => panic!("not a column: {:?}", other),
    }
}

#[test]
fn multiplication_binds_tighter_than_addition() {
    let (e, q) = parse("a + b * c").unwrap();
    assert_eq!(q, 5);
    match e {
        Expr::Binary(b) => {
            assert!(matches!(b.op, BinOp::Add(_)));
            assert_eq!(column_name(&b.lhs), "a");
            match *b.rhs {
                Expr::Binary(inner) => {
                    assert!(matches!(inner.op, BinOp::Multiply(_)));
                    assert_eq!(column_name(&inner.lhs), "b");
                    assert_eq!(column_name(&inner.rhs), "c");
                }
                other => panic!("{:?}", other),
            }
        }
        other => panic!("{:?}", other),
    }
}

#[test]
fn operators_of_equal_precedence_group_to_the_left() {
    let (e, _) = parse("a - b - c").unwrap();
    match e {
        Expr::Binary(b) => {
            assert!(matches!(b.op, BinOp::Subtract(_)));
            assert_eq!(column_name(&b.rhs), "c");
            match *b.lhs {
                Expr::Binary(inner) => {
                    assert_eq!(column_name(&inner.lhs), "a");
                    assert_eq!(column_name(&inner.rhs), "b");
                }
                other => panic!("{:?}", other),
            }
        }
        other => panic!("{:?}", other),
    }
}

#[test]
fn and_binds_tighter_than_or() {
    let (e, _) = parse("a or b and c").unwrap();
    match e {
        Expr::Binary(b) => {
            assert!(matches!(b.op, BinOp::Or(_)));
            assert!(matches!(*b.rhs, Expr::Binary(ref inner) if matches!(inner.op, BinOp::And(_))));
        }
        other => panic!("{:?}", other),
    }
}

#[test]
fn not_takes_a_comparison_but_not_a_conjunction() {
    let (e, _) = parse("not a = b").unwrap();
    match e {
        Expr::Unary(u) => assert!(matches!(*u.operand, Expr::Binary(ref b) if matches!(b.op, BinOp::Eq(_)))),
        other => panic!("{:?}", other),
    }
    let (e, _) = parse("not a and b").unwrap();
    match e {
        Expr::Binary(b) => {
            assert!(matches!(b.op, BinOp::And(_)));
            assert!(matches!(*b.lhs, Expr::Unary(_)));
        }
        other => panic!("{:?}", other),
    }
}

#[test]
fn precedences_follow_the_postgres_table() {
    let s = Span { id: 1 };
    assert_eq!(BinOp::Multiply(s).precedence(), 9);
    assert_eq!(BinOp::Subtract(s).precedence(), 8);
    assert_eq!(BinOp::LessThanOrEq(s, s).precedence(), 5);
    assert_eq!(BinOp::IsDistinctFrom(s, s, s).precedence(), 4);
    assert_eq!(BinOp::And(s).precedence(), 2);
    assert_eq!(BinOp::Or(s).precedence(), 1);
    assert_eq!(UnaryOp::Not(s).precedence(), 3);
    assert_eq!(BinOp::Add(s).associativity(), Associativity::Left);
}

#[test]
fn two_and_three_token_operators() {
    let t = toks("<= x");
    let (op, q) = BinOp::parse(&t, END, 0).unwrap();
    assert!(matches!(op, BinOp::LessThanOrEq(_, _)));
    assert_eq!(q, 2);
    let t = toks("is not distinct");
    let (op, q) = BinOp::parse(&t, END, 0).unwrap();
    assert!(matches!(op, BinOp::IsNot(_, _)));
    assert_eq!(q, 2);
    let t = toks("is distinct from");
    let (op, q) = BinOp::parse(&t, END, 0).unwrap();
    assert!(matches!(op, BinOp::IsDistinctFrom(_, _, _)));
    assert_eq!(q, 3);
    let t = toks("<> 1");
    let (op, _) = BinOp::parse(&t, END, 0).unwrap();
    assert!(matches!(op, BinOp::Uneq(_, _)));
}

#[test]
fn not_an_operator() {
    let t = toks("x");
    let e = BinOp::parse(&t, END, 0).unwrap_err();
    assert_eq!(e.kind, ErrorKind::Expected(Expected::BinaryOperator));
}

#[test]
fn literal_kinds() {
    assert!(matches!(Lit::parse(&toks("42"), END, 0).unwrap().0, Lit::Int(_)));
    assert!(matches!(Lit::parse(&toks("1.5"), END, 0).unwrap().0, Lit::Float(_)));
    assert!(matches!(Lit::parse(&toks("\"text\""), END, 0).unwrap().0, Lit::Str(_)));
    assert!(matches!(Lit::parse(&toks("true"), END, 0).unwrap().0, Lit::Bool(_)));
    assert!(matches!(Lit::parse(&toks("null"), END, 0).unwrap().0, Lit::Null(_)));
    let (lit, q) = Lit::parse(&toks("-7"), END, 0).unwrap();
    assert_eq!(q, 2);
    match lit {
        Lit::Int(t) => {
            assert_eq!(t.minus, Some(Span { id: 1 }));
            assert_eq!(t.repr, "7");
        }
        other => panic!("{:?}", other),
    }
}

#[test]
fn unsupported_literals() {
    let e = Lit::parse(&toks("'c'"), END, 0).unwrap_err();
    assert_eq!(e, ParseError { kind: ErrorKind::UnsupportedLiteral, span: Span { id: 1 } });
    let e = Lit::parse(&toks("b\"bytes\""), END, 0).unwrap_err();
    assert_eq!(e.kind, ErrorKind::UnsupportedLiteral);
    let e = Lit::parse(&toks("name"), END, 0).unwrap_err();
    assert_eq!(e.kind, ErrorKind::Expected(Expected::Literal));
    let e = Lit::parse(&toks(""), END, 0).unwrap_err();
    assert_eq!(e, ParseError { kind: ErrorKind::Expected(Expected::Literal), span: END });
}

#[test]
fn bind_params_calls_and_casts() {
    match parse(":user_id").unwrap().0 {
        Expr::BindParam(b) => assert_eq!(b.name().name, "user_id"),
        other => panic!("{:?}", other),
    }
    match parse("coalesce(a, 1, :b)").unwrap().0 {
        Expr::Call(c) => {
            assert_eq!(c.function.name, "coalesce");
            assert_eq!(c.params.len(), 3);
        }
        other => panic!("{:?}", other),
    }
    match parse("cast(a as text)").unwrap().0 {
        Expr::Cast(c) => assert_eq!(column_name(&c.value), "a"),
        other => panic!("{:?}", other),
    }
    match parse("(a)").unwrap().0 {
        Expr::Paren(p) => assert_eq!(column_name(&p.expr), "a"),
        other => panic!("{:?}", other),
    }
}

#[test]
fn column_references_with_a_correlation() {
    match parse("posts.title").unwrap().0 {
        Expr::ColumnRef(c) => {
            assert_eq!(c.correlation.as_ref().unwrap().name.name, "posts");
            assert_eq!(c.name.name, "title");
        }
        other => panic!("{:?}", other),
    }
    let e = parse("posts.").unwrap_err();
    assert_eq!(e, ParseError { kind: ErrorKind::Expected(Expected::Expression), span: Span { id: 1 } });
}

#[test]
fn missing_expression() {
    let e = parse("").unwrap_err();
    assert_eq!(e, ParseError { kind: ErrorKind::Expected(Expected::Expression), span: END });
    let e = parse("a +").unwrap_err();
    assert_eq!(e.kind, ErrorKind::Expected(Expected::Expression));
}

#[test]
fn inferred_names() {
    let (e, _) = parse("posts.title").unwrap();
    assert_eq!(e.infer_name().unwrap().name, "title");
    let (e, _) = parse("cast(views as int)").unwrap();
    assert_eq!(e.infer_name().unwrap().name, "views");
    let (e, _) = parse("1 + 2").unwrap();
    assert!(e.infer_name().is_none());
    let (e, _) = parse("count(a)").unwrap();
    assert!(e.infer_name().is_none());
}

#[test]
fn span_bounds_of_expressions() {
    // a(1) +(2) b(3)
    let (e, _) = parse("a + b").unwrap();
    assert_eq!(e.span(), (Span { id: 1 }, Span { id: 3 }));
    // t(1) .(2) c(3)
    let (e, _) = parse("t.c").unwrap();
    assert_eq!(e.span(), (Span { id: 1 }, Span { id: 3 }));
    // not(1) x(2)
    let (e, _) = parse("not x").unwrap();
    assert_eq!(e.span(), (Span { id: 1 }, Span { id: 2 }));
    // f(1) (..)(2)
    let (e, _) = parse("f(x)").unwrap();
    assert_eq!(e.span(), (Span { id: 1 }, Span { id: 2 }));
    // :(1) p(2)
    let (e, _) = parse(":p").unwrap();
    assert_eq!(e.span(), (Span { id: 1 }, Span { id: 2 }));
}

#[test]
fn is_keyword() {
    assert_eq!(Keyword::Pass.text(), "__pass");
    assert_eq!(Keyword::SetKw.text(), "set");
}

#[test]
fn prefix_without_an_expression() {
    let t = toks("+ 1");
    let e = parse_prefix(&t, END, 0).unwrap_err();
    assert_eq!(e, ParseError { kind: ErrorKind::Expected(Expected::Expression), span: Span { id: 1 } });
    assert_eq!(message(e, &t), "expected expression");
    let t = toks("'c'");
    let e = Lit::parse(&t, END, 0).unwrap_err();
    assert_eq!(message(e, &t), "unsupported literal type `'c'`");
}

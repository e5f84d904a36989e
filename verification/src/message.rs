//! The text of each parse error, as the macros report it.

use vstd::prelude::*;
use vstd::string::StringExecFns;
use crate::error::{ErrorKind, Expected, MetaArg, ParseError};
use crate::row::RowFieldErrorKind;
use crate::derive::DeriveRowError;
use crate::token::{Span, TokenTree, TokenModel, tts_view, tt_view, lemma_tts_view};

verus! {

/// The text of a punctuation character that a parser expects.
pub open spec fn punct_text(c: char) -> Seq<char> {
    if c == ',' {
        ","@
    } else if c == ':' {
        ":"@
    } else if c == '=' {
        "="@
    } else if c == '*' {
        "*"@
    } else if c == '<' {
        "<"@
    } else {
        "punctuation"@
    }
}

/// What was expected, in words.
pub open spec fn expected_text(e: Expected) -> Seq<char> {
    match e {
        Expected::Expression => "expected expression"@,
        Expected::Identifier => "expected identifier"@,
        Expected::Literal => "expected literal"@,
        Expected::StrLiteral => "expected string literal"@,
        Expected::Keyword(k) => "expected `"@ + k.spec_text() + "`"@,
        Expected::Punct(c) => "expected `"@ + punct_text(c) + "`"@,
        Expected::Parentheses => "expected parentheses"@,
        Expected::Brackets => "expected square brackets"@,
        Expected::Braces => "expected curly braces"@,
        Expected::BinaryOperator => "expected one of: `+`, `-`, `*`, `/`, `%`, `and`, `or`, `is`, `=`, `<`, `>`"@,
        Expected::UnaryOperator => "expected `not`"@,
        Expected::DataType => "expected `int` or `text`"@,
        Expected::JoinType => "expected one of: `inner`, `left`, `right`, `full`"@,
        Expected::OrderByDir => "expected `asc` or `desc`"@,
        Expected::OrderByNulls => "expected `first` or `last`"@,
        Expected::FromItem => "expected parentheses or identifier"@,
        Expected::Command => "expected command"@,
        Expected::MetaItem => "expected one of: `driver`, `rename`, `ty`"@,
        Expected::Arrow => "expected `=>` or `<=`"@,
        Expected::PathSegment => "expected identifier"@,
        Expected::ClosingAngle => "expected `>`"@,
        Expected::IntLiteral => "expected integer literal"@,
    }
}

/// The name of a meta argument.
pub open spec fn arg_name(a: MetaArg) -> Seq<char> {
    match a {
        MetaArg::Driver => "driver"@,
        MetaArg::Rename => "rename"@,
        MetaArg::Ty => "ty"@,
    }
}

/// The message of an error whose subject (the text of the token it points
/// at) is `subject`.
pub open spec fn error_text(kind: ErrorKind, subject: Seq<char>) -> Seq<char> {
    match kind {
        ErrorKind::Expected(e) => expected_text(e),
        ErrorKind::UnexpectedToken => "unexpected token"@,
        ErrorKind::UnsupportedLiteral => "unsupported literal type `"@ + subject + "`"@,
        ErrorKind::EmptyGroupBy => "group by clause cannot be empty"@,
        ErrorKind::EmptyOrderBy => "order by clause cannot be empty"@,
        ErrorKind::EmptyValues => "values list cannot be empty"@,
        ErrorKind::ColumnAfterStar => "only relation fields are allowed after `*`"@,
        ErrorKind::DuplicateField => "duplicate field `"@ + subject + "`"@,
        ErrorKind::DuplicateMeta(a) => "duplicate use of meta argument `"@ + arg_name(a) + "`"@,
        ErrorKind::MetaNotAllowed(a) => "meta argument `"@ + arg_name(a) + "` not allowed in this location"@,
        ErrorKind::UnknownDriver => "unknown driver value"@,
        ErrorKind::InvalidInteger => "invalid digit found in string"@,
        ErrorKind::IntegerTooLarge => "number too large to fit in target type"@,
        ErrorKind::ExpectedList(inner) => "expected attribute arguments in parentheses: "@
            + (if inner { "#!"@ } else { "#"@ }) + "[kosame(...)]"@,
        ErrorKind::MissingDriver => "missing `driver` attribute, e.g. #[kosame(driver = \"tokio-postgres\")]"@,
        ErrorKind::Internal => "internal error"@,
    }
}

/// The text of the first identifier or literal, from the `i`-th token on and
/// inside groups, whose span is `s`.
pub open spec fn text_at(toks: Seq<TokenModel>, s: Span, i: int) -> Option<Seq<char>>
    decreases toks, toks.len() - i,
{
    if i < 0 || i >= toks.len() {
        None
    } else {
        match toks[i] {
            TokenModel::Ident(x) => if x.span == s { Some(x.name) } else { text_at(toks, s, i + 1) },
            TokenModel::Literal { repr, span } => if span == s { Some(repr) } else { text_at(toks, s, i + 1) },
            TokenModel::Group { stream, .. } => {
                proof {
                    assert(decreases_to!(toks => toks[i]));
                }
                match text_at(stream, s, 0) {
                    Some(t) => Some(t),
                    None => text_at(toks, s, i + 1),
                }
            },
            _ => text_at(toks, s, i + 1),
        }
    }
}

/// The text of the token an error points at in the input, or nothing.
pub open spec fn subject(input: Seq<TokenModel>, s: Span) -> Seq<char> {
    match text_at(input, s, 0) {
        Some(t) => t,
        None => Seq::empty(),
    }
}

fn find_text(toks: &Vec<TokenTree>, s: Span, i: usize) -> (r: Option<String>)
    requires
        i <= toks.len(),
    ensures
        match r {
            Some(t) => text_at(tts_view(toks@), s, i as int) == Some(t@),
            None => text_at(tts_view(toks@), s, i as int) is None,
        },
    decreases toks, toks.len() - i,
{
    proof {
        lemma_tts_view(toks@);
    }
    if i >= toks.len() {
        return None;
    }
    assert(tts_view(toks@)[i as int] == tt_view(toks@[i as int]));
    match &toks[i] {
        TokenTree::Ident(x) => {
            if x.span == s {
                Some(x.name.clone())
            } else {
                find_text(toks, s, i + 1)
            }
        },
        TokenTree::Literal { repr, span } => {
            if *span == s {
                Some(repr.clone())
            } else {
                find_text(toks, s, i + 1)
            }
        },
        TokenTree::Group { stream, .. } => {
            proof {
                assert(decreases_to!(toks => toks@[i as int]));
            }
            match find_text(stream, s, 0) {
                Some(t) => Some(t),
                None => find_text(toks, s, i + 1),
            }
        },
        _ => find_text(toks, s, i + 1),
    }
}

fn punct_str(c: char) -> (s: &'static str)
    ensures
        s@ == punct_text(c),
{
    if c == ',' {
        ","
    } else if c == ':' {
        ":"
    } else if c == '=' {
        "="
    } else if c == '*' {
        "*"
    } else if c == '<' {
        "<"
    } else {
        "punctuation"
    }
}

fn joined3(a: &str, b: &str, c: &str) -> (s: String)
    ensures
        s@ == a@ + b@ + c@,
{
    let mut s = String::from_str(a);
    s.append(b);
    s.append(c);
    s
}

fn expected_message(e: Expected) -> (s: String)
    ensures
        s@ == expected_text(e),
{
    match e {
        Expected::Expression => String::from_str("expected expression"),
        Expected::Identifier => String::from_str("expected identifier"),
        Expected::Literal => String::from_str("expected literal"),
        Expected::StrLiteral => String::from_str("expected string literal"),
        Expected::Keyword(k) => joined3("expected `", k.text(), "`"),
        Expected::Punct(c) => joined3("expected `", punct_str(c), "`"),
        Expected::Parentheses => String::from_str("expected parentheses"),
        Expected::Brackets => String::from_str("expected square brackets"),
        Expected::Braces => String::from_str("expected curly braces"),
        Expected::BinaryOperator => String::from_str("expected one of: `+`, `-`, `*`, `/`, `%`, `and`, `or`, `is`, `=`, `<`, `>`"),
        Expected::UnaryOperator => String::from_str("expected `not`"),
        Expected::DataType => String::from_str("expected `int` or `text`"),
        Expected::JoinType => String::from_str("expected one of: `inner`, `left`, `right`, `full`"),
        Expected::OrderByDir => String::from_str("expected `asc` or `desc`"),
        Expected::OrderByNulls => String::from_str("expected `first` or `last`"),
        Expected::FromItem => String::from_str("expected parentheses or identifier"),
        Expected::Command => String::from_str("expected command"),
        Expected::MetaItem => String::from_str("expected one of: `driver`, `rename`, `ty`"),
        Expected::Arrow => String::from_str("expected `=>` or `<=`"),
        Expected::PathSegment => String::from_str("expected identifier"),
        Expected::ClosingAngle => String::from_str("expected `>`"),
        Expected::IntLiteral => String::from_str("expected integer literal"),
    }
}

fn arg_str(a: MetaArg) -> (s: &'static str)
    ensures
        s@ == arg_name(a),
{
    match a {
        MetaArg::Driver => "driver",
        MetaArg::Rename => "rename",
        MetaArg::Ty => "ty",
    }
}

/// The message of an error found in `input`: the text that the macros
/// report, naming the field, literal or meta argument where there is one.
pub fn message(e: ParseError, input: &Vec<TokenTree>) -> (m: String)
    ensures
        m@ == error_text(e.kind, subject(tts_view(input@), e.span)),
{
    let subj = match find_text(input, e.span, 0) {
        Some(t) => t,
        None => String::new(),
    };
    assert(subj@ == subject(tts_view(input@), e.span));
    match e.kind {
        ErrorKind::Expected(x) => expected_message(x),
        ErrorKind::UnexpectedToken => String::from_str("unexpected token"),
        ErrorKind::UnsupportedLiteral => joined3("unsupported literal type `", subj.as_str(), "`"),
        ErrorKind::EmptyGroupBy => String::from_str("group by clause cannot be empty"),
        ErrorKind::EmptyOrderBy => String::from_str("order by clause cannot be empty"),
        ErrorKind::EmptyValues => String::from_str("values list cannot be empty"),
        ErrorKind::ColumnAfterStar => String::from_str("only relation fields are allowed after `*`"),
        ErrorKind::DuplicateField => joined3("duplicate field `", subj.as_str(), "`"),
        ErrorKind::DuplicateMeta(a) => joined3("duplicate use of meta argument `", arg_str(a), "`"),
        ErrorKind::MetaNotAllowed(a) => joined3("meta argument `", arg_str(a), "` not allowed in this location"),
        ErrorKind::UnknownDriver => String::from_str("unknown driver value"),
        ErrorKind::InvalidInteger => String::from_str("invalid digit found in string"),
        ErrorKind::IntegerTooLarge => String::from_str("number too large to fit in target type"),
        ErrorKind::ExpectedList(inner) => joined3(
            "expected attribute arguments in parentheses: ",
            if inner { "#!" } else { "#" },
            "[kosame(...)]",
        ),
        ErrorKind::MissingDriver => String::from_str("missing `driver` attribute, e.g. #[kosame(driver = \"tokio-postgres\")]"),
        ErrorKind::Internal => String::from_str("internal error"),
    }
}

/// The text of a select-list field that gives no row field.
pub open spec fn row_field_text(k: RowFieldErrorKind) -> Seq<char> {
    match k {
        RowFieldErrorKind::NameNotInferred => "field name cannot be inferred"@,
        RowFieldErrorKind::TypeOverrideRequired => "field requires type override using `: RustType`"@,
    }
}

/// The hint that goes with it, where there is one.
pub open spec fn row_field_help(k: RowFieldErrorKind) -> Option<Seq<char>> {
    match k {
        RowFieldErrorKind::NameNotInferred => Some("consider adding an alias using `as my_alias`"@),
        RowFieldErrorKind::TypeOverrideRequired => None,
    }
}

/// The message of a select-list field that gives no row field, and its hint.
pub fn row_field_message(k: RowFieldErrorKind) -> (m: (String, Option<String>))
    ensures
        m.0@ == row_field_text(k),
        match (m.1, row_field_help(k)) {
            (Some(h), Some(t)) => h@ == t,
            (None, None) => true,
            _ => false,
        },
{
    match k {
        RowFieldErrorKind::NameNotInferred => (
            String::from_str("field name cannot be inferred"),
            Some(String::from_str("consider adding an alias using `as my_alias`")),
        ),
        RowFieldErrorKind::TypeOverrideRequired => (String::from_str("field requires type override using `: RustType`"), None),
    }
}

/// The text of a `#[derive(Row)]` on something else than a struct.
pub open spec fn derive_row_text(e: DeriveRowError) -> Seq<char> {
    match e {
        DeriveRowError::NotAStruct => "#[derive(Row)] can only be used on structs."@,
    }
}

pub fn derive_row_message(e: DeriveRowError) -> (m: String)
    ensures
        m@ == derive_row_text(e),
{
    match e {
        DeriveRowError::NotAStruct => String::from_str("#[derive(Row)] can only be used on structs."),
    }
}

} // verus!

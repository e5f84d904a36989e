//! Errors of the parsers: what was wrong and where.

use vstd::prelude::*;
use crate::token::Span;

verus! {

/// The keywords of the macro language.
#[derive(Clone, Copy, PartialEq, Eq, Structural, Debug)]
pub enum Keyword {
    And, As, Asc, By, Cast, Create, Cross, Default, Delete, Desc, Distinct, Driver, First,
    From, Full, Group, Having, Inner, Insert, Into, Is, Join, Key, Kosame, Last, Lateral,
    Left, Limit, Natural, Not, Null, Nulls, Offset, On, Or, Order, Pass, Primary, References,
    Rename, Returning, Right, Select, SetKw, TableMeta, Table, Ty, Update, Using, Values, Where,
    Filter, Int, Text, Type,
}

impl Keyword {
    /// The text of the keyword.
    pub open spec fn spec_text(self) -> Seq<char> {
        match self {
            Keyword::And => "and"@,
            Keyword::As => "as"@,
            Keyword::Asc => "asc"@,
            Keyword::By => "by"@,
            Keyword::Cast => "cast"@,
            Keyword::Create => "create"@,
            Keyword::Cross => "cross"@,
            Keyword::Default => "default"@,
            Keyword::Delete => "delete"@,
            Keyword::Desc => "desc"@,
            Keyword::Distinct => "distinct"@,
            Keyword::Driver => "driver"@,
            Keyword::First => "first"@,
            Keyword::From => "from"@,
            Keyword::Full => "full"@,
            Keyword::Group => "group"@,
            Keyword::Having => "having"@,
            Keyword::Inner => "inner"@,
            Keyword::Insert => "insert"@,
            Keyword::Into => "into"@,
            Keyword::Is => "is"@,
            Keyword::Join => "join"@,
            Keyword::Key => "key"@,
            Keyword::Kosame => "kosame"@,
            Keyword::Last => "last"@,
            Keyword::Lateral => "lateral"@,
            Keyword::Left => "left"@,
            Keyword::Limit => "limit"@,
            Keyword::Natural => "natural"@,
            Keyword::Not => "not"@,
            Keyword::Null => "null"@,
            Keyword::Nulls => "nulls"@,
            Keyword::Offset => "offset"@,
            Keyword::On => "on"@,
            Keyword::Or => "or"@,
            Keyword::Order => "order"@,
            Keyword::Pass => "__pass"@,
            Keyword::Primary => "primary"@,
            Keyword::References => "references"@,
            Keyword::Rename => "rename"@,
            Keyword::Returning => "returning"@,
            Keyword::Right => "right"@,
            Keyword::Select => "select"@,
            Keyword::SetKw => "set"@,
            Keyword::TableMeta => "__table"@,
            Keyword::Table => "table"@,
            Keyword::Ty => "ty"@,
            Keyword::Update => "update"@,
            Keyword::Using => "using"@,
            Keyword::Values => "values"@,
            Keyword::Where => "where"@,
            Keyword::Filter => "filter"@,
            Keyword::Int => "int"@,
            Keyword::Text => "text"@,
            Keyword::Type => "type"@,
        }
    }

    pub fn text(self) -> (text: &'static str)
        ensures
            text@ == self.spec_text(),
    {
        match self {
            Keyword::And => "and",
            Keyword::As => "as",
            Keyword::Asc => "asc",
            Keyword::By => "by",
            Keyword::Cast => "cast",
            Keyword::Create => "create",
            Keyword::Cross => "cross",
            Keyword::Default => "default",
            Keyword::Delete => "delete",
            Keyword::Desc => "desc",
            Keyword::Distinct => "distinct",
            Keyword::Driver => "driver",
            Keyword::First => "first",
            Keyword::From => "from",
            Keyword::Full => "full",
            Keyword::Group => "group",
            Keyword::Having => "having",
            Keyword::Inner => "inner",
            Keyword::Insert => "insert",
            Keyword::Into => "into",
            Keyword::Is => "is",
            Keyword::Join => "join",
            Keyword::Key => "key",
            Keyword::Kosame => "kosame",
            Keyword::Last => "last",
            Keyword::Lateral => "lateral",
            Keyword::Left => "left",
            Keyword::Limit => "limit",
            Keyword::Natural => "natural",
            Keyword::Not => "not",
            Keyword::Null => "null",
            Keyword::Nulls => "nulls",
            Keyword::Offset => "offset",
            Keyword::On => "on",
            Keyword::Or => "or",
            Keyword::Order => "order",
            Keyword::Pass => "__pass",
            Keyword::Primary => "primary",
            Keyword::References => "references",
            Keyword::Rename => "rename",
            Keyword::Returning => "returning",
            Keyword::Right => "right",
            Keyword::Select => "select",
            Keyword::SetKw => "set",
            Keyword::TableMeta => "__table",
            Keyword::Table => "table",
            Keyword::Ty => "ty",
            Keyword::Update => "update",
            Keyword::Using => "using",
            Keyword::Values => "values",
            Keyword::Where => "where",
            Keyword::Filter => "filter",
            Keyword::Int => "int",
            Keyword::Text => "text",
            Keyword::Type => "type",
        }
    }
}

/// What a parser expected where it failed, for the "expected one of" message.
#[derive(Clone, Copy, PartialEq, Eq, Structural, Debug)]
pub enum Expected {
    Expression,
    Identifier,
    Literal,
    StrLiteral,
    IntLiteral,
    Keyword(Keyword),
    Punct(char),
    Parentheses,
    Brackets,
    Braces,
    BinaryOperator,
    UnaryOperator,
    DataType,
    JoinType,
    OrderByDir,
    OrderByNulls,
    FromItem,
    Command,
    MetaItem,
    Arrow,
    PathSegment,
    ClosingAngle,
}

/// A `kosame` meta argument that is allowed in some places only, and once.
#[derive(Clone, Copy, PartialEq, Eq, Structural, Debug)]
pub enum MetaArg {
    Driver,
    Rename,
    Ty,
}

/// The kinds of parse failures.
#[derive(Clone, Copy, PartialEq, Eq, Structural, Debug)]
pub enum ErrorKind {
    /// Something else was expected here.
    Expected(Expected),
    /// A token is left over at the end of a delimited group.
    UnexpectedToken,
    /// A literal that the macro language does not support (byte string, char, ...).
    UnsupportedLiteral,
    /// `group by` with no items.
    EmptyGroupBy,
    /// `order by` with no items.
    EmptyOrderBy,
    /// `values` with no rows.
    EmptyValues,
    /// A column field after `*` in a query node.
    ColumnAfterStar,
    /// Two fields of a query node have the same name.
    DuplicateField,
    /// A meta argument given twice in one attribute list.
    DuplicateMeta(MetaArg),
    /// A meta argument where it is not allowed.
    MetaNotAllowed(MetaArg),
    /// The driver name is not one that the macros know.
    UnknownDriver,
    /// A negative integer where an unsigned one is read.
    InvalidInteger,
    /// An integer literal too large for its type.
    IntegerTooLarge,
    /// An attribute of the `kosame` form that is not a list.
    ExpectedList(bool),
    /// The inner attributes of a table, query or statement name no driver;
    /// reported without stopping the parse.
    MissingDriver,
    /// A parser's own consistency guard; the parsers never return it.
    Internal,
}

/// A parse failure at a span.
#[derive(Clone, Copy, PartialEq, Eq, Structural, Debug)]
pub struct ParseError {
    pub kind: ErrorKind,
    pub span: Span,
}

pub open spec fn err<T>(kind: ErrorKind, span: Span) -> Result<T, ParseError> {
    Err(ParseError { kind, span })
}

pub open spec fn expected<T>(what: Expected, span: Span) -> Result<T, ParseError> {
    Err(ParseError { kind: ErrorKind::Expected(what), span })
}

pub fn error_at(kind: ErrorKind, span: Span) -> (e: ParseError)
    ensures
        e == (ParseError { kind, span }),
{
    ParseError { kind, span }
}

pub fn expected_at(what: Expected, span: Span) -> (e: ParseError)
    ensures
        e == (ParseError { kind: ErrorKind::Expected(what), span }),
{
    ParseError { kind: ErrorKind::Expected(what), span }
}

} // verus!

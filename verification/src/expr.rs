//! SQL expressions: their syntax tree, the grammar as spec functions, and the
//! parser that follows it (precedence climbing, all operators left-associative).

use vstd::prelude::*;
use crate::error::{Keyword, Expected, ErrorKind, ParseError, err, expected, error_at, expected_at};
use crate::token::{Span, TokenTree, Ident, IdentModel, any_ident_at, Delimiter, keyword_at, ident_at, punct_at, group_at, group_stream, tt_span, span_at, peek_keyword, peek_ident, peek_punct, peek_group, span_at_exec};
use crate::data_type::{DataType, spec_parse_data_type};
use crate::outside::{LitKind, syn_lit_kind, literal_kind};

verus! {

/// How operators of equal precedence group.
#[derive(Clone, Copy, PartialEq, Eq, Structural, Debug)]
pub enum Associativity {
    Left,
}

/// A binary operator with the spans of its tokens.
#[derive(Clone, Copy, PartialEq, Eq, Structural, Debug)]
pub enum BinOp {
    Multiply(Span),
    Divide(Span),
    Modulo(Span),
    Add(Span),
    Subtract(Span),
    Eq(Span),
    Uneq(Span, Span),
    LessThan(Span),
    GreaterThan(Span),
    LessThanOrEq(Span, Span),
    GreaterThanOrEq(Span, Span),
    Is(Span),
    IsNot(Span, Span),
    IsDistinctFrom(Span, Span, Span),
    And(Span),
    Or(Span),
}

/// The precedence of a binary operator (PostgreSQL's table): a higher number
/// binds more tightly.
pub open spec fn binop_precedence(op: BinOp) -> u32 {
    match op {
        BinOp::Multiply(_) | BinOp::Divide(_) | BinOp::Modulo(_) => 9,
        BinOp::Add(_) | BinOp::Subtract(_) => 8,
        BinOp::Eq(_) | BinOp::Uneq(..) | BinOp::LessThan(_) | BinOp::GreaterThan(_)
        | BinOp::LessThanOrEq(..) | BinOp::GreaterThanOrEq(..) => 5,
        BinOp::Is(_) | BinOp::IsNot(..) | BinOp::IsDistinctFrom(..) => 4,
        BinOp::And(_) => 2,
        BinOp::Or(_) => 1,
    }
}

/// The number of tokens that spell the operator.
pub open spec fn binop_width(op: BinOp) -> int {
    match op {
        BinOp::Uneq(..) | BinOp::LessThanOrEq(..) | BinOp::GreaterThanOrEq(..) | BinOp::IsNot(..) => 2,
        BinOp::IsDistinctFrom(..) => 3,
        _ => 1,
    }
}

impl BinOp {
    pub fn precedence(&self) -> (p: u32)
        ensures
            p == binop_precedence(*self),
            1 <= p <= 9,
    {
        match self {
            BinOp::Multiply(_) => 9,
            BinOp::Divide(_) => 9,
            BinOp::Modulo(_) => 9,
            BinOp::Add(_) => 8,
            BinOp::Subtract(_) => 8,
            BinOp::Eq(_) => 5,
            BinOp::Uneq(..) => 5,
            BinOp::LessThan(_) => 5,
            BinOp::GreaterThan(_) => 5,
            BinOp::LessThanOrEq(..) => 5,
            BinOp::GreaterThanOrEq(..) => 5,
            BinOp::Is(..) => 4,
            BinOp::IsNot(..) => 4,
            BinOp::IsDistinctFrom(..) => 4,
            BinOp::And(_) => 2,
            BinOp::Or(_) => 1,
        }
    }

    pub fn associativity(&self) -> (a: Associativity)
        ensures
            a == Associativity::Left,
    {
        Associativity::Left
    }
}

/// A prefix operator.
#[derive(Clone, Copy, PartialEq, Eq, Structural, Debug)]
pub enum UnaryOp {
    Not(Span),
}

pub open spec fn unary_precedence(op: UnaryOp) -> u32 {
    match op {
        UnaryOp::Not(_) => 3,
    }
}

impl UnaryOp {
    pub fn precedence(&self) -> (p: u32)
        ensures
            p == unary_precedence(*self),
            p == 3,
    {
        match self {
            UnaryOp::Not(_) => 3,
        }
    }
}

/// The token text of a literal and where it stands; a negative number keeps
/// the span of its minus sign.
#[derive(Debug)]
pub struct LitToken {
    pub minus: Option<Span>,
    pub repr: String,
    pub span: Span,
}

pub struct LitTokenModel {
    pub minus: Option<Span>,
    pub repr: Seq<char>,
    pub span: Span,
}

impl View for LitToken {
    type V = LitTokenModel;

    open spec fn view(&self) -> LitTokenModel {
        LitTokenModel { minus: self.minus, repr: self.repr@, span: self.span }
    }
}

#[derive(Debug)]
pub enum Lit {
    Int(LitToken),
    Float(LitToken),
    Str(LitToken),
    Bool(LitToken),
    Null(Span),
}

pub enum LitModel {
    Int(LitTokenModel),
    Float(LitTokenModel),
    Str(LitTokenModel),
    Bool(LitTokenModel),
    Null(Span),
}

impl View for Lit {
    type V = LitModel;

    open spec fn view(&self) -> LitModel {
        match self {
            Lit::Int(t) => LitModel::Int(t@),
            Lit::Float(t) => LitModel::Float(t@),
            Lit::Str(t) => LitModel::Str(t@),
            Lit::Bool(t) => LitModel::Bool(t@),
            Lit::Null(s) => LitModel::Null(*s),
        }
    }
}

#[derive(Debug)]
pub struct Binary {
    pub lhs: Box<Expr>,
    pub op: BinOp,
    pub rhs: Box<Expr>,
}

#[derive(Debug)]
pub struct BindParam {
    pub colon: Span,
    pub name: Ident,
}

#[derive(Debug)]
pub struct Call {
    pub function: Ident,
    pub paren: Span,
    pub params: Vec<Expr>,
}

#[derive(Debug)]
pub struct Cast {
    pub cast: Span,
    pub paren: Span,
    pub value: Box<Expr>,
    pub as_token: Span,
    pub data_type: DataType,
}

#[derive(Debug)]
pub struct Correlation {
    pub name: Ident,
    pub period: Span,
}

#[derive(Debug)]
pub struct ColumnRef {
    pub correlation: Option<Correlation>,
    pub name: Ident,
}

#[derive(Debug)]
pub struct Paren {
    pub paren: Span,
    pub expr: Box<Expr>,
}

#[derive(Debug)]
pub struct Unary {
    pub op: UnaryOp,
    pub operand: Box<Expr>,
}

/// An expression of the macro language.
#[derive(Debug)]
pub enum Expr {
    Binary(Binary),
    BindParam(BindParam),
    Call(Call),
    Cast(Cast),
    ColumnRef(ColumnRef),
    Lit(Lit),
    Paren(Paren),
    Unary(Unary),
}

/// The mathematical value of an [`Expr`].
pub enum ExprModel {
    Binary { lhs: Box<ExprModel>, op: BinOp, rhs: Box<ExprModel> },
    BindParam { colon: Span, name: IdentModel },
    Call { function: IdentModel, paren: Span, params: Seq<ExprModel> },
    Cast { cast: Span, paren: Span, value: Box<ExprModel>, as_token: Span, data_type: DataType },
    ColumnRef { correlation: Option<(IdentModel, Span)>, name: IdentModel },
    Lit(LitModel),
    Paren { paren: Span, expr: Box<ExprModel> },
    Unary { uop: UnaryOp, operand: Box<ExprModel> },
}

pub open spec fn exprs_view(s: Seq<Expr>) -> Seq<ExprModel>
    decreases s,
{
    if s.len() == 0 {
        Seq::empty()
    } else {
        exprs_view(s.subrange(0, s.len() - 1)).push(expr_view(s[s.len() - 1]))
    }
}

pub open spec fn expr_view(e: Expr) -> ExprModel
    decreases e,
{
    match e {
        Expr::Binary(b) => ExprModel::Binary {
            lhs: Box::new(expr_view(*b.lhs)),
            op: b.op,
            rhs: Box::new(expr_view(*b.rhs)),
        },
        Expr::BindParam(b) => ExprModel::BindParam { colon: b.colon, name: b.name@ },
        Expr::Call(c) => ExprModel::Call {
            function: c.function@,
            paren: c.paren,
            params: exprs_view(c.params@),
        },
        Expr::Cast(c) => ExprModel::Cast {
            cast: c.cast,
            paren: c.paren,
            value: Box::new(expr_view(*c.value)),
            as_token: c.as_token,
            data_type: c.data_type,
        },
        Expr::ColumnRef(c) => ExprModel::ColumnRef {
            correlation: match c.correlation {
                Some(k) => Some((k.name@, k.period)),
                None => None,
            },
            name: c.name@,
        },
        Expr::Lit(l) => ExprModel::Lit(l@),
        Expr::Paren(p) => ExprModel::Paren { paren: p.paren, expr: Box::new(expr_view(*p.expr)) },
        Expr::Unary(u) => ExprModel::Unary { uop: u.op, operand: Box::new(expr_view(*u.operand)) },
    }
}

impl View for Expr {
    type V = ExprModel;

    open spec fn view(&self) -> ExprModel {
        expr_view(*self)
    }
}


// ---------------------------------------------------------------------------
// The grammar, as spec functions over the token sequence.
// ---------------------------------------------------------------------------

/// The identifier at `pos` (meaningful where `any_ident_at` holds).
pub open spec fn ident_model_at(toks: Seq<TokenTree>, pos: int) -> IdentModel {
    match toks[pos] {
        TokenTree::Ident(i) => i@,
        _ => IdentModel { name: Seq::empty(), span: tt_span(toks[pos]) },
    }
}

/// A literal once `syn` has said what kind it is.
pub open spec fn lit_of_kind(kind: LitKind, tok: LitTokenModel, next: int) -> Result<(LitModel, int), ParseError> {
    match kind {
        LitKind::Int => Ok((LitModel::Int(tok), next)),
        LitKind::Float => Ok((LitModel::Float(tok), next)),
        LitKind::Str => Ok((LitModel::Str(tok), next)),
        LitKind::Bool => Ok((LitModel::Bool(tok), next)),
        LitKind::Other => err(ErrorKind::UnsupportedLiteral, tok.span),
        LitKind::NotLiteral => expected(Expected::Literal, tok.span),
    }
}

/// A literal at `pos`: `null`, a literal token, `true`/`false`, or a minus sign
/// followed by a number.
pub open spec fn spec_parse_lit(toks: Seq<TokenTree>, end: Span, pos: int) -> Result<(LitModel, int), ParseError> {
    if keyword_at(toks, pos, Keyword::Null.spec_text()) {
        Ok((LitModel::Null(tt_span(toks[pos])), pos + 1))
    } else if 0 <= pos < toks.len() {
        match toks[pos] {
            TokenTree::Literal { repr, span } =>
                lit_of_kind(syn_lit_kind(repr@), LitTokenModel { minus: None, repr: repr@, span }, pos + 1),
            TokenTree::Ident(i) =>
                lit_of_kind(syn_lit_kind(i.name@), LitTokenModel { minus: None, repr: i.name@, span: i.span }, pos + 1),
            TokenTree::Punct { ch, span: minus_span, .. } =>
                if ch == '-' && pos + 1 < toks.len() && toks[pos + 1] is Literal {
                    let repr = toks[pos + 1]->Literal_repr@;
                    let tok = LitTokenModel { minus: Some(minus_span), repr, span: tt_span(toks[pos + 1]) };
                    match syn_lit_kind(seq!['-'] + repr) {
                        LitKind::Int => Ok((LitModel::Int(tok), pos + 2)),
                        LitKind::Float => Ok((LitModel::Float(tok), pos + 2)),
                        _ => expected(Expected::Literal, minus_span),
                    }
                } else {
                    expected(Expected::Literal, minus_span)
                },
            TokenTree::Group { span, .. } => expected(Expected::Literal, span),
        }
    } else {
        expected(Expected::Literal, end)
    }
}

/// A column reference at `pos`: `name` or `correlation.name`.
pub open spec fn spec_parse_column_ref(toks: Seq<TokenTree>, end: Span, pos: int) -> Result<(ExprModel, int), ParseError> {
    if !ident_at(toks, pos) {
        expected(Expected::Identifier, span_at(toks, pos, end))
    } else if punct_at(toks, pos + 1, '.') {
        if ident_at(toks, pos + 2) {
            Ok((ExprModel::ColumnRef {
                correlation: Some((ident_model_at(toks, pos), tt_span(toks[pos + 1]))),
                name: ident_model_at(toks, pos + 2),
            }, pos + 3))
        } else {
            expected(Expected::Identifier, span_at(toks, pos + 2, end))
        }
    } else {
        Ok((ExprModel::ColumnRef { correlation: None, name: ident_model_at(toks, pos) }, pos + 1))
    }
}

/// A bind parameter `:name` at `pos`.
pub open spec fn spec_parse_bind_param(toks: Seq<TokenTree>, end: Span, pos: int) -> Result<(ExprModel, int), ParseError> {
    if !punct_at(toks, pos, ':') {
        expected(Expected::Punct(':'), span_at(toks, pos, end))
    } else if ident_at(toks, pos + 1) {
        Ok((ExprModel::BindParam { colon: tt_span(toks[pos]), name: ident_model_at(toks, pos + 1) }, pos + 2))
    } else {
        expected(Expected::Identifier, span_at(toks, pos + 1, end))
    }
}

/// A binary operator at `pos`, and where it ends.
pub open spec fn spec_parse_binop(toks: Seq<TokenTree>, end: Span, pos: int) -> Result<(BinOp, int), ParseError> {
    let s0 = span_at(toks, pos, end);
    let s1 = span_at(toks, pos + 1, end);
    let s2 = span_at(toks, pos + 2, end);
    if punct_at(toks, pos, '+') {
        Ok((BinOp::Add(s0), pos + 1))
    } else if punct_at(toks, pos, '-') {
        Ok((BinOp::Subtract(s0), pos + 1))
    } else if punct_at(toks, pos, '*') {
        Ok((BinOp::Multiply(s0), pos + 1))
    } else if punct_at(toks, pos, '/') {
        Ok((BinOp::Divide(s0), pos + 1))
    } else if punct_at(toks, pos, '%') {
        Ok((BinOp::Modulo(s0), pos + 1))
    } else if keyword_at(toks, pos, Keyword::And.spec_text()) {
        Ok((BinOp::And(s0), pos + 1))
    } else if keyword_at(toks, pos, Keyword::Or.spec_text()) {
        Ok((BinOp::Or(s0), pos + 1))
    } else if keyword_at(toks, pos, Keyword::Is.spec_text()) {
        if keyword_at(toks, pos + 1, Keyword::Not.spec_text()) {
            Ok((BinOp::IsNot(s0, s1), pos + 2))
        } else if keyword_at(toks, pos + 1, Keyword::Distinct.spec_text()) {
            if keyword_at(toks, pos + 2, Keyword::From.spec_text()) {
                Ok((BinOp::IsDistinctFrom(s0, s1, s2), pos + 3))
            } else {
                expected(Expected::Keyword(Keyword::From), s2)
            }
        } else {
            Ok((BinOp::Is(s0), pos + 1))
        }
    } else if punct_at(toks, pos, '=') {
        Ok((BinOp::Eq(s0), pos + 1))
    } else if punct_at(toks, pos, '<') {
        if punct_at(toks, pos + 1, '>') {
            Ok((BinOp::Uneq(s0, s1), pos + 2))
        } else if punct_at(toks, pos + 1, '=') {
            Ok((BinOp::LessThanOrEq(s0, s1), pos + 2))
        } else {
            Ok((BinOp::LessThan(s0), pos + 1))
        }
    } else if punct_at(toks, pos, '>') {
        if punct_at(toks, pos + 1, '=') {
            Ok((BinOp::GreaterThanOrEq(s0, s1), pos + 2))
        } else {
            Ok((BinOp::GreaterThan(s0), pos + 1))
        }
    } else {
        expected(Expected::BinaryOperator, s0)
    }
}

/// The error for a token left over at `pos` in a group.
pub open spec fn unexpected_at<T>(toks: Seq<TokenTree>, pos: int) -> Result<T, ParseError> {
    err(ErrorKind::UnexpectedToken, tt_span(toks[pos]))
}

/// The guard of a recursive step: the position moved forward and stays in the
/// stream.
pub open spec fn advanced(toks: Seq<TokenTree>, from: int, to: int) -> bool {
    from < to <= toks.len()
}

pub open spec fn internal<T>(end: Span) -> Result<T, ParseError> {
    err(ErrorKind::Internal, end)
}

/// A parenthesized expression: the group at `pos` holds exactly one expression.
pub open spec fn spec_parse_paren(toks: Seq<TokenTree>, pos: int) -> Result<(ExprModel, int), ParseError>
    decreases toks, toks.len() - pos, 0nat,
{
    if !group_at(toks, pos, Delimiter::Parenthesis) {
        expected(Expected::Parentheses, tt_span(toks[pos]))
    } else {
        let inner = group_stream(toks[pos]);
        let gspan = tt_span(toks[pos]);
        proof {
            assert(decreases_to!(toks => toks[pos]));
        }
        match spec_parse_expr(inner, gspan, 0, 0) {
            Ok((e, q)) =>
                if q < inner.len() {
                    unexpected_at(inner, q)
                } else {
                    Ok((ExprModel::Paren { paren: gspan, expr: Box::new(e) }, pos + 1))
                },
            Err(e) => Err(e),
        }
    }
}

/// `cast(value as data_type)` at `pos`.
pub open spec fn spec_parse_cast(toks: Seq<TokenTree>, end: Span, pos: int) -> Result<(ExprModel, int), ParseError>
    decreases toks, toks.len() - pos, 0nat,
{
    if !keyword_at(toks, pos, Keyword::Cast.spec_text()) {
        expected(Expected::Keyword(Keyword::Cast), span_at(toks, pos, end))
    } else if !group_at(toks, pos + 1, Delimiter::Parenthesis) {
        expected(Expected::Parentheses, span_at(toks, pos + 1, end))
    } else {
        let inner = group_stream(toks[pos + 1]);
        let gspan = tt_span(toks[pos + 1]);
        proof {
            assert(decreases_to!(toks => toks[pos + 1]));
        }
        match spec_parse_expr(inner, gspan, 0, 0) {
            Ok((v, q)) =>
                if !keyword_at(inner, q, Keyword::As.spec_text()) {
                    expected(Expected::Keyword(Keyword::As), span_at(inner, q, gspan))
                } else {
                    match spec_parse_data_type(inner, gspan, q + 1) {
                        Ok((d, r)) =>
                            if r < inner.len() {
                                unexpected_at(inner, r)
                            } else {
                                Ok((ExprModel::Cast {
                                    cast: tt_span(toks[pos]),
                                    paren: gspan,
                                    value: Box::new(v),
                                    as_token: tt_span(inner[q]),
                                    data_type: d,
                                }, pos + 2))
                            },
                        Err(e) => Err(e),
                    }
                },
            Err(e) => Err(e),
        }
    }
}

/// A call `function(params)` at `pos`, where an identifier is followed by a
/// parenthesized group.
pub open spec fn spec_parse_call(toks: Seq<TokenTree>, end: Span, pos: int) -> Result<(ExprModel, int), ParseError>
    decreases toks, toks.len() - pos, 0nat,
{
    if !ident_at(toks, pos) {
        expected(Expected::Identifier, span_at(toks, pos, end))
    } else if !group_at(toks, pos + 1, Delimiter::Parenthesis) {
        expected(Expected::Parentheses, span_at(toks, pos + 1, end))
    } else {
        let inner = group_stream(toks[pos + 1]);
        let gspan = tt_span(toks[pos + 1]);
        proof {
            assert(decreases_to!(toks => toks[pos + 1]));
        }
        match spec_parse_params(inner, gspan, 0) {
            Ok((params, _)) => Ok((ExprModel::Call {
                function: ident_model_at(toks, pos),
                paren: gspan,
                params,
            }, pos + 2)),
            Err(e) => Err(e),
        }
    }
}

/// The operand of a prefix operator or a literal, call, column reference,
/// parenthesized expression, cast or bind parameter at `pos`; the first rule
/// that applies wins.
pub open spec fn spec_parse_prefix(toks: Seq<TokenTree>, end: Span, pos: int) -> Result<(ExprModel, int), ParseError>
    decreases toks, toks.len() - pos, 1nat,
{
    if pos < 0 || pos > toks.len() {
        internal(end)
    } else if group_at(toks, pos, Delimiter::Parenthesis) {
        spec_parse_paren(toks, pos)
    } else if punct_at(toks, pos, ':') {
        spec_parse_bind_param(toks, end, pos)
    } else if keyword_at(toks, pos, Keyword::Not.spec_text()) {
        let op = UnaryOp::Not(tt_span(toks[pos]));
        match spec_parse_expr(toks, end, pos + 1, unary_precedence(op)) {
            Ok((e, q)) => Ok((ExprModel::Unary { uop: op, operand: Box::new(e) }, q)),
            Err(e) => Err(e),
        }
    } else if keyword_at(toks, pos, Keyword::Cast.spec_text()) {
        spec_parse_cast(toks, end, pos)
    } else if spec_parse_lit(toks, end, pos) is Ok {
        match spec_parse_lit(toks, end, pos) {
            Ok((l, q)) => Ok((ExprModel::Lit(l), q)),
            Err(e) => Err(e),
        }
    } else if ident_at(toks, pos) && group_at(toks, pos + 1, Delimiter::Parenthesis) {
        spec_parse_call(toks, end, pos)
    } else if spec_parse_column_ref(toks, end, pos) is Ok {
        spec_parse_column_ref(toks, end, pos)
    } else {
        expected(Expected::Expression, span_at(toks, pos, end))
    }
}

/// The arguments of a call: expressions separated by commas, a trailing comma
/// allowed, up to the end of the group.
pub open spec fn spec_parse_params(toks: Seq<TokenTree>, end: Span, pos: int) -> Result<(Seq<ExprModel>, int), ParseError>
    decreases toks, toks.len() - pos, 4nat,
{
    if pos < 0 || pos > toks.len() {
        internal(end)
    } else if pos == toks.len() {
        Ok((Seq::empty(), pos))
    } else {
        match spec_parse_expr(toks, end, pos, 0) {
            Ok((e, q)) =>
                if !advanced(toks, pos, q) {
                    internal(end)
                } else if q == toks.len() {
                    Ok((seq![e], q))
                } else if punct_at(toks, q, ',') {
                    match spec_parse_params(toks, end, q + 1) {
                        Ok((rest, r)) => Ok((seq![e] + rest, r)),
                        Err(e) => Err(e),
                    }
                } else {
                    expected(Expected::Punct(','), tt_span(toks[q]))
                },
            Err(e) => Err(e),
        }
    }
}

/// An expression at `pos` whose binary operators all have a precedence of at
/// least `min`.
pub open spec fn spec_parse_expr(toks: Seq<TokenTree>, end: Span, pos: int, min: u32) -> Result<(ExprModel, int), ParseError>
    decreases toks, toks.len() - pos, 3nat,
{
    if pos < 0 || pos > toks.len() {
        internal(end)
    } else {
        match spec_parse_prefix(toks, end, pos) {
            Ok((lhs, q)) =>
                if !advanced(toks, pos, q) {
                    internal(end)
                } else {
                    spec_parse_expr_rest(toks, end, lhs, q, min)
                },
            Err(e) => Err(e),
        }
    }
}

/// Having read `lhs`, read binary operators of precedence at least `min` and
/// their right operands, grouping to the left.
pub open spec fn spec_parse_expr_rest(toks: Seq<TokenTree>, end: Span, lhs: ExprModel, pos: int, min: u32) -> Result<(ExprModel, int), ParseError>
    decreases toks, toks.len() - pos, 2nat,
{
    if pos < 0 || pos > toks.len() {
        internal(end)
    } else {
        match spec_parse_binop(toks, end, pos) {
            Ok((op, q)) =>
                if binop_precedence(op) < min {
                    Ok((lhs, pos))
                } else if !advanced(toks, pos, q) {
                    internal(end)
                } else {
                    match spec_parse_expr(toks, end, q, (binop_precedence(op) + 1) as u32) {
                        Ok((rhs, r)) =>
                            if !advanced(toks, pos, r) {
                                internal(end)
                            } else {
                                spec_parse_expr_rest(
                                    toks,
                                    end,
                                    ExprModel::Binary { lhs: Box::new(lhs), op, rhs: Box::new(rhs) },
                                    r,
                                    min,
                                )
                            },
                        Err(e) => Err(e),
                    }
                },
            Err(_) => Ok((lhs, pos)),
        }
    }
}


// ---------------------------------------------------------------------------
// The parser.
// ---------------------------------------------------------------------------

/// An executable parse result and its mathematical counterpart agree.
pub open spec fn agrees<T: View>(res: Result<(T, usize), ParseError>, spec: Result<(T::V, int), ParseError>) -> bool {
    match res {
        Ok((v, q)) => spec == Ok::<(T::V, int), ParseError>((v@, q as int)),
        Err(e) => spec == Err::<(T::V, int), ParseError>(e),
    }
}

/// The parse moved forward and stayed in the stream.
pub open spec fn moved<T>(res: Result<(T, usize), ParseError>, toks: Seq<TokenTree>, pos: int) -> bool {
    match res {
        Ok((_, q)) => pos < q <= toks.len(),
        Err(_) => true,
    }
}

pub proof fn lemma_exprs_view(s: Seq<Expr>)
    ensures
        exprs_view(s).len() == s.len(),
        forall|i: int| 0 <= i < s.len() ==> #[trigger] exprs_view(s)[i] == expr_view(s[i]),
    decreases s.len(),
{
    if s.len() > 0 {
        lemma_exprs_view(s.subrange(0, s.len() - 1));
    }
}

pub fn ident_at_exec(toks: &Vec<TokenTree>, pos: usize) -> (ident: Ident)
    requires
        any_ident_at(toks@, pos as int),
    ensures
        ident@ == ident_model_at(toks@, pos as int),
{
    match &toks[pos] {
        TokenTree::Ident(i) => i.duplicate(),
        _ => {
            assert(false);
            Ident::new(String::new(), toks[pos].span())
        },
    }
}

impl Binary {
    pub fn new(lhs: Expr, op: BinOp, rhs: Expr) -> (b: Binary)
        ensures
            *b.lhs == lhs,
            b.op == op,
            *b.rhs == rhs,
    {
        Binary { lhs: Box::new(lhs), op, rhs: Box::new(rhs) }
    }
}

impl Unary {
    pub fn new(op: UnaryOp, operand: Expr) -> (u: Unary)
        ensures
            u.op == op,
            *u.operand == operand,
    {
        Unary { op, operand: Box::new(operand) }
    }
}

impl Lit {
    fn of_kind(kind: LitKind, tok: LitToken, next: usize) -> (res: Result<(Lit, usize), ParseError>)
        ensures
            agrees(res, lit_of_kind(kind, tok@, next as int)),
    {
        match kind {
            LitKind::Int => Ok((Lit::Int(tok), next)),
            LitKind::Float => Ok((Lit::Float(tok), next)),
            LitKind::Str => Ok((Lit::Str(tok), next)),
            LitKind::Bool => Ok((Lit::Bool(tok), next)),
            LitKind::Other => Err(error_at(ErrorKind::UnsupportedLiteral, tok.span)),
            LitKind::NotLiteral => Err(expected_at(Expected::Literal, tok.span)),
        }
    }

    pub fn parse(toks: &Vec<TokenTree>, end: Span, pos: usize) -> (res: Result<(Lit, usize), ParseError>)
        requires
            pos <= toks.len(),
        ensures
            agrees(res, spec_parse_lit(toks@, end, pos as int)),
            moved(res, toks@, pos as int),
    {
        if peek_keyword(toks, pos, Keyword::Null.text()) {
            return Ok((Lit::Null(toks[pos].span()), pos + 1));
        }
        if pos >= toks.len() {
            return Err(expected_at(Expected::Literal, end));
        }
        match &toks[pos] {
            TokenTree::Literal { repr, span } => {
                let kind = literal_kind(repr.as_str());
                Lit::of_kind(kind, LitToken { minus: None, repr: repr.clone(), span: *span }, pos + 1)
            },
            TokenTree::Ident(i) => {
                let kind = literal_kind(i.name.as_str());
                Lit::of_kind(kind, LitToken { minus: None, repr: i.name.clone(), span: i.span }, pos + 1)
            },
            TokenTree::Punct { ch, span, .. } => {
                let minus_span = *span;
                if *ch == '-' && pos + 1 < toks.len() {
                    match &toks[pos + 1] {
                        TokenTree::Literal { repr, span } => {
                            let mut text = String::from_str("-");
                            text.append(repr.as_str());
                            proof {
                                reveal_strlit("-");
                                assert(text@ == seq!['-'] + repr@);
                            }
                            let kind = literal_kind(text.as_str());
                            let tok = LitToken { minus: Some(minus_span), repr: repr.clone(), span: *span };
                            match kind {
                                LitKind::Int => Ok((Lit::Int(tok), pos + 2)),
                                LitKind::Float => Ok((Lit::Float(tok), pos + 2)),
                                _ => Err(expected_at(Expected::Literal, minus_span)),
                            }
                        },
                        _ => Err(expected_at(Expected::Literal, minus_span)),
                    }
                } else {
                    Err(expected_at(Expected::Literal, minus_span))
                }
            },
            TokenTree::Group { span, .. } => Err(expected_at(Expected::Literal, *span)),
        }
    }
}

impl ColumnRef {
    pub fn parse(toks: &Vec<TokenTree>, end: Span, pos: usize) -> (res: Result<(ColumnRef, usize), ParseError>)
        requires
            pos <= toks.len(),
        ensures
            match res {
                Ok((c, q)) => spec_parse_column_ref(toks@, end, pos as int)
                    == Ok::<(ExprModel, int), ParseError>((Expr::ColumnRef(c)@, q as int)),
                Err(e) => spec_parse_column_ref(toks@, end, pos as int) == Err::<(ExprModel, int), ParseError>(e),
            },
            moved(res, toks@, pos as int),
    {
        if !peek_ident(toks, pos) {
            return Err(expected_at(Expected::Identifier, span_at_exec(toks, pos, end)));
        }
        let first = ident_at_exec(toks, pos);
        if peek_punct(toks, pos + 1, '.') {
            if peek_ident(toks, pos + 2) {
                let name = ident_at_exec(toks, pos + 2);
                Ok((ColumnRef {
                    correlation: Some(Correlation { name: first, period: toks[pos + 1].span() }),
                    name,
                }, pos + 3))
            } else {
                Err(expected_at(Expected::Identifier, span_at_exec(toks, pos + 2, end)))
            }
        } else {
            Ok((ColumnRef { correlation: None, name: first }, pos + 1))
        }
    }
}

impl BindParam {
    pub fn peek(toks: &Vec<TokenTree>, pos: usize) -> (found: bool)
        ensures
            found == punct_at(toks@, pos as int, ':'),
    {
        peek_punct(toks, pos, ':')
    }

    pub fn parse(toks: &Vec<TokenTree>, end: Span, pos: usize) -> (res: Result<(BindParam, usize), ParseError>)
        requires
            pos <= toks.len(),
        ensures
            match res {
                Ok((b, q)) => spec_parse_bind_param(toks@, end, pos as int)
                    == Ok::<(ExprModel, int), ParseError>((Expr::BindParam(b)@, q as int)),
                Err(e) => spec_parse_bind_param(toks@, end, pos as int) == Err::<(ExprModel, int), ParseError>(e),
            },
            moved(res, toks@, pos as int),
    {
        if !peek_punct(toks, pos, ':') {
            return Err(expected_at(Expected::Punct(':'), span_at_exec(toks, pos, end)));
        }
        if peek_ident(toks, pos + 1) {
            Ok((BindParam { colon: toks[pos].span(), name: ident_at_exec(toks, pos + 1) }, pos + 2))
        } else {
            Err(expected_at(Expected::Identifier, span_at_exec(toks, pos + 1, end)))
        }
    }

    pub fn name(&self) -> (name: &Ident)
        ensures
            name == &self.name,
    {
        &self.name
    }
}

impl BinOp {
    pub fn parse(toks: &Vec<TokenTree>, end: Span, pos: usize) -> (res: Result<(BinOp, usize), ParseError>)
        requires
            pos <= toks.len(),
        ensures
            match res {
                Ok((op, q)) => spec_parse_binop(toks@, end, pos as int) == Ok::<(BinOp, int), ParseError>((op, q as int))
                    && q == pos + binop_width(op) && q <= toks.len(),
                Err(e) => spec_parse_binop(toks@, end, pos as int) == Err::<(BinOp, int), ParseError>(e),
            },
    {
        if pos >= toks.len() {
            return Err(expected_at(Expected::BinaryOperator, end));
        }
        let s0 = span_at_exec(toks, pos, end);
        if peek_punct(toks, pos, '+') {
            return Ok((BinOp::Add(s0), pos + 1));
        } else if peek_punct(toks, pos, '-') {
            return Ok((BinOp::Subtract(s0), pos + 1));
        } else if peek_punct(toks, pos, '*') {
            return Ok((BinOp::Multiply(s0), pos + 1));
        } else if peek_punct(toks, pos, '/') {
            return Ok((BinOp::Divide(s0), pos + 1));
        } else if peek_punct(toks, pos, '%') {
            return Ok((BinOp::Modulo(s0), pos + 1));
        } else if peek_keyword(toks, pos, Keyword::And.text()) {
            return Ok((BinOp::And(s0), pos + 1));
        } else if peek_keyword(toks, pos, Keyword::Or.text()) {
            return Ok((BinOp::Or(s0), pos + 1));
        }
        let s1 = span_at_exec(toks, pos + 1, end);
        if peek_keyword(toks, pos, Keyword::Is.text()) {
            if peek_keyword(toks, pos + 1, Keyword::Not.text()) {
                return Ok((BinOp::IsNot(s0, s1), pos + 2));
            }
            if peek_keyword(toks, pos + 1, Keyword::Distinct.text()) {
                let s2 = span_at_exec(toks, pos + 2, end);
                if peek_keyword(toks, pos + 2, Keyword::From.text()) {
                    return Ok((BinOp::IsDistinctFrom(s0, s1, s2), pos + 3));
                }
                return Err(expected_at(Expected::Keyword(Keyword::From), s2));
            }
            return Ok((BinOp::Is(s0), pos + 1));
        }
        if peek_punct(toks, pos, '=') {
            Ok((BinOp::Eq(s0), pos + 1))
        } else if peek_punct(toks, pos, '<') {
            if peek_punct(toks, pos + 1, '>') {
                Ok((BinOp::Uneq(s0, s1), pos + 2))
            } else if peek_punct(toks, pos + 1, '=') {
                Ok((BinOp::LessThanOrEq(s0, s1), pos + 2))
            } else {
                Ok((BinOp::LessThan(s0), pos + 1))
            }
        } else if peek_punct(toks, pos, '>') {
            if peek_punct(toks, pos + 1, '=') {
                Ok((BinOp::GreaterThanOrEq(s0, s1), pos + 2))
            } else {
                Ok((BinOp::GreaterThan(s0), pos + 1))
            }
        } else {
            Err(expected_at(Expected::BinaryOperator, s0))
        }
    }

    /// The operator at `pos`, if one starts there.
    pub fn peek(toks: &Vec<TokenTree>, end: Span, pos: usize) -> (op: Option<BinOp>)
        requires
            pos <= toks.len(),
        ensures
            op == match spec_parse_binop(toks@, end, pos as int) {
                Ok((o, _)) => Some(o),
                Err(_) => None::<BinOp>,
            },
    {
        match BinOp::parse(toks, end, pos) {
            Ok((op, _)) => Some(op),
            Err(_) => None,
        }
    }
}

impl UnaryOp {
    pub fn peek(toks: &Vec<TokenTree>, pos: usize) -> (found: bool)
        ensures
            found == keyword_at(toks@, pos as int, Keyword::Not.spec_text()),
    {
        peek_keyword(toks, pos, Keyword::Not.text())
    }
}

impl Call {
    pub fn peek(toks: &Vec<TokenTree>, pos: usize) -> (found: bool)
        requires
            pos < usize::MAX,
        ensures
            found == (ident_at(toks@, pos as int) && group_at(toks@, pos + 1, Delimiter::Parenthesis)),
    {
        peek_ident(toks, pos) && peek_group(toks, pos + 1, Delimiter::Parenthesis)
    }
}

impl Cast {
    pub fn peek(toks: &Vec<TokenTree>, pos: usize) -> (found: bool)
        ensures
            found == keyword_at(toks@, pos as int, Keyword::Cast.spec_text()),
    {
        peek_keyword(toks, pos, Keyword::Cast.text())
    }
}


/// The executable and mathematical results agree once the executable value is
/// wrapped by `wrap`.
pub open spec fn agrees_via<T>(res: Result<(T, usize), ParseError>, wrap: spec_fn(T) -> ExprModel, spec: Result<(ExprModel, int), ParseError>) -> bool {
    match res {
        Ok((v, q)) => spec == Ok::<(ExprModel, int), ParseError>((wrap(v), q as int)),
        Err(e) => spec == Err::<(ExprModel, int), ParseError>(e),
    }
}

impl Paren {
    pub fn parse(toks: &Vec<TokenTree>, pos: usize) -> (res: Result<(Paren, usize), ParseError>)
        requires
            pos < toks.len(),
        ensures
            agrees_via(res, |p: Paren| Expr::Paren(p)@, spec_parse_paren(toks@, pos as int)),
            moved(res, toks@, pos as int),
        decreases toks@, toks.len() - pos, 0nat,
    {
        match &toks[pos] {
            TokenTree::Group { delimiter: Delimiter::Parenthesis, stream, span } => {
                proof {
                    assert(decreases_to!(toks@ => toks@[pos as int]));
                }
                let (e, q) = match parse_expr(stream, *span, 0, 0) {
                    Ok(r) => r,
                    Err(e) => return Err(e),
                };
                if q < stream.len() {
                    return Err(error_at(ErrorKind::UnexpectedToken, stream[q].span()));
                }
                Ok((Paren { paren: *span, expr: Box::new(e) }, pos + 1))
            },
            t => Err(expected_at(Expected::Parentheses, t.span())),
        }
    }
}

impl Cast {
    pub fn parse(toks: &Vec<TokenTree>, end: Span, pos: usize) -> (res: Result<(Cast, usize), ParseError>)
        requires
            pos <= toks.len(),
        ensures
            agrees_via(res, |c: Cast| Expr::Cast(c)@, spec_parse_cast(toks@, end, pos as int)),
            moved(res, toks@, pos as int),
        decreases toks@, toks.len() - pos, 0nat,
    {
        if !peek_keyword(toks, pos, Keyword::Cast.text()) {
            return Err(expected_at(Expected::Keyword(Keyword::Cast), span_at_exec(toks, pos, end)));
        }
        let cast = toks[pos].span();
        if !peek_group(toks, pos + 1, Delimiter::Parenthesis) {
            return Err(expected_at(Expected::Parentheses, span_at_exec(toks, pos + 1, end)));
        }
        match &toks[pos + 1] {
            TokenTree::Group { stream, span, .. } => {
                proof {
                    assert(decreases_to!(toks@ => toks@[pos + 1]));
                }
                let gspan = *span;
                let (v, q) = match parse_expr(stream, gspan, 0, 0) {
                    Ok(r) => r,
                    Err(e) => return Err(e),
                };
                if !peek_keyword(stream, q, Keyword::As.text()) {
                    return Err(expected_at(Expected::Keyword(Keyword::As), span_at_exec(stream, q, gspan)));
                }
                assert(q < stream.len());
                let as_token = stream[q].span();
                let (d, r) = match DataType::parse(stream, gspan, q + 1) {
                    Ok(r) => r,
                    Err(e) => return Err(e),
                };
                if r < stream.len() {
                    return Err(error_at(ErrorKind::UnexpectedToken, stream[r].span()));
                }
                Ok((Cast { cast, paren: gspan, value: Box::new(v), as_token, data_type: d }, pos + 2))
            },
            _ => {
                assert(false);
                Err(expected_at(Expected::Parentheses, end))
            },
        }
    }
}

impl Call {
    pub fn parse(toks: &Vec<TokenTree>, end: Span, pos: usize) -> (res: Result<(Call, usize), ParseError>)
        requires
            pos <= toks.len(),
        ensures
            agrees_via(res, |c: Call| Expr::Call(c)@, spec_parse_call(toks@, end, pos as int)),
            moved(res, toks@, pos as int),
        decreases toks@, toks.len() - pos, 0nat,
    {
        if !peek_ident(toks, pos) {
            return Err(expected_at(Expected::Identifier, span_at_exec(toks, pos, end)));
        }
        if !peek_group(toks, pos + 1, Delimiter::Parenthesis) {
            return Err(expected_at(Expected::Parentheses, span_at_exec(toks, pos + 1, end)));
        }
        let function = ident_at_exec(toks, pos);
        match &toks[pos + 1] {
            TokenTree::Group { stream, span, .. } => {
                proof {
                    assert(decreases_to!(toks@ => toks@[pos + 1]));
                }
                let (params, _) = match parse_params(stream, *span, 0) {
                    Ok(r) => r,
                    Err(e) => return Err(e),
                };
                Ok((Call { function, paren: *span, params }, pos + 2))
            },
            _ => {
                assert(false);
                Err(expected_at(Expected::Parentheses, end))
            },
        }
    }
}

/// Reads the arguments of a call up to the end of `toks`.
pub fn parse_params(toks: &Vec<TokenTree>, end: Span, pos: usize) -> (res: Result<(Vec<Expr>, usize), ParseError>)
    requires
        pos <= toks.len(),
    ensures
        match res {
            Ok((v, q)) => spec_parse_params(toks@, end, pos as int)
                == Ok::<(Seq<ExprModel>, int), ParseError>((exprs_view(v@), q as int)) && q == toks.len(),
            Err(e) => spec_parse_params(toks@, end, pos as int) == Err::<(Seq<ExprModel>, int), ParseError>(e),
        },
    decreases toks@, toks.len() - pos, 4nat,
{
    if pos == toks.len() {
        let v: Vec<Expr> = Vec::new();
        proof {
            lemma_exprs_view(v@);
            assert(exprs_view(v@) =~= Seq::<ExprModel>::empty());
        }
        return Ok((v, pos));
    }
    let (e, q) = match parse_expr(toks, end, pos, 0) {
        Ok(r) => r,
        Err(e) => return Err(e),
    };
    if q == toks.len() {
        let mut v: Vec<Expr> = Vec::new();
        let ghost m = e@;
        v.push(e);
        proof {
            lemma_exprs_view(v@);
            assert(exprs_view(v@) =~= seq![m]);
        }
        return Ok((v, q));
    }
    if !peek_punct(toks, q, ',') {
        return Err(expected_at(Expected::Punct(','), toks[q].span()));
    }
    let (mut rest, r) = match parse_params(toks, end, q + 1) {
        Ok(r) => r,
        Err(e) => return Err(e),
    };
    let ghost m = e@;
    let ghost old_rest = rest@;
    rest.insert(0, e);
    proof {
        lemma_exprs_view(rest@);
        lemma_exprs_view(old_rest);
        assert(exprs_view(rest@) =~= seq![m] + exprs_view(old_rest));
    }
    Ok((rest, r))
}

/// Reads a prefix expression: the first of the rules of `spec_parse_prefix`
/// that applies.
pub fn parse_prefix(toks: &Vec<TokenTree>, end: Span, pos: usize) -> (res: Result<(Expr, usize), ParseError>)
    requires
        pos <= toks.len(),
    ensures
        agrees(res, spec_parse_prefix(toks@, end, pos as int)),
        moved(res, toks@, pos as int),
    decreases toks@, toks.len() - pos, 1nat,
{
    if peek_group(toks, pos, Delimiter::Parenthesis) {
        return match Paren::parse(toks, pos) {
            Ok((p, q)) => Ok((Expr::Paren(p), q)),
            Err(e) => Err(e),
        };
    }
    if BindParam::peek(toks, pos) {
        return match BindParam::parse(toks, end, pos) {
            Ok((b, q)) => Ok((Expr::BindParam(b), q)),
            Err(e) => Err(e),
        };
    }
    if UnaryOp::peek(toks, pos) {
        let op = UnaryOp::Not(toks[pos].span());
        return match parse_expr(toks, end, pos + 1, op.precedence()) {
            Ok((e, q)) => Ok((Expr::Unary(Unary::new(op, e)), q)),
            Err(e) => Err(e),
        };
    }
    if Cast::peek(toks, pos) {
        return match Cast::parse(toks, end, pos) {
            Ok((c, q)) => Ok((Expr::Cast(c), q)),
            Err(e) => Err(e),
        };
    }
    match Lit::parse(toks, end, pos) {
        Ok((l, q)) => {
            return Ok((Expr::Lit(l), q));
        },
        Err(_) => {},
    }
    if pos < toks.len() && Call::peek(toks, pos) {
        return match Call::parse(toks, end, pos) {
            Ok((c, q)) => Ok((Expr::Call(c), q)),
            Err(e) => Err(e),
        };
    }
    match ColumnRef::parse(toks, end, pos) {
        Ok((c, q)) => Ok((Expr::ColumnRef(c), q)),
        Err(_) => Err(expected_at(Expected::Expression, span_at_exec(toks, pos, end))),
    }
}

/// Reads an expression whose binary operators all have a precedence of at
/// least `min`.
pub fn parse_expr(toks: &Vec<TokenTree>, end: Span, pos: usize, min: u32) -> (res: Result<(Expr, usize), ParseError>)
    requires
        pos <= toks.len(),
    ensures
        agrees(res, spec_parse_expr(toks@, end, pos as int, min)),
        moved(res, toks@, pos as int),
    decreases toks@, toks.len() - pos, 3nat,
{
    let (lhs, q) = match parse_prefix(toks, end, pos) {
        Ok(r) => r,
        Err(e) => return Err(e),
    };
    parse_expr_rest(toks, end, lhs, q, min)
}

/// Having read `lhs`, reads binary operators of precedence at least `min` and
/// their right operands, grouping to the left.
pub fn parse_expr_rest(toks: &Vec<TokenTree>, end: Span, lhs: Expr, pos: usize, min: u32) -> (res: Result<(Expr, usize), ParseError>)
    requires
        pos <= toks.len(),
    ensures
        agrees(res, spec_parse_expr_rest(toks@, end, lhs@, pos as int, min)),
        match res {
            Ok((_, q)) => pos <= q <= toks.len(),
            Err(_) => true,
        },
    decreases toks@, toks.len() - pos, 2nat,
{
    match BinOp::parse(toks, end, pos) {
        Ok((op, q)) => {
            let prec = op.precedence();
            if prec < min {
                return Ok((lhs, pos));
            }
            match parse_expr(toks, end, q, prec + 1) {
                Ok((rhs, r)) => {
                    let e = Expr::Binary(Binary::new(lhs, op, rhs));
                    parse_expr_rest(toks, end, e, r, min)
                },
                Err(e) => Err(e),
            }
        },
        Err(_) => Ok((lhs, pos)),
    }
}

impl Expr {
    /// Reads a whole expression at `pos`.
    pub fn parse(toks: &Vec<TokenTree>, end: Span, pos: usize) -> (res: Result<(Expr, usize), ParseError>)
        requires
            pos <= toks.len(),
        ensures
            agrees(res, spec_parse_expr(toks@, end, pos as int, 0)),
            moved(res, toks@, pos as int),
    {
        parse_expr(toks, end, pos, 0)
    }
}


// ---------------------------------------------------------------------------
// Laws: parsed expressions follow the precedence table and group to the left.
// ---------------------------------------------------------------------------

/// The precedence of an expression's root operator; an expression that is not
/// a binary operation binds tighter than any operator.
pub open spec fn top_precedence(e: ExprModel) -> u32 {
    match e {
        ExprModel::Binary { op, .. } => binop_precedence(op),
        _ => 10,
    }
}

/// Every binary operation in the tree has a left operand whose root operator
/// binds at least as tightly and a right operand whose root operator binds
/// strictly more tightly (so `a - b - c` is `(a - b) - c` and `a + b * c` is
/// `a + (b * c)`), and the operand of `not` holds no operator looser than `not`.
pub open spec fn precedence_respected(e: ExprModel) -> bool
    decreases e,
{
    match e {
        ExprModel::Binary { lhs, op, rhs } =>
            precedence_respected(*lhs) && precedence_respected(*rhs)
            && top_precedence(*lhs) >= binop_precedence(op)
            && top_precedence(*rhs) > binop_precedence(op),
        ExprModel::Unary { uop, operand } =>
            precedence_respected(*operand) && top_precedence(*operand) >= unary_precedence(uop),
        ExprModel::Paren { expr, .. } => precedence_respected(*expr),
        ExprModel::Cast { value, .. } => precedence_respected(*value),
        ExprModel::Call { params, .. } => all_precedence_respected(params),
        _ => true,
    }
}

/// Every expression of the list respects the precedence table.
pub open spec fn all_precedence_respected(s: Seq<ExprModel>) -> bool
    decreases s,
{
    if s.len() == 0 {
        true
    } else {
        precedence_respected(s[0]) && all_precedence_respected(s.subrange(1, s.len() as int))
    }
}

/// No operator of precedence `min` or higher follows at `pos`: the parse at
/// that level stopped as late as it could.
pub open spec fn stops_at(toks: Seq<TokenTree>, end: Span, pos: int, min: u32) -> bool {
    match spec_parse_binop(toks, end, pos) {
        Ok((op, _)) => binop_precedence(op) < min,
        Err(_) => true,
    }
}

pub proof fn lemma_paren_precedence(toks: Seq<TokenTree>, pos: int)
    requires
        0 <= pos < toks.len(),
    ensures
        spec_parse_paren(toks, pos) matches Ok((e, _)) ==> precedence_respected(e) && e !is Binary,
    decreases toks, toks.len() - pos, 0nat,
{
    if group_at(toks, pos, Delimiter::Parenthesis) {
        assert(decreases_to!(toks => toks[pos]));
        lemma_expr_precedence(group_stream(toks[pos]), tt_span(toks[pos]), 0, 0);
    }
}

pub proof fn lemma_cast_precedence(toks: Seq<TokenTree>, end: Span, pos: int)
    requires
        0 <= pos <= toks.len(),
    ensures
        spec_parse_cast(toks, end, pos) matches Ok((e, _)) ==> precedence_respected(e) && e !is Binary,
    decreases toks, toks.len() - pos, 0nat,
{
    if keyword_at(toks, pos, Keyword::Cast.spec_text()) && group_at(toks, pos + 1, Delimiter::Parenthesis) {
        assert(decreases_to!(toks => toks[pos + 1]));
        lemma_expr_precedence(group_stream(toks[pos + 1]), tt_span(toks[pos + 1]), 0, 0);
    }
}

pub proof fn lemma_call_precedence(toks: Seq<TokenTree>, end: Span, pos: int)
    requires
        0 <= pos <= toks.len(),
    ensures
        spec_parse_call(toks, end, pos) matches Ok((e, _)) ==> precedence_respected(e) && e !is Binary,
    decreases toks, toks.len() - pos, 0nat,
{
    if ident_at(toks, pos) && group_at(toks, pos + 1, Delimiter::Parenthesis) {
        assert(decreases_to!(toks => toks[pos + 1]));
        lemma_params_precedence(group_stream(toks[pos + 1]), tt_span(toks[pos + 1]), 0);
        match spec_parse_params(group_stream(toks[pos + 1]), tt_span(toks[pos + 1]), 0) {
            Ok((params, _)) => {
                let e = ExprModel::Call { function: ident_model_at(toks, pos), paren: tt_span(toks[pos + 1]), params };
                assert(precedence_respected(e));
            },
            Err(_) => {},
        }
    }
}

pub proof fn lemma_prefix_precedence(toks: Seq<TokenTree>, end: Span, pos: int)
    ensures
        spec_parse_prefix(toks, end, pos) matches Ok((e, _)) ==> precedence_respected(e) && e !is Binary,
    decreases toks, toks.len() - pos, 1nat,
{
    if pos < 0 || pos > toks.len() {
    } else if group_at(toks, pos, Delimiter::Parenthesis) {
        lemma_paren_precedence(toks, pos);
    } else if punct_at(toks, pos, ':') {
    } else if keyword_at(toks, pos, Keyword::Not.spec_text()) {
        lemma_expr_precedence(toks, end, pos + 1, 3);
    } else if keyword_at(toks, pos, Keyword::Cast.spec_text()) {
        lemma_cast_precedence(toks, end, pos);
    } else if spec_parse_lit(toks, end, pos) is Ok {
    } else if ident_at(toks, pos) && group_at(toks, pos + 1, Delimiter::Parenthesis) {
        lemma_call_precedence(toks, end, pos);
    }
}

pub proof fn lemma_params_precedence(toks: Seq<TokenTree>, end: Span, pos: int)
    ensures
        spec_parse_params(toks, end, pos) matches Ok((ps, _)) ==> all_precedence_respected(ps),
    decreases toks, toks.len() - pos, 4nat,
{
    if 0 <= pos < toks.len() {
        lemma_expr_precedence(toks, end, pos, 0);
        match spec_parse_expr(toks, end, pos, 0) {
            Ok((e, q)) => {
                assert(seq![e].subrange(1, 1) =~= Seq::<ExprModel>::empty());
                assert(all_precedence_respected(Seq::<ExprModel>::empty()));
                if advanced(toks, pos, q) && q < toks.len() && punct_at(toks, q, ',') {
                    lemma_params_precedence(toks, end, q + 1);
                    match spec_parse_params(toks, end, q + 1) {
                        Ok((rest, _)) => {
                            let all = seq![e] + rest;
                            assert(all.subrange(1, all.len() as int) =~= rest);
                            assert(all[0] == e);
                        },
                        Err(_) => {},
                    }
                }
            },
            Err(_) => {},
        }
    }
}

/// A parsed expression respects the precedence table, its root operator is
/// at least `min`, and the parse went on as long as an operator of precedence
/// `min` or higher followed.
pub proof fn lemma_expr_precedence(toks: Seq<TokenTree>, end: Span, pos: int, min: u32)
    requires
        min <= 10,
    ensures
        spec_parse_expr(toks, end, pos, min) matches Ok((e, q)) ==>
            precedence_respected(e) && top_precedence(e) >= min && stops_at(toks, end, q, min),
    decreases toks, toks.len() - pos, 3nat,
{
    if 0 <= pos <= toks.len() {
        lemma_prefix_precedence(toks, end, pos);
        match spec_parse_prefix(toks, end, pos) {
            Ok((lhs, q)) => {
                if advanced(toks, pos, q) {
                    lemma_rest_precedence(toks, end, lhs, q, min);
                }
            },
            Err(_) => {},
        }
    }
}

pub proof fn lemma_rest_precedence(toks: Seq<TokenTree>, end: Span, lhs: ExprModel, pos: int, min: u32)
    requires
        min <= 10,
        precedence_respected(lhs),
        top_precedence(lhs) >= min,
        spec_parse_binop(toks, end, pos) matches Ok((op, _)) ==>
            (binop_precedence(op) >= min ==> binop_precedence(op) <= top_precedence(lhs)),
    ensures
        spec_parse_expr_rest(toks, end, lhs, pos, min) matches Ok((e, q)) ==>
            precedence_respected(e) && top_precedence(e) >= min && stops_at(toks, end, q, min),
    decreases toks, toks.len() - pos, 2nat,
{
    if 0 <= pos <= toks.len() {
        match spec_parse_binop(toks, end, pos) {
            Ok((op, q)) => {
                let p = binop_precedence(op);
                if p >= min && advanced(toks, pos, q) {
                    lemma_expr_precedence(toks, end, q, (p + 1) as u32);
                    match spec_parse_expr(toks, end, q, (p + 1) as u32) {
                        Ok((rhs, r)) => {
                            if advanced(toks, pos, r) {
                                let e = ExprModel::Binary { lhs: Box::new(lhs), op, rhs: Box::new(rhs) };
                                assert(precedence_respected(e));
                                lemma_rest_precedence(toks, end, e, r, min);
                            }
                        },
                        Err(_) => {},
                    }
                }
            },
            Err(_) => {},
        }
    }
}


// ---------------------------------------------------------------------------
// What an expression names.
// ---------------------------------------------------------------------------

impl Expr {
    /// The name an expression gives a result column: a column reference names
    /// its column, a cast names what its value names, anything else names
    /// nothing.
    pub open spec fn spec_infer_name(&self) -> Option<&Ident>
        decreases self,
    {
        match self {
            Expr::ColumnRef(c) => Some(&c.name),
            Expr::Cast(c) => (*c.value).spec_infer_name(),
            _ => None,
        }
    }

    pub fn infer_name(&self) -> (name: Option<&Ident>)
        ensures
            name == self.spec_infer_name(),
        decreases self,
    {
        match self {
            Expr::ColumnRef(c) => Some(&c.name),
            Expr::Cast(c) => c.value.infer_name(),
            _ => None,
        }
    }
}

// ---------------------------------------------------------------------------
// Where an expression stands.
// ---------------------------------------------------------------------------

/// The first and the last span of a literal.
pub open spec fn lit_span_bounds(l: LitModel) -> (Span, Span) {
    match l {
        LitModel::Int(t) => (t.span, t.span),
        LitModel::Float(t) => (t.span, t.span),
        LitModel::Str(t) => (t.span, t.span),
        LitModel::Bool(t) => (t.span, t.span),
        LitModel::Null(s) => (s, s),
    }
}

/// The spans that an expression's source stretches between: the span of its
/// text is the join of the two, which the compiler makes.
pub open spec fn expr_span_bounds(e: ExprModel) -> (Span, Span)
    decreases e,
{
    match e {
        ExprModel::Binary { lhs, rhs, .. } => (expr_span_bounds(*lhs).0, expr_span_bounds(*rhs).1),
        ExprModel::BindParam { colon, name } => (colon, name.span),
        ExprModel::Call { function, paren, .. } => (function.span, paren),
        ExprModel::Cast { cast, paren, .. } => (cast, paren),
        ExprModel::ColumnRef { correlation, name } => match correlation {
            Some((c, _)) => (c.span, name.span),
            None => (name.span, name.span),
        },
        ExprModel::Lit(l) => lit_span_bounds(l),
        ExprModel::Paren { paren, .. } => (paren, paren),
        ExprModel::Unary { uop, operand } => match uop {
            UnaryOp::Not(s) => (s, expr_span_bounds(*operand).1),
        },
    }
}

impl Lit {
    pub fn span(&self) -> (bounds: (Span, Span))
        ensures
            bounds == lit_span_bounds(self@),
    {
        match self {
            Lit::Int(t) => (t.span, t.span),
            Lit::Float(t) => (t.span, t.span),
            Lit::Str(t) => (t.span, t.span),
            Lit::Bool(t) => (t.span, t.span),
            Lit::Null(s) => (*s, *s),
        }
    }
}

impl ColumnRef {
    /// From the correlation's name, where there is one, to the column's name.
    pub fn span(&self) -> (bounds: (Span, Span))
        ensures
            bounds == expr_span_bounds(ExprModel::ColumnRef {
                correlation: match self.correlation {
                    Some(k) => Some((k.name@, k.period)),
                    None => None,
                },
                name: self.name@,
            }),
    {
        match &self.correlation {
            Some(c) => (c.name.span, self.name.span),
            None => (self.name.span, self.name.span),
        }
    }
}

impl Expr {
    /// The first and the last span of the expression's source.
    pub fn span(&self) -> (bounds: (Span, Span))
        ensures
            bounds == expr_span_bounds(self@),
        decreases self,
    {
        match self {
            Expr::Binary(b) => (b.lhs.span().0, b.rhs.span().1),
            Expr::BindParam(b) => (b.colon, b.name.span),
            Expr::Call(c) => (c.function.span, c.paren),
            Expr::Cast(c) => (c.cast, c.paren),
            Expr::ColumnRef(c) => c.span(),
            Expr::Lit(l) => l.span(),
            Expr::Paren(p) => (p.paren, p.paren),
            Expr::Unary(u) => match u.op {
                UnaryOp::Not(s) => (s, u.operand.span().1),
            },
        }
    }
}

// ---------------------------------------------------------------------------
// Law: operators bind by PostgreSQL's table.
// ---------------------------------------------------------------------------

/// PostgreSQL's precedence tiers, tightest first, by the token that starts an
/// operator: `*` `/` `%`; then `+` `-`; then the comparisons `=` `<` `>` (and
/// `<>` `<=` `>=`); then `is` (`is not`, `is distinct from`); then `and`; then
/// `or`.
pub open spec fn operator_tier(toks: Seq<TokenTree>, pos: int) -> int {
    if punct_at(toks, pos, '*') || punct_at(toks, pos, '/') || punct_at(toks, pos, '%') {
        1
    } else if punct_at(toks, pos, '+') || punct_at(toks, pos, '-') {
        2
    } else if punct_at(toks, pos, '=') || punct_at(toks, pos, '<') || punct_at(toks, pos, '>') {
        3
    } else if keyword_at(toks, pos, "is"@) {
        4
    } else if keyword_at(toks, pos, "and"@) {
        5
    } else {
        6
    }
}

proof fn lemma_tier_precedence(toks: Seq<TokenTree>, end: Span, pos: int)
    requires
        spec_parse_binop(toks, end, pos) is Ok,
    ensures
        ({
            let p = binop_precedence(spec_parse_binop(toks, end, pos)->Ok_0.0);
            let t = operator_tier(toks, pos);
            &&& t == 1 ==> p == 9
            &&& t == 2 ==> p == 8
            &&& t == 3 ==> p == 5
            &&& t == 4 ==> p == 4
            &&& t == 5 ==> p == 2
            &&& t == 6 ==> p == 1
            &&& 1 <= t <= 6
        }),
{
    assert(Keyword::Is.spec_text() == "is"@);
    assert(Keyword::And.spec_text() == "and"@);
    assert(Keyword::Or.spec_text() == "or"@);
    reveal_strlit("is");
    reveal_strlit("and");
    reveal_strlit("or");
    assert("is"@.len() != "and"@.len() && "is"@[0] != "or"@[0] && "and"@.len() != "or"@.len());
}

/// Of two operators read from tokens, one binds more tightly than the other
/// exactly when its tier comes first in PostgreSQL's table, and they bind
/// equally exactly when they share a tier: so `a + b / c` groups as
/// `a + (b / c)`, and `a - b + c` as `(a - b) + c`.
pub proof fn lemma_operator_tiers(t1: Seq<TokenTree>, e1: Span, p1: int, t2: Seq<TokenTree>, e2: Span, p2: int)
    requires
        spec_parse_binop(t1, e1, p1) is Ok,
        spec_parse_binop(t2, e2, p2) is Ok,
    ensures
        (binop_precedence(spec_parse_binop(t1, e1, p1)->Ok_0.0) > binop_precedence(spec_parse_binop(t2, e2, p2)->Ok_0.0))
            <==> operator_tier(t1, p1) < operator_tier(t2, p2),
        (binop_precedence(spec_parse_binop(t1, e1, p1)->Ok_0.0) == binop_precedence(spec_parse_binop(t2, e2, p2)->Ok_0.0))
            <==> operator_tier(t1, p1) == operator_tier(t2, p2),
{
    lemma_tier_precedence(t1, e1, p1);
    lemma_tier_precedence(t2, e2, p2);
}

/// Each operator is the one its tokens spell: `+` adds, `-` subtracts, `*`
/// multiplies, `/` divides, `%` takes the remainder, `=` `<>` `<` `>` `<=`
/// `>=` compare, `is`, `is not` and `is distinct from` test, `and` and `or`
/// combine; each reads as many tokens as it spells.
pub proof fn lemma_binop_names(toks: Seq<TokenTree>, end: Span, pos: int)
    ensures
        punct_at(toks, pos, '+') ==> (spec_parse_binop(toks, end, pos) matches Ok((BinOp::Add(_), q)) && q == pos + 1),
        punct_at(toks, pos, '-') ==> (spec_parse_binop(toks, end, pos) matches Ok((BinOp::Subtract(_), q)) && q == pos + 1),
        punct_at(toks, pos, '*') ==> (spec_parse_binop(toks, end, pos) matches Ok((BinOp::Multiply(_), q)) && q == pos + 1),
        punct_at(toks, pos, '/') ==> (spec_parse_binop(toks, end, pos) matches Ok((BinOp::Divide(_), q)) && q == pos + 1),
        punct_at(toks, pos, '%') ==> (spec_parse_binop(toks, end, pos) matches Ok((BinOp::Modulo(_), q)) && q == pos + 1),
        punct_at(toks, pos, '=') ==> (spec_parse_binop(toks, end, pos) matches Ok((BinOp::Eq(_), q)) && q == pos + 1),
        punct_at(toks, pos, '<') && punct_at(toks, pos + 1, '>')
            ==> (spec_parse_binop(toks, end, pos) matches Ok((BinOp::Uneq(..), q)) && q == pos + 2),
        punct_at(toks, pos, '<') && punct_at(toks, pos + 1, '=')
            ==> (spec_parse_binop(toks, end, pos) matches Ok((BinOp::LessThanOrEq(..), q)) && q == pos + 2),
        punct_at(toks, pos, '<') && !punct_at(toks, pos + 1, '>') && !punct_at(toks, pos + 1, '=')
            ==> (spec_parse_binop(toks, end, pos) matches Ok((BinOp::LessThan(_), q)) && q == pos + 1),
        punct_at(toks, pos, '>') && punct_at(toks, pos + 1, '=')
            ==> (spec_parse_binop(toks, end, pos) matches Ok((BinOp::GreaterThanOrEq(..), q)) && q == pos + 2),
        punct_at(toks, pos, '>') && !punct_at(toks, pos + 1, '=')
            ==> (spec_parse_binop(toks, end, pos) matches Ok((BinOp::GreaterThan(_), q)) && q == pos + 1),
        keyword_at(toks, pos, "and"@) ==> (spec_parse_binop(toks, end, pos) matches Ok((BinOp::And(_), q)) && q == pos + 1),
        keyword_at(toks, pos, "or"@) ==> (spec_parse_binop(toks, end, pos) matches Ok((BinOp::Or(_), q)) && q == pos + 1),
        keyword_at(toks, pos, "is"@) && keyword_at(toks, pos + 1, "not"@)
            ==> (spec_parse_binop(toks, end, pos) matches Ok((BinOp::IsNot(..), q)) && q == pos + 2),
        keyword_at(toks, pos, "is"@) && keyword_at(toks, pos + 1, "distinct"@) && keyword_at(toks, pos + 2, "from"@)
            ==> (spec_parse_binop(toks, end, pos) matches Ok((BinOp::IsDistinctFrom(..), q)) && q == pos + 3),
        keyword_at(toks, pos, "is"@) && !keyword_at(toks, pos + 1, "not"@) && !keyword_at(toks, pos + 1, "distinct"@)
            ==> (spec_parse_binop(toks, end, pos) matches Ok((BinOp::Is(_), q)) && q == pos + 1),
{
    assert(Keyword::Is.spec_text() == "is"@);
    assert(Keyword::And.spec_text() == "and"@);
    assert(Keyword::Or.spec_text() == "or"@);
    assert(Keyword::Not.spec_text() == "not"@);
    assert(Keyword::Distinct.spec_text() == "distinct"@);
    assert(Keyword::From.spec_text() == "from"@);
    reveal_strlit("not");
    reveal_strlit("distinct");
    assert("not"@[0] != "distinct"@[0]);
    reveal_strlit("is");
    reveal_strlit("and");
    reveal_strlit("or");
    assert("is"@.len() != "and"@.len() && "is"@[0] != "or"@[0] && "and"@.len() != "or"@.len());
}

} // verus!

//! The column data types of the macro language.

use vstd::prelude::*;
use crate::error::{Keyword, Expected, ParseError, expected, expected_at};
use crate::token::{Span, TokenTree, keyword_at, tt_span, span_at, peek_keyword, span_at_exec};

verus! {

/// A column data type with the span of its keyword.
#[derive(Clone, Copy, PartialEq, Eq, Structural, Debug)]
pub enum DataType {
    Int(Span),
    Text(Span),
}

/// `int` or `text` at `pos`.
pub open spec fn spec_parse_data_type(toks: Seq<TokenTree>, end: Span, pos: int) -> Result<(DataType, int), ParseError> {
    if keyword_at(toks, pos, Keyword::Int.spec_text()) {
        Ok((DataType::Int(tt_span(toks[pos])), pos + 1))
    } else if keyword_at(toks, pos, Keyword::Text.spec_text()) {
        Ok((DataType::Text(tt_span(toks[pos])), pos + 1))
    } else {
        expected(Expected::DataType, span_at(toks, pos, end))
    }
}

impl DataType {
    pub fn parse(toks: &Vec<TokenTree>, end: Span, pos: usize) -> (res: Result<(DataType, usize), ParseError>)
        requires
            pos <= toks.len(),
        ensures
            match res {
                Ok((d, q)) => spec_parse_data_type(toks@, end, pos as int) == Ok::<(DataType, int), ParseError>((d, q as int)),
                Err(e) => spec_parse_data_type(toks@, end, pos as int) == Err::<(DataType, int), ParseError>(e),
            },
    {
        if peek_keyword(toks, pos, Keyword::Int.text()) {
            Ok((DataType::Int(toks[pos].span()), pos + 1))
        } else if peek_keyword(toks, pos, Keyword::Text.text()) {
            Ok((DataType::Text(toks[pos].span()), pos + 1))
        } else {
            Err(expected_at(Expected::DataType, span_at_exec(toks, pos, end)))
        }
    }

    /// The name of the data type in SQL.
    pub open spec fn spec_name(self) -> Seq<char> {
        match self {
            DataType::Int(_) => "int"@,
            DataType::Text(_) => "text"@,
        }
    }

    pub fn name(&self) -> (name: &'static str)
        ensures
            name@ == self.spec_name(),
    {
        match self {
            DataType::Int(_) => "int",
            DataType::Text(_) => "text",
        }
    }
}

} // verus!

//! Small pieces of syntax shared by the statements and queries: attributes,
//! aliases, type annotations and column lists.

use vstd::prelude::*;
use crate::error::{Keyword, Expected, ErrorKind, ParseError, expected, expected_at, error_at};
use crate::token::{
    Span, TokenTree, TokenModel, Ident, IdentModel, Delimiter, tts_view, copy_stream, tt_span, span_at,
    span_at_exec, keyword_at, ident_at, punct_at, group_at, group_stream, peek_keyword, peek_ident,
    peek_punct, peek_group, Spacing,
};
use crate::expr::{agrees, ident_model_at, ident_at_exec};
use crate::path::{Path, PathModel, spec_parse_path};

verus! {

/// An attribute `#[...]` (or, inner, `#![...]`) with its content kept as tokens.
#[derive(Debug)]
pub struct Attribute {
    pub pound: Span,
    pub bang: Option<Span>,
    pub bracket: Span,
    pub tokens: Vec<TokenTree>,
}

pub struct AttributeModel {
    pub pound: Span,
    pub bang: Option<Span>,
    pub bracket: Span,
    pub tokens: Seq<TokenModel>,
}

impl View for Attribute {
    type V = AttributeModel;

    open spec fn view(&self) -> AttributeModel {
        AttributeModel { pound: self.pound, bang: self.bang, bracket: self.bracket, tokens: tts_view(self.tokens@) }
    }
}

pub open spec fn attrs_view(v: Seq<Attribute>) -> Seq<AttributeModel> {
    v.map_values(|a: Attribute| a@)
}

/// Outer attributes `#[...]` from `pos` on.
pub open spec fn spec_parse_outer_attrs(toks: Seq<TokenTree>, end: Span, pos: int) -> Result<(Seq<AttributeModel>, int), ParseError>
    decreases toks.len() - pos,
{
    if pos < 0 || pos >= toks.len() || !punct_at(toks, pos, '#') {
        Ok((Seq::empty(), pos))
    } else if !group_at(toks, pos + 1, Delimiter::Bracket) {
        expected(Expected::Brackets, span_at(toks, pos + 1, end))
    } else {
        let attr = AttributeModel {
            pound: tt_span(toks[pos]),
            bang: None,
            bracket: tt_span(toks[pos + 1]),
            tokens: tts_view(group_stream(toks[pos + 1])),
        };
        match spec_parse_outer_attrs(toks, end, pos + 2) {
            Ok((rest, q)) => Ok((seq![attr] + rest, q)),
            Err(e) => Err(e),
        }
    }
}

/// Inner attributes `#![...]` from `pos` on.
pub open spec fn spec_parse_inner_attrs(toks: Seq<TokenTree>, end: Span, pos: int) -> Result<(Seq<AttributeModel>, int), ParseError>
    decreases toks.len() - pos,
{
    if pos < 0 || pos >= toks.len() || !punct_at(toks, pos, '#') || !punct_at(toks, pos + 1, '!') {
        Ok((Seq::empty(), pos))
    } else if !group_at(toks, pos + 2, Delimiter::Bracket) {
        expected(Expected::Brackets, span_at(toks, pos + 2, end))
    } else {
        let attr = AttributeModel {
            pound: tt_span(toks[pos]),
            bang: Some(tt_span(toks[pos + 1])),
            bracket: tt_span(toks[pos + 2]),
            tokens: tts_view(group_stream(toks[pos + 2])),
        };
        match spec_parse_inner_attrs(toks, end, pos + 3) {
            Ok((rest, q)) => Ok((seq![attr] + rest, q)),
            Err(e) => Err(e),
        }
    }
}

/// Executable list results agree with their models.
pub open spec fn agrees_list<T: View>(res: Result<(Vec<T>, usize), ParseError>, spec: Result<(Seq<T::V>, int), ParseError>) -> bool {
    match res {
        Ok((v, q)) => spec == Ok::<(Seq<T::V>, int), ParseError>((v@.map_values(|x: T| x@), q as int)),
        Err(e) => spec == Err::<(Seq<T::V>, int), ParseError>(e),
    }
}

/// Puts `x` in front of the list, keeping the views in step.
pub fn prepend<T: View>(v: &mut Vec<T>, x: T)
    ensures
        final(v)@.map_values(|y: T| y@) == seq![x@] + old(v)@.map_values(|y: T| y@),
{
    let ghost xm = x@;
    let ghost before = v@;
    v.insert(0, x);
    assert(v@.map_values(|y: T| y@) =~= seq![xm] + before.map_values(|y: T| y@));
}

impl Attribute {
    pub fn parse_outer(toks: &Vec<TokenTree>, end: Span, pos: usize) -> (res: Result<(Vec<Attribute>, usize), ParseError>)
        requires
            pos <= toks.len(),
        ensures
            agrees_list(res, spec_parse_outer_attrs(toks@, end, pos as int)),
            res matches Ok((_, q)) ==> pos <= q <= toks.len(),
        decreases toks.len() - pos,
    {
        if pos >= toks.len() || !peek_punct(toks, pos, '#') {
            let v: Vec<Attribute> = Vec::new();
            assert(v@.map_values(|x: Attribute| x@) =~= Seq::<AttributeModel>::empty());
            return Ok((v, pos));
        }
        if !peek_group(toks, pos + 1, Delimiter::Bracket) {
            return Err(expected_at(Expected::Brackets, span_at_exec(toks, pos + 1, end)));
        }
        let attr = match &toks[pos + 1] {
            TokenTree::Group { stream, span, .. } => Attribute {
                pound: toks[pos].span(),
                bang: None,
                bracket: *span,
                tokens: copy_stream(stream),
            },
            _ => {
                assert(false);
                return Err(expected_at(Expected::Brackets, end));
            },
        };
        let (mut rest, q) = match Attribute::parse_outer(toks, end, pos + 2) {
            Ok(r) => r,
            Err(e) => return Err(e),
        };
        prepend(&mut rest, attr);
        Ok((rest, q))
    }

    pub fn parse_inner(toks: &Vec<TokenTree>, end: Span, pos: usize) -> (res: Result<(Vec<Attribute>, usize), ParseError>)
        requires
            pos <= toks.len(),
        ensures
            agrees_list(res, spec_parse_inner_attrs(toks@, end, pos as int)),
            res matches Ok((_, q)) ==> pos <= q <= toks.len(),
        decreases toks.len() - pos,
    {
        if pos >= toks.len() || !peek_punct(toks, pos, '#') || !peek_punct(toks, pos + 1, '!') {
            let v: Vec<Attribute> = Vec::new();
            assert(v@.map_values(|x: Attribute| x@) =~= Seq::<AttributeModel>::empty());
            return Ok((v, pos));
        }
        if !peek_group(toks, pos + 2, Delimiter::Bracket) {
            return Err(expected_at(Expected::Brackets, span_at_exec(toks, pos + 2, end)));
        }
        let attr = match &toks[pos + 2] {
            TokenTree::Group { stream, span, .. } => Attribute {
                pound: toks[pos].span(),
                bang: Some(toks[pos + 1].span()),
                bracket: *span,
                tokens: copy_stream(stream),
            },
            _ => {
                assert(false);
                return Err(expected_at(Expected::Brackets, end));
            },
        };
        let (mut rest, q) = match Attribute::parse_inner(toks, end, pos + 3) {
            Ok(r) => r,
            Err(e) => return Err(e),
        };
        prepend(&mut rest, attr);
        Ok((rest, q))
    }

    pub fn duplicate(&self) -> (copy: Attribute)
        ensures
            copy@ == self@,
    {
        Attribute { pound: self.pound, bang: self.bang, bracket: self.bracket, tokens: copy_stream(&self.tokens) }
    }
}

/// Copies of a list of attributes.
pub fn copy_attrs(attrs: &Vec<Attribute>) -> (copy: Vec<Attribute>)
    ensures
        attrs_view(copy@) == attrs_view(attrs@),
{
    let mut copy: Vec<Attribute> = Vec::new();
    let mut i: usize = 0;
    while i < attrs.len()
        invariant
            i <= attrs.len(),
            attrs_view(copy@) == attrs_view(attrs@.subrange(0, i as int)),
        decreases attrs.len() - i,
    {
        let ghost before = copy@;
        copy.push(attrs[i].duplicate());
        assert(attrs_view(copy@) =~= attrs_view(before).push(attrs@[i as int]@));
        assert(attrs_view(attrs@.subrange(0, i + 1)) =~= attrs_view(attrs@.subrange(0, i as int)).push(attrs@[i as int]@));
        i += 1;
    }
    assert(attrs@.subrange(0, attrs.len() as int) =~= attrs@);
    copy
}

/// `as name`.
#[derive(Debug)]
pub struct Alias {
    pub as_token: Span,
    pub ident: Ident,
}

pub struct AliasModel {
    pub as_token: Span,
    pub ident: IdentModel,
}

impl View for Alias {
    type V = AliasModel;

    open spec fn view(&self) -> AliasModel {
        AliasModel { as_token: self.as_token, ident: self.ident@ }
    }
}

pub open spec fn spec_parse_alias(toks: Seq<TokenTree>, end: Span, pos: int) -> Result<(AliasModel, int), ParseError> {
    if !keyword_at(toks, pos, Keyword::As.spec_text()) {
        expected(Expected::Keyword(Keyword::As), span_at(toks, pos, end))
    } else if !ident_at(toks, pos + 1) {
        expected(Expected::Identifier, span_at(toks, pos + 1, end))
    } else {
        Ok((AliasModel { as_token: tt_span(toks[pos]), ident: ident_model_at(toks, pos + 1) }, pos + 2))
    }
}

/// An optional result at `pos`: absent unless `present`, else what `parsed` says.
pub open spec fn optional<T>(present: bool, parsed: Result<(T, int), ParseError>, pos: int) -> Result<(Option<T>, int), ParseError> {
    if !present {
        Ok((None, pos))
    } else {
        match parsed {
            Ok((v, q)) => Ok((Some(v), q)),
            Err(e) => Err(e),
        }
    }
}

/// Optional executable results agree with their models.
pub open spec fn agrees_opt<T: View>(res: Result<(Option<T>, usize), ParseError>, spec: Result<(Option<T::V>, int), ParseError>) -> bool {
    match res {
        Ok((Some(v), q)) => spec == Ok::<(Option<T::V>, int), ParseError>((Some(v@), q as int)),
        Ok((None, q)) => spec == Ok::<(Option<T::V>, int), ParseError>((None, q as int)),
        Err(e) => spec == Err::<(Option<T::V>, int), ParseError>(e),
    }
}

pub open spec fn opt_view<T: View>(o: Option<T>) -> Option<T::V> {
    match o {
        Some(v) => Some(v@),
        None => None,
    }
}

impl Alias {
    pub fn peek(toks: &Vec<TokenTree>, pos: usize) -> (found: bool)
        ensures
            found == keyword_at(toks@, pos as int, Keyword::As.spec_text()),
    {
        peek_keyword(toks, pos, Keyword::As.text())
    }

    pub fn parse(toks: &Vec<TokenTree>, end: Span, pos: usize) -> (res: Result<(Alias, usize), ParseError>)
        requires
            pos <= toks.len(),
        ensures
            agrees(res, spec_parse_alias(toks@, end, pos as int)),
            res matches Ok((_, q)) ==> pos < q <= toks.len(),
    {
        if !peek_keyword(toks, pos, Keyword::As.text()) {
            return Err(expected_at(Expected::Keyword(Keyword::As), span_at_exec(toks, pos, end)));
        }
        if !peek_ident(toks, pos + 1) {
            return Err(expected_at(Expected::Identifier, span_at_exec(toks, pos + 1, end)));
        }
        Ok((Alias { as_token: toks[pos].span(), ident: ident_at_exec(toks, pos + 1) }, pos + 2))
    }

    pub fn parse_optional(toks: &Vec<TokenTree>, end: Span, pos: usize) -> (res: Result<(Option<Alias>, usize), ParseError>)
        requires
            pos <= toks.len(),
        ensures
            agrees_opt(res, optional(keyword_at(toks@, pos as int, Keyword::As.spec_text()), spec_parse_alias(toks@, end, pos as int), pos as int)),
            res matches Ok((_, q)) ==> pos <= q <= toks.len(),
    {
        if Alias::peek(toks, pos) {
            match Alias::parse(toks, end, pos) {
                Ok((a, q)) => Ok((Some(a), q)),
                Err(e) => Err(e),
            }
        } else {
            Ok((None, pos))
        }
    }
}

/// `as name`, read where a name is required.
#[derive(Debug)]
pub struct AsIdent {
    pub alias: Alias,
}

impl AsIdent {
    pub fn parse(toks: &Vec<TokenTree>, end: Span, pos: usize) -> (res: Result<(AsIdent, usize), ParseError>)
        requires
            pos <= toks.len(),
        ensures
            match res {
                Ok((a, q)) => spec_parse_alias(toks@, end, pos as int) == Ok::<(AliasModel, int), ParseError>((a.alias@, q as int)),
                Err(e) => spec_parse_alias(toks@, end, pos as int) == Err::<(AliasModel, int), ParseError>(e),
            },
    {
        match Alias::parse(toks, end, pos) {
            Ok((alias, q)) => Ok((AsIdent { alias }, q)),
            Err(e) => Err(e),
        }
    }

    pub fn ident(&self) -> (ident: &Ident)
        ensures
            ident == &self.alias.ident,
    {
        &self.alias.ident
    }
}

/// A type annotation `: path`.
#[derive(Debug)]
pub struct ColonType {
    pub colon: Span,
    pub type_path: Path,
}

pub struct ColonTypeModel {
    pub colon: Span,
    pub type_path: PathModel,
}

impl View for ColonType {
    type V = ColonTypeModel;

    open spec fn view(&self) -> ColonTypeModel {
        ColonTypeModel { colon: self.colon, type_path: self.type_path@ }
    }
}

pub open spec fn spec_parse_colon_type(toks: Seq<TokenTree>, end: Span, pos: int) -> Result<(ColonTypeModel, int), ParseError> {
    if !punct_at(toks, pos, ':') {
        expected(Expected::Punct(':'), span_at(toks, pos, end))
    } else {
        match spec_parse_path(toks, end, pos + 1) {
            Ok((p, q)) => Ok((ColonTypeModel { colon: tt_span(toks[pos]), type_path: p }, q)),
            Err(e) => Err(e),
        }
    }
}

impl ColonType {
    pub fn parse(toks: &Vec<TokenTree>, end: Span, pos: usize) -> (res: Result<(ColonType, usize), ParseError>)
        requires
            pos <= toks.len(),
        ensures
            agrees(res, spec_parse_colon_type(toks@, end, pos as int)),
            res matches Ok((_, q)) ==> pos < q <= toks.len(),
    {
        if !peek_punct(toks, pos, ':') {
            return Err(expected_at(Expected::Punct(':'), span_at_exec(toks, pos, end)));
        }
        match Path::parse(toks, end, pos + 1) {
            Ok((type_path, q)) => Ok((ColonType { colon: toks[pos].span(), type_path }, q)),
            Err(e) => Err(e),
        }
    }

    pub fn parse_optional(toks: &Vec<TokenTree>, end: Span, pos: usize) -> (res: Result<(Option<ColonType>, usize), ParseError>)
        requires
            pos <= toks.len(),
        ensures
            agrees_opt(res, optional(punct_at(toks@, pos as int, ':'), spec_parse_colon_type(toks@, end, pos as int), pos as int)),
            res matches Ok((_, q)) ==> pos <= q <= toks.len(),
    {
        if peek_punct(toks, pos, ':') {
            match ColonType::parse(toks, end, pos) {
                Ok((c, q)) => Ok((Some(c), q)),
                Err(e) => Err(e),
            }
        } else {
            Ok((None, pos))
        }
    }

    pub fn type_path(&self) -> (p: &Path)
        ensures
            p == &self.type_path,
    {
        &self.type_path
    }

    /// Appends `: path` as it was read.
    pub fn to_tokens(&self, out: &mut Vec<TokenTree>)
        ensures
            tts_view(final(out)@) == tts_view(old(out)@)
                + seq![TokenModel::Punct { ch: ':', spacing: Spacing::Alone, span: self.colon }]
                + crate::path::path_tokens(self.type_path@),
    {
        let ghost start = tts_view(out@);
        crate::emit::push_token(out, TokenTree::Punct { ch: ':', spacing: Spacing::Alone, span: self.colon });
        self.type_path.to_tokens(out);
        assert(tts_view(out@) =~= start + seq![TokenModel::Punct { ch: ':', spacing: Spacing::Alone, span: self.colon }]
            + crate::path::path_tokens(self.type_path@));
    }
}

/// `type path`; the optional form is only tried where a `:` follows.
#[derive(Debug)]
pub struct AsType {
    pub type_token: Span,
    pub type_path: Path,
}

pub struct AsTypeModel {
    pub type_token: Span,
    pub type_path: PathModel,
}

impl View for AsType {
    type V = AsTypeModel;

    open spec fn view(&self) -> AsTypeModel {
        AsTypeModel { type_token: self.type_token, type_path: self.type_path@ }
    }
}

pub open spec fn spec_parse_as_type(toks: Seq<TokenTree>, end: Span, pos: int) -> Result<(AsTypeModel, int), ParseError> {
    if !keyword_at(toks, pos, Keyword::Type.spec_text()) {
        expected(Expected::Keyword(Keyword::Type), span_at(toks, pos, end))
    } else {
        match spec_parse_path(toks, end, pos + 1) {
            Ok((p, q)) => Ok((AsTypeModel { type_token: tt_span(toks[pos]), type_path: p }, q)),
            Err(e) => Err(e),
        }
    }
}

impl AsType {
    pub fn parse(toks: &Vec<TokenTree>, end: Span, pos: usize) -> (res: Result<(AsType, usize), ParseError>)
        requires
            pos <= toks.len(),
        ensures
            agrees(res, spec_parse_as_type(toks@, end, pos as int)),
            res matches Ok((_, q)) ==> pos < q <= toks.len(),
    {
        if !peek_keyword(toks, pos, Keyword::Type.text()) {
            return Err(expected_at(Expected::Keyword(Keyword::Type), span_at_exec(toks, pos, end)));
        }
        match Path::parse(toks, end, pos + 1) {
            Ok((type_path, q)) => Ok((AsType { type_token: toks[pos].span(), type_path }, q)),
            Err(e) => Err(e),
        }
    }

    /// Tried only where a `:` follows, and then it requires `type`.
    pub fn parse_optional(toks: &Vec<TokenTree>, end: Span, pos: usize) -> (res: Result<(Option<AsType>, usize), ParseError>)
        requires
            pos <= toks.len(),
        ensures
            agrees_opt(res, optional(punct_at(toks@, pos as int, ':'), spec_parse_as_type(toks@, end, pos as int), pos as int)),
    {
        if peek_punct(toks, pos, ':') {
            match AsType::parse(toks, end, pos) {
                Ok((c, q)) => Ok((Some(c), q)),
                Err(e) => Err(e),
            }
        } else {
            Ok((None, pos))
        }
    }

    pub fn type_path(&self) -> (p: &Path)
        ensures
            p == &self.type_path,
    {
        &self.type_path
    }
}

/// A type override `: RustType` on a field.
pub type TypeOverride = ColonType;

} // verus!

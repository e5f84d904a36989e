//! Rust paths as they appear in the macro input (`schema::users`,
//! `::std::string::String`, `Option<i64>`), and the rewriting that makes a
//! path written at the macro's call site usable inside the generated modules.

use vstd::prelude::*;
use crate::error::{Expected, ParseError, expected, expected_at};
use crate::token::{
    copy_stream,
    Span, TokenTree, TokenModel, Ident, IdentModel, Delimiter, tts_view, copy_tokens, call_site,
    call_site_span, tt_span, span_at, span_at_exec, keyword_at, ident_at, any_ident_at, punct_at,
    joint_punct_at, punct2_at, group_at, peek_keyword, peek_ident, peek_punct, peek_joint_punct,
    peek_punct2, peek_group, str_eq, lemma_same_value, lemma_same_token,
};
use crate::expr::{agrees, ident_model_at, ident_at_exec};
use crate::token::Spacing;
use crate::emit::{colon2_at, push_colon2, push_token, push_all};

verus! {

/// Angle-bracketed generic arguments of a path segment; the arguments are kept
/// as the tokens between `<` and the matching `>`.
#[derive(Debug)]
pub struct AngleArgs {
    pub turbofish: Option<Span>,
    pub lt: Span,
    pub tokens: Vec<TokenTree>,
    pub gt: Span,
}

pub struct AngleArgsModel {
    pub turbofish: Option<Span>,
    pub lt: Span,
    pub tokens: Seq<TokenModel>,
    pub gt: Span,
}

impl View for AngleArgs {
    type V = AngleArgsModel;

    open spec fn view(&self) -> AngleArgsModel {
        AngleArgsModel { turbofish: self.turbofish, lt: self.lt, tokens: tts_view(self.tokens@), gt: self.gt }
    }
}

#[derive(Debug)]
pub struct PathSegment {
    pub ident: Ident,
    pub args: Option<AngleArgs>,
}

pub struct SegmentModel {
    pub ident: IdentModel,
    pub args: Option<AngleArgsModel>,
}

impl View for PathSegment {
    type V = SegmentModel;

    open spec fn view(&self) -> SegmentModel {
        SegmentModel {
            ident: self.ident@,
            args: match self.args {
                Some(a) => Some(a@),
                None => None,
            },
        }
    }
}

/// A path: an optional leading `::` and one or more segments.
#[derive(Debug)]
pub struct Path {
    pub leading_colon: Option<Span>,
    pub segments: Vec<PathSegment>,
}

pub struct PathModel {
    pub leading_colon: Option<Span>,
    pub segments: Seq<SegmentModel>,
}

impl View for Path {
    type V = PathModel;

    open spec fn view(&self) -> PathModel {
        PathModel {
            leading_colon: self.leading_colon,
            segments: self.segments@.map_values(|s: PathSegment| s@),
        }
    }
}

// ---------------------------------------------------------------------------
// Grammar.
// ---------------------------------------------------------------------------

/// Three punctuation characters, the first two joined to the next.
pub open spec fn punct3_at(toks: Seq<TokenTree>, pos: int, c1: char, c2: char, c3: char) -> bool {
    joint_punct_at(toks, pos, c1) && joint_punct_at(toks, pos + 1, c2) && punct_at(toks, pos + 2, c3)
}

/// The index of the `>` that closes `depth` open `<`, searching from `pos`
/// (a `->` arrow does not count as a closing angle).
pub open spec fn angle_close(toks: Seq<TokenTree>, pos: int, depth: nat) -> Option<int>
    decreases toks.len() - pos,
{
    if pos < 0 || pos >= toks.len() || depth == 0 {
        None
    } else if punct_at(toks, pos, '>') {
        if depth == 1 {
            Some(pos)
        } else {
            angle_close(toks, pos + 1, (depth - 1) as nat)
        }
    } else if punct_at(toks, pos, '<') {
        angle_close(toks, pos + 1, depth + 1)
    } else if joint_punct_at(toks, pos, '-') && punct_at(toks, pos + 1, '>') {
        angle_close(toks, pos + 2, depth)
    } else {
        angle_close(toks, pos + 1, depth)
    }
}

/// Generic arguments `<...>` or `::<...>` at `pos`.
pub open spec fn spec_parse_angle_args(toks: Seq<TokenTree>, end: Span, pos: int) -> Result<(AngleArgsModel, int), ParseError> {
    let turbofish = if punct2_at(toks, pos, ':', ':') { Some(tt_span(toks[pos])) } else { None };
    let lt = if turbofish is Some { pos + 2 } else { pos };
    if !punct_at(toks, lt, '<') {
        expected(Expected::Punct('<'), span_at(toks, lt, end))
    } else {
        match angle_close(toks, lt + 1, 1) {
            Some(gt) => Ok((AngleArgsModel {
                turbofish,
                lt: tt_span(toks[lt]),
                tokens: tts_view(toks.subrange(lt + 1, gt)),
                gt: tt_span(toks[gt]),
            }, gt + 1)),
            None => expected(Expected::ClosingAngle, end),
        }
    }
}

/// Generic arguments start at `pos` (and `<` does not begin `<=` or `<<=`).
pub open spec fn angle_args_follow(toks: Seq<TokenTree>, pos: int) -> bool {
    (punct_at(toks, pos, '<') && !punct2_at(toks, pos, '<', '=') && !punct3_at(toks, pos, '<', '<', '='))
    || (punct2_at(toks, pos, ':', ':') && punct_at(toks, pos + 2, '<'))
}

/// The keywords that may stand as a path segment without arguments.
pub open spec fn plain_segment_keyword_at(toks: Seq<TokenTree>, pos: int) -> bool {
    keyword_at(toks, pos, "super"@) || keyword_at(toks, pos, "self"@) || keyword_at(toks, pos, "crate"@)
        || keyword_at(toks, pos, "try"@)
}

/// One path segment at `pos`.
pub open spec fn spec_parse_segment(toks: Seq<TokenTree>, end: Span, pos: int) -> Result<(SegmentModel, int), ParseError> {
    if plain_segment_keyword_at(toks, pos) {
        Ok((SegmentModel { ident: ident_model_at(toks, pos), args: None }, pos + 1))
    } else if keyword_at(toks, pos, "Self"@) || ident_at(toks, pos) {
        let ident = ident_model_at(toks, pos);
        if angle_args_follow(toks, pos + 1) {
            match spec_parse_angle_args(toks, end, pos + 1) {
                Ok((args, q)) => Ok((SegmentModel { ident, args: Some(args) }, q)),
                Err(e) => Err(e),
            }
        } else {
            Ok((SegmentModel { ident, args: None }, pos + 1))
        }
    } else {
        expected(Expected::Identifier, span_at(toks, pos, end))
    }
}

/// Further `::segment`s after the segments read so far (a `::` followed by a
/// parenthesized group ends the path).
pub open spec fn spec_parse_path_rest(toks: Seq<TokenTree>, end: Span, segments: Seq<SegmentModel>, pos: int) -> Result<(Seq<SegmentModel>, int), ParseError>
    decreases toks.len() - pos,
{
    if pos < 0 || pos > toks.len() {
        Ok((segments, pos))
    } else if punct2_at(toks, pos, ':', ':') && !group_at(toks, pos + 2, Delimiter::Parenthesis) {
        match spec_parse_segment(toks, end, pos + 2) {
            Ok((seg, q)) =>
                if pos < q <= toks.len() {
                    spec_parse_path_rest(toks, end, segments.push(seg), q)
                } else {
                    Ok((segments, pos))
                },
            Err(e) => Err(e),
        }
    } else {
        Ok((segments, pos))
    }
}

/// A path at `pos`.
pub open spec fn spec_parse_path(toks: Seq<TokenTree>, end: Span, pos: int) -> Result<(PathModel, int), ParseError> {
    let leading_colon = if punct2_at(toks, pos, ':', ':') { Some(tt_span(toks[pos])) } else { None };
    let start = if leading_colon is Some { pos + 2 } else { pos };
    match spec_parse_segment(toks, end, start) {
        Ok((first, q)) => match spec_parse_path_rest(toks, end, seq![first], q) {
            Ok((segments, r)) => Ok((PathModel { leading_colon, segments }, r)),
            Err(e) => Err(e),
        },
        Err(e) => Err(e),
    }
}

/// The closing angle is found at the same place in two token sequences of the
/// same value.
proof fn lemma_angle_close_same_value(a: Seq<TokenTree>, b: Seq<TokenTree>, pos: int, depth: nat)
    requires
        tts_view(a) == tts_view(b),
    ensures
        angle_close(a, pos, depth) == angle_close(b, pos, depth),
    decreases a.len() - pos,
{
    lemma_same_value(a, b);
    if 0 <= pos < a.len() && depth != 0 {
        if punct_at(a, pos, '>') {
            if depth != 1 {
                lemma_angle_close_same_value(a, b, pos + 1, (depth - 1) as nat);
            }
        } else if punct_at(a, pos, '<') {
            lemma_angle_close_same_value(a, b, pos + 1, depth + 1);
        } else if joint_punct_at(a, pos, '-') && punct_at(a, pos + 1, '>') {
            lemma_angle_close_same_value(a, b, pos + 2, depth);
        } else {
            lemma_angle_close_same_value(a, b, pos + 1, depth);
        }
    }
}

proof fn lemma_angle_close_bounds(toks: Seq<TokenTree>, pos: int, depth: nat)
    ensures
        angle_close(toks, pos, depth) matches Some(i) ==> pos <= i < toks.len(),
    decreases toks.len() - pos,
{
    if 0 <= pos < toks.len() && depth != 0 {
        if punct_at(toks, pos, '>') {
            if depth != 1 {
                lemma_angle_close_bounds(toks, pos + 1, (depth - 1) as nat);
            }
        } else if punct_at(toks, pos, '<') {
            lemma_angle_close_bounds(toks, pos + 1, depth + 1);
        } else if joint_punct_at(toks, pos, '-') && punct_at(toks, pos + 1, '>') {
            lemma_angle_close_bounds(toks, pos + 2, depth);
        } else {
            lemma_angle_close_bounds(toks, pos + 1, depth);
        }
    }
}

proof fn lemma_ident_model_same_value(a: Seq<TokenTree>, b: Seq<TokenTree>, pos: int)
    requires
        tts_view(a) == tts_view(b),
        0 <= pos < a.len(),
    ensures
        ident_model_at(a, pos) == ident_model_at(b, pos),
{
    lemma_same_value(a, b);
    lemma_same_token(a[pos], b[pos]);
}

proof fn lemma_segment_same_value(a: Seq<TokenTree>, b: Seq<TokenTree>, end: Span, pos: int)
    requires
        tts_view(a) == tts_view(b),
    ensures
        spec_parse_segment(a, end, pos) == spec_parse_segment(b, end, pos),
{
    lemma_same_value(a, b);
    if 0 <= pos < a.len() {
        lemma_ident_model_same_value(a, b, pos);
    }
    let turbofish = punct2_at(a, pos + 1, ':', ':');
    let lt = if turbofish { pos + 3 } else { pos + 1 };
    lemma_angle_close_same_value(a, b, lt + 1, 1);
    lemma_angle_close_bounds(a, lt + 1, 1);
    if let Some(gt) = angle_close(a, lt + 1, 1) {
        if 0 <= lt + 1 <= gt < a.len() {
            assert(tts_view(a.subrange(lt + 1, gt)) == tts_view(b.subrange(lt + 1, gt)));
        }
    }
}

proof fn lemma_path_rest_same_value(a: Seq<TokenTree>, b: Seq<TokenTree>, end: Span, segments: Seq<SegmentModel>, pos: int)
    requires
        tts_view(a) == tts_view(b),
    ensures
        spec_parse_path_rest(a, end, segments, pos) == spec_parse_path_rest(b, end, segments, pos),
    decreases a.len() - pos,
{
    lemma_same_value(a, b);
    if 0 <= pos <= a.len() && punct2_at(a, pos, ':', ':') && !group_at(a, pos + 2, Delimiter::Parenthesis) {
        lemma_segment_same_value(a, b, end, pos + 2);
        if let Ok((seg, q)) = spec_parse_segment(a, end, pos + 2) {
            if pos < q <= a.len() {
                lemma_path_rest_same_value(a, b, end, segments.push(seg), q);
            }
        }
    }
}

/// A path reads the same from two token sequences of the same value.
pub proof fn lemma_path_same_value(a: Seq<TokenTree>, b: Seq<TokenTree>, end: Span, pos: int)
    requires
        tts_view(a) == tts_view(b),
    ensures
        spec_parse_path(a, end, pos) == spec_parse_path(b, end, pos),
{
    lemma_same_value(a, b);
    let start = if punct2_at(a, pos, ':', ':') { pos + 2 } else { pos };
    lemma_segment_same_value(a, b, end, start);
    if let Ok((first, q)) = spec_parse_segment(a, end, start) {
        lemma_path_rest_same_value(a, b, end, seq![first], q);
    }
}

// ---------------------------------------------------------------------------
// Parser.
// ---------------------------------------------------------------------------

pub fn peek_punct3(toks: &Vec<TokenTree>, pos: usize, c1: char, c2: char, c3: char) -> (found: bool)
    ensures
        found == punct3_at(toks@, pos as int, c1, c2, c3),
{
    if pos >= toks.len() {
        return false;
    }
    peek_joint_punct(toks, pos, c1) && peek_joint_punct(toks, pos + 1, c2) && peek_punct(toks, pos + 2, c3)
}

fn find_angle_close(toks: &Vec<TokenTree>, pos: usize) -> (found: Option<usize>)
    requires
        pos <= toks.len(),
    ensures
        match found {
            Some(i) => angle_close(toks@, pos as int, 1) == Some(i as int) && pos <= i < toks.len(),
            None => angle_close(toks@, pos as int, 1) is None,
        },
{
    let mut i = pos;
    let mut depth: u128 = 1;
    while i < toks.len()
        invariant
            pos <= i <= toks.len(),
            depth >= 1,
            depth <= i - pos + 1,
            angle_close(toks@, pos as int, 1) == angle_close(toks@, i as int, depth as nat),
        decreases toks.len() - i,
    {
        if peek_punct(toks, i, '>') {
            if depth == 1 {
                return Some(i);
            }
            depth -= 1;
            i += 1;
        } else if peek_punct(toks, i, '<') {
            depth += 1;
            i += 1;
        } else if peek_joint_punct(toks, i, '-') && peek_punct(toks, i + 1, '>') {
            i += 2;
        } else {
            i += 1;
        }
    }
    None
}

impl AngleArgs {
    pub fn parse(toks: &Vec<TokenTree>, end: Span, pos: usize) -> (res: Result<(AngleArgs, usize), ParseError>)
        requires
            pos <= toks.len(),
        ensures
            agrees(res, spec_parse_angle_args(toks@, end, pos as int)),
            res matches Ok((_, q)) ==> pos < q <= toks.len(),
    {
        let turbofish = if pos < toks.len() && peek_punct2(toks, pos, ':', ':') { Some(toks[pos].span()) } else { None };
        let lt = if turbofish.is_some() { pos + 2 } else { pos };
        if !peek_punct(toks, lt, '<') {
            return Err(expected_at(Expected::Punct('<'), span_at_exec(toks, lt, end)));
        }
        match find_angle_close(toks, lt + 1) {
            Some(gt) => {
                let tokens = copy_tokens(toks, lt + 1, gt);
                Ok((AngleArgs { turbofish, lt: toks[lt].span(), tokens, gt: toks[gt].span() }, gt + 1))
            },
            None => Err(expected_at(Expected::ClosingAngle, end)),
        }
    }
}

fn peek_plain_segment_keyword(toks: &Vec<TokenTree>, pos: usize) -> (found: bool)
    ensures
        found == plain_segment_keyword_at(toks@, pos as int),
{
    peek_keyword(toks, pos, "super") || peek_keyword(toks, pos, "self") || peek_keyword(toks, pos, "crate")
        || peek_keyword(toks, pos, "try")
}

fn peek_angle_args(toks: &Vec<TokenTree>, pos: usize) -> (found: bool)
    requires
        pos <= toks.len(),
    ensures
        found == angle_args_follow(toks@, pos as int),
{
    if pos >= toks.len() {
        return false;
    }
    (peek_punct(toks, pos, '<') && !peek_punct2(toks, pos, '<', '=') && !peek_punct3(toks, pos, '<', '<', '='))
        || (peek_punct2(toks, pos, ':', ':') && peek_punct(toks, pos + 2, '<'))
}

impl PathSegment {
    pub fn parse(toks: &Vec<TokenTree>, end: Span, pos: usize) -> (res: Result<(PathSegment, usize), ParseError>)
        requires
            pos <= toks.len(),
        ensures
            agrees(res, spec_parse_segment(toks@, end, pos as int)),
            res matches Ok((_, q)) ==> pos < q <= toks.len(),
    {
        if peek_plain_segment_keyword(toks, pos) {
            return Ok((PathSegment { ident: ident_at_exec(toks, pos), args: None }, pos + 1));
        }
        if peek_keyword(toks, pos, "Self") || peek_ident(toks, pos) {
            let ident = ident_at_exec(toks, pos);
            if peek_angle_args(toks, pos + 1) {
                match AngleArgs::parse(toks, end, pos + 1) {
                    Ok((args, q)) => Ok((PathSegment { ident, args: Some(args) }, q)),
                    Err(e) => Err(e),
                }
            } else {
                Ok((PathSegment { ident, args: None }, pos + 1))
            }
        } else {
            Err(expected_at(Expected::Identifier, span_at_exec(toks, pos, end)))
        }
    }
}

impl Path {
    /// Reads a path at `pos`.
    #[verifier::loop_isolation(false)]
    pub fn parse(toks: &Vec<TokenTree>, end: Span, pos: usize) -> (res: Result<(Path, usize), ParseError>)
        requires
            pos <= toks.len(),
        ensures
            agrees(res, spec_parse_path(toks@, end, pos as int)),
            res matches Ok((_, q)) ==> pos < q <= toks.len(),
    {
        let leading_colon = if pos < toks.len() && peek_punct2(toks, pos, ':', ':') { Some(toks[pos].span()) } else { None };
        let start = if leading_colon.is_some() { pos + 2 } else { pos };
        let (first, mut q) = match PathSegment::parse(toks, end, start) {
            Ok(r) => r,
            Err(e) => return Err(e),
        };
        let mut segments: Vec<PathSegment> = Vec::new();
        let ghost first_model = first@;
        segments.push(first);
        let ghost q0 = q as int;
        assert(segments@.map_values(|s: PathSegment| s@) =~= seq![first_model]);
        while q < toks.len() && peek_punct2(toks, q, ':', ':') && !peek_group(toks, q + 2, Delimiter::Parenthesis)
            invariant
                pos < q <= toks.len(),
                spec_parse_path_rest(toks@, end, seq![first_model], q0)
                    == spec_parse_path_rest(toks@, end, segments@.map_values(|s: PathSegment| s@), q as int),
            decreases toks.len() - q,
        {
            let (seg, r) = match PathSegment::parse(toks, end, q + 2) {
                Ok(x) => x,
                Err(e) => return Err(e),
            };
            let ghost before = segments@.map_values(|s: PathSegment| s@);
            segments.push(seg);
            assert(segments@.map_values(|s: PathSegment| s@) =~= before.push(seg@));
            q = r;
        }
        Ok((Path { leading_colon, segments }, q))
    }
}


// ---------------------------------------------------------------------------
// Copies.
// ---------------------------------------------------------------------------

impl AngleArgs {
    pub fn duplicate(&self) -> (copy: AngleArgs)
        ensures
            copy@ == self@,
    {
        AngleArgs { turbofish: self.turbofish, lt: self.lt, tokens: copy_stream(&self.tokens), gt: self.gt }
    }
}

impl PathSegment {
    pub fn duplicate(&self) -> (copy: PathSegment)
        ensures
            copy@ == self@,
    {
        let args = match &self.args {
            Some(a) => Some(a.duplicate()),
            None => None,
        };
        PathSegment { ident: self.ident.duplicate(), args }
    }
}

/// Pushes copies of `segments` onto `out`.
fn extend_segments(out: &mut Vec<PathSegment>, segments: &Vec<PathSegment>)
    ensures
        final(out)@.map_values(|s: PathSegment| s@) == old(out)@.map_values(|s: PathSegment| s@)
            + segments@.map_values(|s: PathSegment| s@),
{
    let mut i: usize = 0;
    let ghost start = out@.map_values(|s: PathSegment| s@);
    while i < segments.len()
        invariant
            i <= segments.len(),
            out@.map_values(|s: PathSegment| s@) == start + segments@.subrange(0, i as int).map_values(|s: PathSegment| s@),
        decreases segments.len() - i,
    {
        let ghost before = out@.map_values(|s: PathSegment| s@);
        out.push(segments[i].duplicate());
        assert(out@.map_values(|s: PathSegment| s@) =~= before.push(segments@[i as int]@));
        assert(segments@.subrange(0, i + 1).map_values(|s: PathSegment| s@)
            =~= segments@.subrange(0, i as int).map_values(|s: PathSegment| s@).push(segments@[i as int]@));
        i += 1;
    }
    assert(segments@.subrange(0, segments.len() as int) =~= segments@);
}

impl Path {
    pub fn duplicate(&self) -> (copy: Path)
        ensures
            copy@ == self@,
    {
        let mut segments: Vec<PathSegment> = Vec::new();
        extend_segments(&mut segments, &self.segments);
        assert(segments@.map_values(|s: PathSegment| s@) =~= self.segments@.map_values(|s: PathSegment| s@));
        Path { leading_colon: self.leading_colon, segments }
    }

    /// The path's only segment is the identifier `name` (no leading `::`, no
    /// arguments).
    pub fn is_ident(&self, name: &str) -> (found: bool)
        ensures
            found == path_is_ident(self@, name@),
    {
        self.leading_colon.is_none() && self.segments.len() == 1 && self.segments[0].args.is_none()
            && str_eq(self.segments[0].ident.name.as_str(), name)
    }
}

pub open spec fn path_is_ident(p: PathModel, name: Seq<char>) -> bool {
    p.leading_colon is None && p.segments.len() == 1 && p.segments[0].args is None
        && p.segments[0].ident.name == name
}

// ---------------------------------------------------------------------------
// Rewriting paths for use inside generated modules.
// ---------------------------------------------------------------------------

/// A path is absolute when it starts with `::` or with `crate`.
pub open spec fn path_is_absolute(p: PathModel) -> bool {
    p.leading_colon is Some || (p.segments.len() > 0 && p.segments[0].ident.name == "crate"@)
}

/// The names of Rust's primitive types that a column type may be written as.
pub open spec fn primitive_type_name(n: Seq<char>) -> bool {
    n == "u8"@ || n == "u16"@ || n == "u32"@ || n == "u64"@ || n == "u128"@ || n == "usize"@
        || n == "i8"@ || n == "i16"@ || n == "i32"@ || n == "i64"@ || n == "i128"@ || n == "isize"@
        || n == "f32"@ || n == "f64"@ || n == "char"@ || n == "bool"@
}

/// A single segment, with no leading `::`, naming a primitive type.
pub open spec fn path_is_primitive_type(p: PathModel) -> bool {
    p.leading_colon is None && p.segments.len() == 1 && primitive_type_name(p.segments[0].ident.name)
}

/// The `super` segment that the rewriting inserts.
pub open spec fn super_segment() -> SegmentModel {
    SegmentModel { ident: IdentModel { name: "super"@, span: call_site() }, args: None }
}

/// The path as written inside modules nested `levels` deep below the call
/// site: absolute paths and primitive types stay as they are, any other path
/// gets `levels` leading `super` segments.
pub open spec fn spec_to_call_site(p: PathModel, levels: nat) -> PathModel {
    if path_is_absolute(p) || path_is_primitive_type(p) {
        p
    } else {
        PathModel {
            leading_colon: None,
            segments: Seq::new(levels, |i: int| super_segment()) + p.segments,
        }
    }
}

/// Questions about paths and the rewriting of relative paths.
pub trait PathExt {
    fn is_absolute(&self) -> bool;

    fn is_relative(&self) -> bool;

    fn is_primitive_type(&self) -> bool;

    fn to_call_site(&self, nesting_levels: usize) -> Path;
}

fn is_primitive_name(n: &str) -> (found: bool)
    ensures
        found == primitive_type_name(n@),
{
    str_eq(n, "u8") || str_eq(n, "u16") || str_eq(n, "u32") || str_eq(n, "u64") || str_eq(n, "u128")
        || str_eq(n, "usize") || str_eq(n, "i8") || str_eq(n, "i16") || str_eq(n, "i32") || str_eq(n, "i64")
        || str_eq(n, "i128") || str_eq(n, "isize") || str_eq(n, "f32") || str_eq(n, "f64")
        || str_eq(n, "char") || str_eq(n, "bool")
}

impl PathExt for Path {
    fn is_absolute(&self) -> (absolute: bool)
        ensures
            absolute == path_is_absolute(self@),
    {
        self.leading_colon.is_some()
            || (self.segments.len() > 0 && str_eq(self.segments[0].ident.name.as_str(), "crate"))
    }

    fn is_relative(&self) -> (relative: bool)
        ensures
            relative == !path_is_absolute(self@),
    {
        !self.is_absolute()
    }

    fn is_primitive_type(&self) -> (primitive: bool)
        ensures
            primitive == path_is_primitive_type(self@),
    {
        if self.leading_colon.is_some() || self.segments.len() != 1 {
            false
        } else {
            is_primitive_name(self.segments[0].ident.name.as_str())
        }
    }

    fn to_call_site(&self, nesting_levels: usize) -> (path: Path)
        ensures
            path@ == spec_to_call_site(self@, nesting_levels as nat),
    {
        if self.is_absolute() || self.is_primitive_type() {
            self.duplicate()
        } else {
            let mut segments: Vec<PathSegment> = Vec::new();
            let mut i: usize = 0;
            while i < nesting_levels
                invariant
                    i <= nesting_levels,
                    segments@.map_values(|s: PathSegment| s@) =~= Seq::new(i as nat, |k: int| super_segment()),
                decreases nesting_levels - i,
            {
                let ghost before = segments@.map_values(|s: PathSegment| s@);
                let name = String::from_str("super");
                proof {
                    reveal_strlit("super");
                }
                segments.push(PathSegment { ident: Ident::new(name, call_site_span()), args: None });
                assert(segments@.map_values(|s: PathSegment| s@) =~= before.push(super_segment()));
                i += 1;
            }
            extend_segments(&mut segments, &self.segments);
            Path { leading_colon: None, segments }
        }
    }
}

/// Rewriting in two steps is rewriting once with the levels added, for any
/// path that is not a primitive type.
pub proof fn lemma_to_call_site_compose(p: PathModel, a: nat, b: nat)
    requires
        !path_is_primitive_type(p),
        p.segments.len() > 0,
    ensures
        spec_to_call_site(spec_to_call_site(p, a), b) == spec_to_call_site(p, a + b),
{
    if !path_is_absolute(p) {
        let q = spec_to_call_site(p, a);
        reveal_strlit("super");
        reveal_strlit("crate");
        assert("super"@[0] != "crate"@[0]);
        if a > 0 {
            assert(q.segments[0] == super_segment());
            assert(!path_is_absolute(q));
            assert(!path_is_primitive_type(q));
        } else {
            assert(q.segments =~= p.segments);
        }
        assert(Seq::new(b, |i: int| super_segment()) + (Seq::new(a, |i: int| super_segment()) + p.segments)
            =~= Seq::new(a + b, |i: int| super_segment()) + p.segments);
    }
}

/// A rewritten path is never absolute unless it was absolute to begin with,
/// and absolute paths are never changed.
pub proof fn lemma_to_call_site_absolute(p: PathModel, levels: nat)
    ensures
        path_is_absolute(p) ==> spec_to_call_site(p, levels) == p,
        path_is_absolute(spec_to_call_site(p, levels)) == path_is_absolute(p),
{
    reveal_strlit("super");
    reveal_strlit("crate");
    assert("super"@[0] != "crate"@[0]);
    let q = spec_to_call_site(p, levels);
    if !path_is_absolute(p) && !path_is_primitive_type(p) && levels > 0 {
        assert(q.segments[0] == super_segment());
    } else if !path_is_absolute(p) && !path_is_primitive_type(p) {
        assert(q.segments =~= p.segments);
    }
}

// ---------------------------------------------------------------------------
// Writing paths.
// ---------------------------------------------------------------------------

/// The tokens of a segment: its identifier, then any generic arguments.
pub open spec fn segment_tokens(seg: SegmentModel) -> Seq<TokenModel> {
    let args = match seg.args {
        None => Seq::empty(),
        Some(a) => args_tokens(a),
    };
    seq![TokenModel::Ident(seg.ident)] + args
}

/// The tokens of generic arguments: `<...>` or `::<...>`.
pub open spec fn args_tokens(a: AngleArgsModel) -> Seq<TokenModel> {
    let turbofish = match a.turbofish {
        Some(t) => colon2_at(t),
        None => Seq::empty(),
    };
    turbofish + seq![TokenModel::Punct { ch: '<', spacing: Spacing::Alone, span: a.lt }] + a.tokens
        + seq![TokenModel::Punct { ch: '>', spacing: Spacing::Alone, span: a.gt }]
}

/// Segments separated by `::` at the call site.
pub open spec fn segments_tokens(segs: Seq<SegmentModel>) -> Seq<TokenModel>
    decreases segs.len(),
{
    if segs.len() == 0 {
        Seq::empty()
    } else if segs.len() == 1 {
        segment_tokens(segs[0])
    } else {
        segments_tokens(segs.drop_last()) + colon2_at(call_site()) + segment_tokens(segs.last())
    }
}

/// The tokens of a path: its leading `::`, if any, and its segments.
pub open spec fn path_tokens(p: PathModel) -> Seq<TokenModel> {
    let lead = match p.leading_colon {
        Some(s) => colon2_at(s),
        None => Seq::empty(),
    };
    lead + segments_tokens(p.segments)
}

impl PathSegment {
    pub fn to_tokens(&self, out: &mut Vec<TokenTree>)
        ensures
            tts_view(final(out)@) == tts_view(old(out)@) + segment_tokens(self@),
    {
        let ghost start = tts_view(out@);
        push_token(out, TokenTree::Ident(self.ident.duplicate()));
        match &self.args {
            None => {
                assert(tts_view(out@) =~= start + segment_tokens(self@));
            },
            Some(a) => {
                if let Some(t) = a.turbofish {
                    push_colon2(out, t);
                }
                push_token(out, TokenTree::Punct { ch: '<', spacing: Spacing::Alone, span: a.lt });
                push_all(out, copy_stream(&a.tokens));
                push_token(out, TokenTree::Punct { ch: '>', spacing: Spacing::Alone, span: a.gt });
                assert(tts_view(out@) =~= start + segment_tokens(self@));
            },
        }
    }
}

impl Path {
    pub fn to_tokens(&self, out: &mut Vec<TokenTree>)
        ensures
            tts_view(final(out)@) == tts_view(old(out)@) + path_tokens(self@),
    {
        let ghost start = tts_view(out@);
        let ghost segs = self@.segments;
        if let Some(s) = self.leading_colon {
            push_colon2(out, s);
        }
        let ghost lead = match self@.leading_colon {
            Some(s) => colon2_at(s),
            None => Seq::<TokenModel>::empty(),
        };
        assert(tts_view(out@) == start + lead);
        let mut i: usize = 0;
        while i < self.segments.len()
            invariant
                i <= self.segments.len(),
                segs == self@.segments,
                segs.len() == self.segments.len(),
                tts_view(out@) == start + lead + segments_tokens(segs.subrange(0, i as int)),
            decreases self.segments.len() - i,
        {
            let ghost before = tts_view(out@);
            if i > 0 {
                push_colon2(out, call_site_span());
            }
            self.segments[i].to_tokens(out);
            proof {
                assert(segs[i as int] == self.segments@[i as int]@);
                let sub = segs.subrange(0, i + 1);
                assert(sub.drop_last() =~= segs.subrange(0, i as int));
                if i == 0 {
                    assert(segs.subrange(0, 0) =~= Seq::<SegmentModel>::empty());
                    assert(tts_view(out@) =~= start + lead + segments_tokens(sub));
                } else {
                    assert(tts_view(out@) =~= start + lead + segments_tokens(sub));
                }
            }
            i += 1;
        }
        assert(segs.subrange(0, self.segments.len() as int) =~= segs);
        assert(tts_view(out@) =~= start + path_tokens(self@));
    }
}

} // verus!

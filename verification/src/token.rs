//! The token model that the parsers read and the code generators write: the
//! shape of a procedural macro's token stream, with spans as opaque numbers.

use vstd::prelude::*;
use crate::outside::{ident_accepted, syn_accepts_ident, ascii_word, rust_keyword};

verus! {

/// A source location, as a number that the macro's caller can map back to a
/// compiler span.
#[derive(Clone, Copy, PartialEq, Eq, Structural, Debug)]
pub struct Span {
    pub id: usize,
}

/// The span given to tokens that the code generator makes up.
pub open spec fn call_site() -> Span {
    Span { id: 0 }
}

/// The span given to tokens that the code generator makes up.
pub fn call_site_span() -> (span: Span)
    ensures
        span == call_site(),
{
    Span { id: 0 }
}

#[derive(Clone, Copy, PartialEq, Eq, Structural, Debug)]
pub enum Delimiter {
    Parenthesis,
    Brace,
    Bracket,
    Invisible,
}

#[derive(Clone, Copy, PartialEq, Eq, Structural, Debug)]
pub enum Spacing {
    Alone,
    Joint,
}

/// An identifier with the span it was read from.
#[derive(Debug)]
pub struct Ident {
    pub name: String,
    pub span: Span,
}

/// The mathematical value of an [`Ident`].
pub struct IdentModel {
    pub name: Seq<char>,
    pub span: Span,
}

impl View for Ident {
    type V = IdentModel;

    open spec fn view(&self) -> IdentModel {
        IdentModel { name: self.name@, span: self.span }
    }
}

impl Ident {
    pub fn new(name: String, span: Span) -> (ident: Ident)
        ensures
            ident.name@ == name@,
            ident.span == span,
    {
        Ident { name, span }
    }

    /// A copy of the identifier.
    pub fn duplicate(&self) -> (copy: Ident)
        ensures
            copy@ == self@,
    {
        Ident { name: self.name.clone(), span: self.span }
    }
}

/// One token tree of a token stream.
#[derive(Debug)]
pub enum TokenTree {
    Group { delimiter: Delimiter, stream: Vec<TokenTree>, span: Span },
    Ident(Ident),
    Punct { ch: char, spacing: Spacing, span: Span },
    Literal { repr: String, span: Span },
}

/// The span of a token tree.
pub open spec fn tt_span(t: TokenTree) -> Span {
    match t {
        TokenTree::Group { span, .. } => span,
        TokenTree::Ident(i) => i.span,
        TokenTree::Punct { span, .. } => span,
        TokenTree::Literal { span, .. } => span,
    }
}

impl TokenTree {
    pub fn span(&self) -> (span: Span)
        ensures
            span == tt_span(*self),
    {
        match self {
            TokenTree::Group { span, .. } => *span,
            TokenTree::Ident(i) => i.span,
            TokenTree::Punct { span, .. } => *span,
            TokenTree::Literal { span, .. } => *span,
        }
    }
}

/// Where the token at `pos` lies, or, past the end, the end of the stream.
pub open spec fn span_at(toks: Seq<TokenTree>, pos: int, end: Span) -> Span {
    if 0 <= pos < toks.len() {
        tt_span(toks[pos])
    } else {
        end
    }
}

pub fn span_at_exec(toks: &Vec<TokenTree>, pos: usize, end: Span) -> (span: Span)
    ensures
        span == span_at(toks@, pos as int, end),
{
    if pos < toks.len() {
        toks[pos].span()
    } else {
        end
    }
}

/// Whether two texts are equal, character by character.
pub fn str_eq(a: &str, b: &str) -> (equal: bool)
    ensures
        equal == (a@ == b@),
{
    let n = a.unicode_len();
    let m = b.unicode_len();
    if n != m {
        return false;
    }
    let mut i: usize = 0;
    while i < n
        invariant
            n == a@.len(),
            m == b@.len(),
            n == m,
            i <= n,
            a@.subrange(0, i as int) == b@.subrange(0, i as int),
        decreases n - i,
    {
        if a.get_char(i) != b.get_char(i) {
            assert(a@[i as int] != b@[i as int]);
            return false;
        }
        assert(a@.subrange(0, i + 1) == a@.subrange(0, i as int).push(a@[i as int]));
        assert(b@.subrange(0, i + 1) == b@.subrange(0, i as int).push(b@[i as int]));
        i += 1;
    }
    assert(a@ == a@.subrange(0, n as int));
    assert(b@ == b@.subrange(0, n as int));
    true
}

/// The token at `pos` is the identifier `kw` (a keyword of the macro language;
/// any identifier token with that text counts).
pub open spec fn keyword_at(toks: Seq<TokenTree>, pos: int, kw: Seq<char>) -> bool {
    0 <= pos < toks.len() && match toks[pos] {
        TokenTree::Ident(i) => i.name@ == kw,
        _ => false,
    }
}

pub fn peek_keyword(toks: &Vec<TokenTree>, pos: usize, kw: &str) -> (found: bool)
    ensures
        found == keyword_at(toks@, pos as int, kw@),
{
    if pos < toks.len() {
        match &toks[pos] {
            TokenTree::Ident(i) => str_eq(i.name.as_str(), kw),
            _ => false,
        }
    } else {
        false
    }
}

/// The token at `pos` is an identifier that may stand where a name is expected
/// (not `_`, not a Rust keyword).
pub open spec fn ident_at(toks: Seq<TokenTree>, pos: int) -> bool {
    0 <= pos < toks.len() && match toks[pos] {
        TokenTree::Ident(i) => syn_accepts_ident(i.name@),
        _ => false,
    }
}

pub fn peek_ident(toks: &Vec<TokenTree>, pos: usize) -> (found: bool)
    ensures
        found == ident_at(toks@, pos as int),
        pos < toks.len() && toks@[pos as int] is Ident && ascii_word(toks@[pos as int]->Ident_0.name@)
            ==> (found == !rust_keyword(toks@[pos as int]->Ident_0.name@)),
{
    if pos < toks.len() {
        match &toks[pos] {
            TokenTree::Ident(i) => ident_accepted(i.name.as_str()),
            _ => false,
        }
    } else {
        false
    }
}

/// The identifier at `pos`, whatever its text.
pub open spec fn any_ident_at(toks: Seq<TokenTree>, pos: int) -> bool {
    0 <= pos < toks.len() && toks[pos] is Ident
}

/// The token at `pos` is the punctuation character `c`, whatever its spacing.
pub open spec fn punct_at(toks: Seq<TokenTree>, pos: int, c: char) -> bool {
    0 <= pos < toks.len() && match toks[pos] {
        TokenTree::Punct { ch, .. } => ch == c,
        _ => false,
    }
}

/// The token at `pos` is the punctuation character `c`, joined to the next one.
pub open spec fn joint_punct_at(toks: Seq<TokenTree>, pos: int, c: char) -> bool {
    0 <= pos < toks.len() && match toks[pos] {
        TokenTree::Punct { ch, spacing, .. } => ch == c && spacing == Spacing::Joint,
        _ => false,
    }
}

/// A two-character operator such as `::` or `=>` starts at `pos`: the first
/// character joined to the second.
pub open spec fn punct2_at(toks: Seq<TokenTree>, pos: int, c1: char, c2: char) -> bool {
    joint_punct_at(toks, pos, c1) && punct_at(toks, pos + 1, c2)
}

pub fn peek_punct(toks: &Vec<TokenTree>, pos: usize, c: char) -> (found: bool)
    ensures
        found == punct_at(toks@, pos as int, c),
{
    if pos < toks.len() {
        match &toks[pos] {
            TokenTree::Punct { ch, .. } => *ch == c,
            _ => false,
        }
    } else {
        false
    }
}

pub fn peek_joint_punct(toks: &Vec<TokenTree>, pos: usize, c: char) -> (found: bool)
    ensures
        found == joint_punct_at(toks@, pos as int, c),
{
    if pos < toks.len() {
        match &toks[pos] {
            TokenTree::Punct { ch, spacing, .. } => *ch == c && *spacing == Spacing::Joint,
            _ => false,
        }
    } else {
        false
    }
}

pub fn peek_punct2(toks: &Vec<TokenTree>, pos: usize, c1: char, c2: char) -> (found: bool)
    requires
        pos < usize::MAX,
    ensures
        found == punct2_at(toks@, pos as int, c1, c2),
{
    peek_joint_punct(toks, pos, c1) && peek_punct(toks, pos + 1, c2)
}

/// The token at `pos` is a group with the given delimiter.
pub open spec fn group_at(toks: Seq<TokenTree>, pos: int, d: Delimiter) -> bool {
    0 <= pos < toks.len() && match toks[pos] {
        TokenTree::Group { delimiter, .. } => delimiter == d,
        _ => false,
    }
}

pub fn peek_group(toks: &Vec<TokenTree>, pos: usize, d: Delimiter) -> (found: bool)
    ensures
        found == group_at(toks@, pos as int, d),
{
    if pos < toks.len() {
        match &toks[pos] {
            TokenTree::Group { delimiter, .. } => *delimiter == d,
            _ => false,
        }
    } else {
        false
    }
}

/// The inner stream of a group token.
pub open spec fn group_stream(t: TokenTree) -> Seq<TokenTree> {
    match t {
        TokenTree::Group { stream, .. } => stream@,
        _ => Seq::empty(),
    }
}


/// The mathematical value of a [`TokenTree`].
pub enum TokenModel {
    Group { delimiter: Delimiter, stream: Seq<TokenModel>, span: Span },
    Ident(IdentModel),
    Punct { ch: char, spacing: Spacing, span: Span },
    Literal { repr: Seq<char>, span: Span },
}

pub open spec fn tts_view(s: Seq<TokenTree>) -> Seq<TokenModel>
    decreases s,
{
    if s.len() == 0 {
        Seq::empty()
    } else {
        tts_view(s.subrange(0, s.len() - 1)).push(tt_view(s[s.len() - 1]))
    }
}

pub open spec fn tt_view(t: TokenTree) -> TokenModel
    decreases t,
{
    match t {
        TokenTree::Group { delimiter, stream, span } =>
            TokenModel::Group { delimiter, stream: tts_view(stream@), span },
        TokenTree::Ident(i) => TokenModel::Ident(i@),
        TokenTree::Punct { ch, spacing, span } => TokenModel::Punct { ch, spacing, span },
        TokenTree::Literal { repr, span } => TokenModel::Literal { repr: repr@, span },
    }
}

impl View for TokenTree {
    type V = TokenModel;

    open spec fn view(&self) -> TokenModel {
        tt_view(*self)
    }
}

pub proof fn lemma_tts_view(s: Seq<TokenTree>)
    ensures
        tts_view(s).len() == s.len(),
        forall|i: int| 0 <= i < s.len() ==> #[trigger] tts_view(s)[i] == tt_view(s[i]),
    decreases s.len(),
{
    if s.len() > 0 {
        lemma_tts_view(s.subrange(0, s.len() - 1));
    }
}

/// Two token trees of the same value are of one kind, with the same parts.
pub proof fn lemma_same_token(x: TokenTree, y: TokenTree)
    requires
        tt_view(x) == tt_view(y),
    ensures
        tt_span(x) == tt_span(y),
        x is Ident <==> y is Ident,
        x is Punct <==> y is Punct,
        x is Group <==> y is Group,
        x is Literal <==> y is Literal,
        x is Ident ==> x->Ident_0@ == y->Ident_0@,
        x is Punct ==> x->ch == y->ch && x->spacing == y->spacing,
        x is Group ==> x->delimiter == y->delimiter && tts_view(x->stream@) == tts_view(y->stream@),
        x is Literal ==> x->repr@ == y->repr@,
        tts_view(group_stream(x)) == tts_view(group_stream(y)),
{
}

/// Two token sequences of the same value (spans included) look alike to every
/// test of the parsers, position by position.
pub proof fn lemma_same_value(a: Seq<TokenTree>, b: Seq<TokenTree>)
    requires
        tts_view(a) == tts_view(b),
    ensures
        a.len() == b.len(),
        forall|p: int| 0 <= p < a.len() ==> #[trigger] tt_view(a[p]) == tt_view(b[p]),
        forall|p: int| 0 <= p < a.len() ==> #[trigger] tt_span(a[p]) == tt_span(b[p]),
        forall|p: int, e: Span| #[trigger] span_at(a, p, e) == span_at(b, p, e),
        forall|p: int, kw: Seq<char>| #[trigger] keyword_at(a, p, kw) == keyword_at(b, p, kw),
        forall|p: int| #[trigger] ident_at(a, p) == ident_at(b, p),
        forall|p: int| #[trigger] any_ident_at(a, p) == any_ident_at(b, p),
        forall|p: int, c: char| #[trigger] punct_at(a, p, c) == punct_at(b, p, c),
        forall|p: int, c: char| #[trigger] joint_punct_at(a, p, c) == joint_punct_at(b, p, c),
        forall|p: int, d: Delimiter| #[trigger] group_at(a, p, d) == group_at(b, p, d),
        forall|p: int| 0 <= p < a.len() ==> #[trigger] tts_view(group_stream(a[p])) == tts_view(group_stream(b[p])),
        forall|p: int| 0 <= p < a.len() ==> (#[trigger] a[p] is Group <==> b[p] is Group),
        forall|p: int| 0 <= p < a.len() && #[trigger] a[p] is Ident ==> b[p] is Ident && a[p]->Ident_0@ == b[p]->Ident_0@,
        forall|p: int| 0 <= p < a.len() && #[trigger] a[p] is Literal ==> b[p] is Literal && a[p]->repr@ == b[p]->repr@,
        forall|i: int, j: int| 0 <= i <= j <= a.len() ==> #[trigger] tts_view(a.subrange(i, j)) == tts_view(b.subrange(i, j)),
{
    lemma_tts_view(a);
    lemma_tts_view(b);
    assert(a.len() == b.len());
    assert forall|p: int| 0 <= p < a.len() implies #[trigger] tt_view(a[p]) == tt_view(b[p]) by {
        assert(tts_view(a)[p] == tt_view(a[p]));
        assert(tts_view(b)[p] == tt_view(b[p]));
    }
    assert forall|p: int| 0 <= p < a.len() implies {
        &&& tt_span(a[p]) == tt_span(b[p])
        &&& (a[p] is Ident <==> b[p] is Ident)
        &&& (a[p] is Punct <==> b[p] is Punct)
        &&& (a[p] is Group <==> b[p] is Group)
        &&& (a[p] is Literal <==> b[p] is Literal)
        &&& (a[p] is Ident ==> a[p]->Ident_0@ == b[p]->Ident_0@)
        &&& (a[p] is Punct ==> a[p]->ch == b[p]->ch && a[p]->spacing == b[p]->spacing)
        &&& (a[p] is Group ==> a[p]->delimiter == b[p]->delimiter)
        &&& (a[p] is Literal ==> a[p]->repr@ == b[p]->repr@)
        &&& tts_view(group_stream(a[p])) == tts_view(group_stream(b[p]))
    } by {
        lemma_same_token(a[p], b[p]);
    }
    assert forall|i: int, j: int| 0 <= i <= j <= a.len() implies #[trigger] tts_view(a.subrange(i, j)) == tts_view(b.subrange(i, j)) by {
        lemma_tts_view(a.subrange(i, j));
        lemma_tts_view(b.subrange(i, j));
        assert forall|k: int| 0 <= k < j - i implies tts_view(a.subrange(i, j))[k] == tts_view(b.subrange(i, j))[k] by {
            assert(tt_view(a[i + k]) == tt_view(b[i + k]));
        }
        assert(tts_view(a.subrange(i, j)) =~= tts_view(b.subrange(i, j)));
    }
}

/// A deep copy of a run of tokens `toks[from..to]`.
pub fn copy_tokens(toks: &Vec<TokenTree>, from: usize, to: usize) -> (copy: Vec<TokenTree>)
    requires
        from <= to <= toks.len(),
    ensures
        tts_view(copy@) == tts_view(toks@.subrange(from as int, to as int)),
    decreases toks@, 0nat,
{
    let mut copy: Vec<TokenTree> = Vec::new();
    let mut i = from;
    proof {
        lemma_tts_view(copy@);
        lemma_tts_view(toks@.subrange(from as int, to as int));
    }
    while i < to
        invariant
            from <= i <= to <= toks.len(),
            copy@.len() == i - from,
            forall|k: int| 0 <= k < copy@.len() ==> #[trigger] tt_view(copy@[k]) == tt_view(toks@[from + k]),
        decreases to - i,
    {
        let t = copy_token(&toks[i]);
        copy.push(t);
        i += 1;
    }
    proof {
        lemma_tts_view(copy@);
        lemma_tts_view(toks@.subrange(from as int, to as int));
        assert(tts_view(copy@) =~= tts_view(toks@.subrange(from as int, to as int)));
    }
    copy
}

/// A deep copy of one token tree.
pub fn copy_token(t: &TokenTree) -> (copy: TokenTree)
    ensures
        copy@ == t@,
    decreases t, 1nat,
{
    match t {
        TokenTree::Group { delimiter, stream, span } => {
            proof {
                assert(decreases_to!(t => stream));
            }
            let inner = copy_stream(stream);
            TokenTree::Group { delimiter: *delimiter, stream: inner, span: *span }
        },
        TokenTree::Ident(i) => TokenTree::Ident(i.duplicate()),
        TokenTree::Punct { ch, spacing, span } => TokenTree::Punct { ch: *ch, spacing: *spacing, span: *span },
        TokenTree::Literal { repr, span } => TokenTree::Literal { repr: repr.clone(), span: *span },
    }
}

/// A deep copy of a whole token stream.
pub fn copy_stream(toks: &Vec<TokenTree>) -> (copy: Vec<TokenTree>)
    ensures
        tts_view(copy@) == tts_view(toks@),
    decreases toks, 0nat,
{
    let mut copy: Vec<TokenTree> = Vec::new();
    let mut i: usize = 0;
    while i < toks.len()
        invariant
            i <= toks.len(),
            copy@.len() == i,
            forall|k: int| 0 <= k < copy@.len() ==> #[trigger] tt_view(copy@[k]) == tt_view(toks@[k]),
        decreases toks.len() - i,
    {
        proof {
            assert(decreases_to!(toks => toks@[i as int]));
        }
        let t = copy_token(&toks[i]);
        copy.push(t);
        i += 1;
    }
    proof {
        lemma_tts_view(copy@);
        lemma_tts_view(toks@);
        assert(tts_view(copy@) =~= tts_view(toks@));
    }
    copy
}


// ---------------------------------------------------------------------------
// Tokens compared by their text alone.
// ---------------------------------------------------------------------------

/// A token with its spans and spacing left out: what two tokens of the same
/// text share.
pub open spec fn plain_tok(t: TokenModel) -> TokenModel
    decreases t,
{
    match t {
        TokenModel::Group { delimiter, stream, .. } =>
            TokenModel::Group { delimiter, stream: plain_toks(stream), span: call_site() },
        TokenModel::Ident(i) => TokenModel::Ident(IdentModel { name: i.name, span: call_site() }),
        TokenModel::Punct { ch, .. } => TokenModel::Punct { ch, spacing: Spacing::Alone, span: call_site() },
        TokenModel::Literal { repr, .. } => TokenModel::Literal { repr, span: call_site() },
    }
}

pub open spec fn plain_toks(s: Seq<TokenModel>) -> Seq<TokenModel>
    decreases s,
{
    if s.len() == 0 {
        Seq::empty()
    } else {
        plain_toks(s.subrange(0, s.len() - 1)).push(plain_tok(s[s.len() - 1]))
    }
}

pub proof fn lemma_plain_toks(s: Seq<TokenModel>)
    ensures
        plain_toks(s).len() == s.len(),
        forall|i: int| 0 <= i < s.len() ==> #[trigger] plain_toks(s)[i] == plain_tok(s[i]),
    decreases s.len(),
{
    if s.len() > 0 {
        lemma_plain_toks(s.subrange(0, s.len() - 1));
    }
}

/// Whether two token trees have the same text, whatever their spans and
/// spacing.
pub fn same_token(a: &TokenTree, b: &TokenTree) -> (same: bool)
    ensures
        same == (plain_tok(a@) == plain_tok(b@)),
    decreases a, 1nat,
{
    match (a, b) {
        (TokenTree::Group { delimiter: da, stream: sa, .. }, TokenTree::Group { delimiter: db, stream: sb, .. }) => {
            proof {
                assert(decreases_to!(a => sa));
            }
            *da == *db && same_tokens(sa, sb)
        },
        (TokenTree::Ident(x), TokenTree::Ident(y)) => str_eq(x.name.as_str(), y.name.as_str()),
        (TokenTree::Punct { ch: x, .. }, TokenTree::Punct { ch: y, .. }) => *x == *y,
        (TokenTree::Literal { repr: x, .. }, TokenTree::Literal { repr: y, .. }) => str_eq(x.as_str(), y.as_str()),
        _ => false,
    }
}

/// Whether two token sequences have the same text, whatever their spans and
/// spacing.
pub fn same_tokens(a: &Vec<TokenTree>, b: &Vec<TokenTree>) -> (same: bool)
    ensures
        same == (plain_toks(tts_view(a@)) == plain_toks(tts_view(b@))),
    decreases a, 0nat,
{
    proof {
        lemma_tts_view(a@);
        lemma_tts_view(b@);
        lemma_plain_toks(tts_view(a@));
        lemma_plain_toks(tts_view(b@));
    }
    if a.len() != b.len() {
        return false;
    }
    let mut i: usize = 0;
    while i < a.len()
        invariant
            i <= a.len(),
            a.len() == b.len(),
            plain_toks(tts_view(a@)).len() == a.len(),
            plain_toks(tts_view(b@)).len() == b.len(),
            forall|k: int| 0 <= k < a.len() ==> #[trigger] plain_toks(tts_view(a@))[k] == plain_tok(tt_view(a@[k])),
            forall|k: int| 0 <= k < b.len() ==> #[trigger] plain_toks(tts_view(b@))[k] == plain_tok(tt_view(b@[k])),
            forall|k: int| 0 <= k < i ==> #[trigger] plain_toks(tts_view(a@))[k] == plain_toks(tts_view(b@))[k],
        decreases a.len() - i,
    {
        proof {
            assert(decreases_to!(a => a@[i as int]));
        }
        if !same_token(&a[i], &b[i]) {
            assert(plain_toks(tts_view(a@))[i as int] != plain_toks(tts_view(b@))[i as int]);
            return false;
        }
        i += 1;
    }
    assert(plain_toks(tts_view(a@)) =~= plain_toks(tts_view(b@)));
    true
}

} // verus!

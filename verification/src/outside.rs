//! Calls into the outside crates that the parser and the code generator rely on.
//!
//! Each function here makes one call into `syn` or `convert_case` and
//! converts its arguments and result; its contract says what the call
//! returns.

use vstd::prelude::*;
use convert_case::Casing;

verus! {

/// Whether `syn` accepts the given identifier text as an `Ident`. Which
/// words it refuses is not stated of this name.
pub uninterp spec fn syn_accepts_ident(name: Seq<char>) -> bool;

/// The words that `syn` refuses as an identifier: `_` and the Rust keywords,
/// reserved ones included.
pub open spec fn rust_keyword(w: Seq<char>) -> bool {
    let words = seq![
        "_"@, "abstract"@, "as"@, "async"@, "await"@, "become"@, "box"@, "break"@,
        "const"@, "continue"@, "crate"@, "do"@, "dyn"@, "else"@, "enum"@,
        "extern"@, "false"@, "final"@, "fn"@, "for"@, "if"@, "impl"@, "in"@,
        "let"@, "loop"@, "macro"@, "match"@, "mod"@, "move"@, "mut"@,
        "override"@, "priv"@, "pub"@, "ref"@, "return"@, "Self"@, "self"@,
        "static"@, "struct"@, "super"@, "trait"@, "true"@, "try"@, "type"@,
        "typeof"@, "unsafe"@, "unsized"@, "use"@, "virtual"@, "where"@,
        "while"@, "yield"@
    ];
    words.contains(w)
}

/// A text made of ASCII letters, digits and `_` that does not start with a
/// digit: it reads as one identifier token.
pub open spec fn ascii_word(w: Seq<char>) -> bool {
    &&& w.len() > 0
    &&& !('0' <= w[0] <= '9')
    &&& forall|i: int| 0 <= i < w.len() ==> {
        let c = #[trigger] w[i];
        ('a' <= c <= 'z') || ('A' <= c <= 'Z') || ('0' <= c <= '9') || c == '_'
    }
}

/// Asks `syn::parse_str::<syn::Ident>` whether the text is an identifier that
/// `syn` accepts in an identifier position. Of a text that reads as one ASCII
/// identifier token the contract says the answer: it is refused exactly when
/// it is `_` or a word of `syn`'s keyword list. Of other texts (raw or
/// non-ASCII identifiers, several tokens) it says only that the answer is a
/// function of the text.
#[verifier::external_body]
pub(crate) fn ident_accepted(name: &str) -> (accepted: bool)
    ensures
        accepted == syn_accepts_ident(name@),
        ascii_word(name@) ==> (accepted == !rust_keyword(name@)),
{
    syn::parse_str::<syn::Ident>(name).is_ok()
}

/// The kind of literal that `syn` makes of a token text.
#[derive(Clone, Copy, PartialEq, Eq, Structural, Debug)]
pub enum LitKind {
    Int,
    Float,
    Str,
    Bool,
    /// Some other literal: byte string, character, ...
    Other,
    /// Not a literal at all.
    NotLiteral,
}

/// What `syn::parse_str::<syn::Lit>` makes of a text.
pub uninterp spec fn syn_lit_kind(text: Seq<char>) -> LitKind;

/// Classifies a literal text with `syn::parse_str::<syn::Lit>`.
///
/// The contract states only that the kind is a function of the text: how `syn`
/// tells integers, floats and strings apart is left unsaid.
#[verifier::external_body]
pub(crate) fn literal_kind(text: &str) -> (kind: LitKind)
    ensures
        kind == syn_lit_kind(text@),
{
    match syn::parse_str::<syn::Lit>(text) {
        Ok(syn::Lit::Int(_)) => LitKind::Int,
        Ok(syn::Lit::Float(_)) => LitKind::Float,
        Ok(syn::Lit::Str(_)) => LitKind::Str,
        Ok(syn::Lit::Bool(_)) => LitKind::Bool,
        Ok(_) => LitKind::Other,
        Err(_) => LitKind::NotLiteral,
    }
}

/// What `convert_case` makes of a text in `Case::Pascal`.
pub uninterp spec fn pascal_case(text: Seq<char>) -> Seq<char>;

/// Converts a text to Pascal case with `convert_case::Casing::to_case`.
///
/// The contract states only that the result is a function of the text; the
/// word splitting rules of `convert_case` are left unsaid.
#[verifier::external_body]
pub(crate) fn to_pascal_case(text: &str) -> (converted: String)
    ensures
        converted@ == pascal_case(text@),
{
    text.to_case(convert_case::Case::Pascal)
}

/// What `syn` makes of an integer literal text read as a `u32` in base 10.
pub uninterp spec fn syn_base10_u32(text: Seq<char>) -> Option<u32>;

/// Reads an integer literal text with `syn::LitInt::base10_parse::<u32>`;
/// `None` where the text is no integer literal or the value does not fit.
#[verifier::external_body]
pub(crate) fn base10_u32(text: &str) -> (value: Option<u32>)
    ensures
        value == syn_base10_u32(text@),
{
    match syn::parse_str::<syn::LitInt>(text) {
        Ok(lit) => lit.base10_parse::<u32>().ok(),
        Err(_) => None,
    }
}

/// What `syn` makes of a string literal text: its value, or `None` where the
/// text is no string literal.
pub uninterp spec fn syn_lit_str_value(text: Seq<char>) -> Option<Seq<char>>;

/// Reads a string literal text with `syn::parse_str::<syn::LitStr>` and
/// `syn::LitStr::value`.
///
/// The contract states only that the result is a function of the text; how
/// `syn` undoes escapes and raw strings is left unsaid.
#[verifier::external_body]
pub(crate) fn lit_str_value(text: &str) -> (value: Option<String>)
    ensures
        match value {
            Some(v) => syn_lit_str_value(text@) == Some(v@),
            None => syn_lit_str_value(text@) is None,
        },
{
    match syn::parse_str::<syn::LitStr>(text) {
        Ok(lit) => Some(lit.value()),
        Err(_) => None,
    }
}

/// What `syn` reads from a derive macro's input text: the item's name and,
/// for a struct, the names of its fields (`None` for a field of a tuple
/// struct); `None` in place of the fields for an enum or a union, and `None`
/// altogether where the text is no item.
pub uninterp spec fn syn_derive_input(text: Seq<char>) -> Option<(Seq<char>, Option<Seq<Option<Seq<char>>>>)>;

/// Reads a derive input with `syn::parse_str::<syn::DeriveInput>`, keeping
/// the item's name and its fields' names.
///
/// The contract states only that the result is a function of the text; the
/// Rust item grammar that `syn` applies is left unsaid.
#[verifier::external_body]
pub(crate) fn parse_derive_input(text: &str) -> (r: Option<(String, Option<Vec<Option<String>>>)>)
    ensures
        r.deep_view() == syn_derive_input(text@),
{
    match syn::parse_str::<syn::DeriveInput>(text) {
        Ok(item) => Some((item.ident.to_string(), match item.data {
            syn::Data::Struct(s) => Some(s.fields.iter().map(|f| f.ident.as_ref().map(|i| i.to_string())).collect()),
            syn::Data::Enum(_) => None,
            syn::Data::Union(_) => None,
        })),
        Err(_) => None,
    }
}

} // verus!

//! Writing token streams: a small template language in which the code
//! generators spell the Rust code they produce, with `$` marking where a
//! token sequence of their own is spliced in.
//!
//! A template is read as Rust tokens are: identifiers, numbers and string
//! literals, lifetimes, the operators `::`, `->`, `=>` and `..` as joined
//! pairs, any other punctuation character alone, and `()`, `[]` and `{}`
//! groups. Every token gets the call-site span.

use vstd::prelude::*;
use vstd::string::StringExecFns;
use crate::token::{
    Span, TokenTree, TokenModel, Ident, IdentModel, Delimiter, Spacing, tts_view, tt_view, lemma_tts_view,
    call_site, call_site_span, copy_stream,
};

verus! {

pub open spec fn is_ident_start(c: char) -> bool {
    ('a' <= c && c <= 'z') || ('A' <= c && c <= 'Z') || c == '_'
}

pub open spec fn is_digit(c: char) -> bool {
    '0' <= c && c <= '9'
}

pub open spec fn is_word_char(c: char) -> bool {
    is_ident_start(c) || is_digit(c)
}

/// The end of the run of word characters that starts at `i`.
pub open spec fn word_end(t: Seq<char>, i: int) -> int
    decreases t.len() - i,
{
    if 0 <= i < t.len() && is_word_char(t[i]) {
        word_end(t, i + 1)
    } else {
        i
    }
}

/// The index of the next `"` from `i` on, or the end.
pub open spec fn quote_end(t: Seq<char>, i: int) -> int
    decreases t.len() - i,
{
    if 0 <= i < t.len() && t[i] != '"' {
        quote_end(t, i + 1)
    } else {
        i
    }
}

pub open spec fn opener(c: char) -> Option<Delimiter> {
    if c == '(' {
        Some(Delimiter::Parenthesis)
    } else if c == '[' {
        Some(Delimiter::Bracket)
    } else if c == '{' {
        Some(Delimiter::Brace)
    } else {
        None
    }
}

pub open spec fn is_closer(c: char) -> bool {
    c == ')' || c == ']' || c == '}'
}

/// The two-character operators that are written as a joined pair: `::`,
/// `->`, `=>`, `..` and `==`.
pub open spec fn joined_pair(a: char, b: char) -> bool {
    (a == ':' && b == ':') || (a == '-' && b == '>') || (a == '=' && b == '>') || (a == '.' && b == '.') || (a == '=' && b == '=')
}

/// An identifier at the call site.
pub open spec fn ident_tok(name: Seq<char>) -> TokenModel {
    TokenModel::Ident(IdentModel { name, span: call_site() })
}

pub open spec fn punct_tok(ch: char, spacing: Spacing) -> TokenModel {
    TokenModel::Punct { ch, spacing, span: call_site() }
}

pub open spec fn literal_tok(repr: Seq<char>) -> TokenModel {
    TokenModel::Literal { repr, span: call_site() }
}

pub open spec fn group_tok(delimiter: Delimiter, stream: Seq<TokenModel>) -> TokenModel {
    TokenModel::Group { delimiter, stream, span: call_site() }
}

/// The spliced sequence for the `k`-th `$`; none past the last argument.
pub open spec fn arg_at(args: Seq<Seq<TokenModel>>, k: int) -> Seq<TokenModel> {
    if 0 <= k < args.len() {
        args[k]
    } else {
        Seq::empty()
    }
}

/// Reads the template from `i` on, after the tokens `acc`, up to its end or a
/// closing bracket: the tokens, where the reading stopped, and how many
/// arguments were spliced in by then.
pub open spec fn read_template(t: Seq<char>, i: int, args: Seq<Seq<TokenModel>>, k: int, acc: Seq<TokenModel>) -> (Seq<TokenModel>, int, int)
    decreases t.len() - i,
{
    if i < 0 || i >= t.len() {
        (acc, i, k)
    } else {
        let c = t[i];
        if is_closer(c) {
            (acc, i, k)
        } else if c == ' ' || c == '\n' {
            read_template(t, i + 1, args, k, acc)
        } else if is_ident_start(c) {
            let j = word_end(t, i);
            if i < j <= t.len() {
                read_template(t, j, args, k, acc.push(ident_tok(t.subrange(i, j))))
            } else {
                (acc, i, k)
            }
        } else if is_digit(c) {
            let j = word_end(t, i);
            if i < j <= t.len() {
                read_template(t, j, args, k, acc.push(literal_tok(t.subrange(i, j))))
            } else {
                (acc, i, k)
            }
        } else if c == '"' {
            let q = quote_end(t, i + 1);
            let e = if q < t.len() { q + 1 } else { q };
            if i < e && e <= t.len() {
                read_template(t, e, args, k, acc.push(literal_tok(t.subrange(i, e))))
            } else {
                (acc, i, k)
            }
        } else if c == '\'' && i + 1 < t.len() && is_ident_start(t[i + 1]) {
            let j = word_end(t, i + 1);
            if i < j <= t.len() {
                read_template(t, j, args, k, acc.push(punct_tok('\'', Spacing::Joint)).push(ident_tok(t.subrange(i + 1, j))))
            } else {
                (acc, i, k)
            }
        } else if i + 1 < t.len() && joined_pair(c, t[i + 1]) {
            read_template(t, i + 2, args, k, acc.push(punct_tok(c, Spacing::Joint)).push(punct_tok(t[i + 1], Spacing::Alone)))
        } else if c == '$' {
            read_template(t, i + 1, args, k + 1, acc + arg_at(args, k))
        } else if opener(c) is Some {
            let (inner, j, k2) = read_template(t, i + 1, args, k, Seq::empty());
            let next = if j < t.len() { j + 1 } else { j };
            if i < next <= t.len() {
                read_template(t, next, args, k2, acc.push(group_tok(opener(c)->Some_0, inner)))
            } else {
                (acc, i, k)
            }
        } else {
            read_template(t, i + 1, args, k, acc.push(punct_tok(c, Spacing::Alone)))
        }
    }
}

/// The tokens of a template, with the arguments spliced in at its `$` marks
/// in order.
pub open spec fn quote_tokens(t: Seq<char>, args: Seq<Seq<TokenModel>>) -> Seq<TokenModel> {
    read_template(t, 0, args, 0, Seq::empty()).0
}

pub open spec fn args_view(args: Seq<Vec<TokenTree>>) -> Seq<Seq<TokenModel>> {
    args.map_values(|a: Vec<TokenTree>| tts_view(a@))
}

// ---------------------------------------------------------------------------
// Token sequences.
// ---------------------------------------------------------------------------

pub proof fn lemma_args_view_push(args: Seq<Vec<TokenTree>>, a: Vec<TokenTree>)
    ensures
        args_view(args.push(a)) == args_view(args).push(tts_view(a@)),
{
    assert(args_view(args.push(a)) =~= args_view(args).push(tts_view(a@)));
}

pub proof fn lemma_tts_view_push(s: Seq<TokenTree>, t: TokenTree)
    ensures
        tts_view(s.push(t)) == tts_view(s).push(tt_view(t)),
{
    assert(s.push(t).subrange(0, s.len() as int) =~= s);
}

pub proof fn lemma_tts_view_concat(a: Seq<TokenTree>, b: Seq<TokenTree>)
    ensures
        tts_view(a + b) == tts_view(a) + tts_view(b),
{
    lemma_tts_view(a);
    lemma_tts_view(b);
    lemma_tts_view(a + b);
    assert(tts_view(a + b) =~= tts_view(a) + tts_view(b));
}

/// Appends a token.
pub fn push_token(out: &mut Vec<TokenTree>, t: TokenTree)
    ensures
        tts_view(final(out)@) == tts_view(old(out)@).push(tt_view(t)),
{
    let ghost before = out@;
    let ghost m = tt_view(t);
    out.push(t);
    proof {
        lemma_tts_view_push(before, t);
    }
}

/// Appends a run of tokens.
pub fn push_all(out: &mut Vec<TokenTree>, toks: Vec<TokenTree>)
    ensures
        tts_view(final(out)@) == tts_view(old(out)@) + tts_view(toks@),
{
    let ghost before = out@;
    let ghost added = toks@;
    let mut rest = toks;
    out.append(&mut rest);
    proof {
        lemma_tts_view_concat(before, added);
    }
}

// ---------------------------------------------------------------------------
// Reading templates.
// ---------------------------------------------------------------------------

fn is_ident_start_exec(c: char) -> (b: bool)
    ensures
        b == is_ident_start(c),
{
    ('a' <= c && c <= 'z') || ('A' <= c && c <= 'Z') || c == '_'
}

fn is_digit_exec(c: char) -> (b: bool)
    ensures
        b == is_digit(c),
{
    '0' <= c && c <= '9'
}

fn opener_exec(c: char) -> (d: Option<Delimiter>)
    ensures
        d == opener(c),
{
    if c == '(' {
        Some(Delimiter::Parenthesis)
    } else if c == '[' {
        Some(Delimiter::Bracket)
    } else if c == '{' {
        Some(Delimiter::Brace)
    } else {
        None
    }
}

fn word_char_at(t: &str, n: usize, j: usize) -> (b: bool)
    requires
        n == t@.len(),
        j < n,
    ensures
        b == is_word_char(t@[j as int]),
{
    let c = t.get_char(j);
    is_ident_start_exec(c) || is_digit_exec(c)
}

fn word_end_exec(t: &str, n: usize, i: usize) -> (j: usize)
    requires
        n == t@.len(),
        i <= n,
    ensures
        j == word_end(t@, i as int),
        i <= j <= n,
        i < n && is_word_char(t@[i as int]) ==> i < j,
{
    let mut j = i;
    while j < n && word_char_at(t, n, j)
        invariant
            n == t@.len(),
            i <= j <= n,
            word_end(t@, i as int) == word_end(t@, j as int),
        decreases n - j,
    {
        j += 1;
    }
    j
}

fn quote_end_exec(t: &str, n: usize, i: usize) -> (j: usize)
    requires
        n == t@.len(),
        i <= n,
    ensures
        j == quote_end(t@, i as int),
        i <= j <= n,
{
    let mut j = i;
    while j < n && t.get_char(j) != '"'
        invariant
            n == t@.len(),
            i <= j <= n,
            quote_end(t@, i as int) == quote_end(t@, j as int),
        decreases n - j,
    {
        j += 1;
    }
    j
}

/// An identifier at the call site.
pub fn call_site_ident(name: &str) -> (ident: Ident)
    ensures
        ident@ == (IdentModel { name: name@, span: call_site() }),
{
    Ident::new(String::from_str(name), call_site_span())
}

pub fn ident_token(name: &str) -> (t: TokenTree)
    ensures
        tt_view(t) == ident_tok(name@),
{
    TokenTree::Ident(Ident::new(String::from_str(name), call_site_span()))
}

pub fn punct_token(ch: char, spacing: Spacing) -> (t: TokenTree)
    ensures
        tt_view(t) == punct_tok(ch, spacing),
{
    TokenTree::Punct { ch, spacing, span: call_site_span() }
}

fn read_template_exec(t: &str, n: usize, i: usize, args: &Vec<Vec<TokenTree>>, k: usize, acc: Vec<TokenTree>)
    -> (res: (Vec<TokenTree>, usize, usize))
    requires
        n == t@.len(),
        i <= n,
        k <= i,
    ensures
        tts_view(res.0@) == read_template(t@, i as int, args_view(args@), k as int, tts_view(acc@)).0,
        res.1 == read_template(t@, i as int, args_view(args@), k as int, tts_view(acc@)).1,
        res.2 == read_template(t@, i as int, args_view(args@), k as int, tts_view(acc@)).2,
        i <= res.1 <= n,
        k <= res.2 <= res.1,
    decreases n - i,
{
    let ghost tm = t@;
    let ghost am = args_view(args@);
    let ghost accm = tts_view(acc@);
    let mut acc = acc;
    if i >= n {
        return (acc, i, k);
    }
    let c = t.get_char(i);
    if c == ')' || c == ']' || c == '}' {
        return (acc, i, k);
    }
    if c == ' ' || c == '\n' {
        return read_template_exec(t, n, i + 1, args, k, acc);
    }
    if is_ident_start_exec(c) || is_digit_exec(c) {
        let j = word_end_exec(t, n, i);
        proof {
            assert(is_word_char(c));
        }
        let text = t.substring_char(i, j);
        let tok = if is_ident_start_exec(c) {
            ident_token(text)
        } else {
            TokenTree::Literal { repr: String::from_str(text), span: call_site_span() }
        };
        push_token(&mut acc, tok);
        return read_template_exec(t, n, j, args, k, acc);
    }
    if c == '"' {
        let q = quote_end_exec(t, n, i + 1);
        let e = if q < n { q + 1 } else { q };
        let text = t.substring_char(i, e);
        push_token(&mut acc, TokenTree::Literal { repr: String::from_str(text), span: call_site_span() });
        return read_template_exec(t, n, e, args, k, acc);
    }
    if c == '\'' && i + 1 < n && is_ident_start_exec(t.get_char(i + 1)) {
        let j = word_end_exec(t, n, i + 1);
        push_token(&mut acc, punct_token('\'', Spacing::Joint));
        push_token(&mut acc, ident_token(t.substring_char(i + 1, j)));
        return read_template_exec(t, n, j, args, k, acc);
    }
    if i + 1 < n {
        let d = t.get_char(i + 1);
        if (c == ':' && d == ':') || (c == '-' && d == '>') || (c == '=' && d == '>') || (c == '.' && d == '.') || (c == '=' && d == '=') {
            push_token(&mut acc, punct_token(c, Spacing::Joint));
            push_token(&mut acc, punct_token(d, Spacing::Alone));
            return read_template_exec(t, n, i + 2, args, k, acc);
        }
    }
    if c == '$' {
        if k < args.len() {
            let copy = copy_stream(&args[k]);
            proof {
                assert(am[k as int] == tts_view(args@[k as int]@));
            }
            push_all(&mut acc, copy);
        } else {
            proof {
                assert(accm + arg_at(am, k as int) =~= accm);
            }
        }
        return read_template_exec(t, n, i + 1, args, k + 1, acc);
    }
    match opener_exec(c) {
        Some(delimiter) => {
            let fresh: Vec<TokenTree> = Vec::new();
            proof {
                assert(tts_view(fresh@) =~= Seq::<TokenModel>::empty());
            }
            let (inner, j, k2) = read_template_exec(t, n, i + 1, args, k, fresh);
            let next = if j < n { j + 1 } else { j };
            push_token(&mut acc, TokenTree::Group { delimiter, stream: inner, span: call_site_span() });
            read_template_exec(t, n, next, args, k2, acc)
        },
        None => {
            push_token(&mut acc, punct_token(c, Spacing::Alone));
            read_template_exec(t, n, i + 1, args, k, acc)
        },
    }
}

/// The tokens of a template, with the arguments spliced in at its `$` marks.
pub fn quote(template: &str, args: &Vec<Vec<TokenTree>>) -> (toks: Vec<TokenTree>)
    ensures
        tts_view(toks@) == quote_tokens(template@, args_view(args@)),
{
    let n = template.unicode_len();
    let empty: Vec<TokenTree> = Vec::new();
    proof {
        assert(tts_view(empty@) =~= Seq::<TokenModel>::empty());
    }
    let (toks, _, _) = read_template_exec(template, n, 0, args, 0, empty);
    toks
}

/// Appends the tokens of a template, with the arguments spliced in.
pub fn quote_into(out: &mut Vec<TokenTree>, template: &str, args: &Vec<Vec<TokenTree>>)
    ensures
        tts_view(final(out)@) == tts_view(old(out)@) + quote_tokens(template@, args_view(args@)),
{
    let toks = quote(template, args);
    push_all(out, toks);
}

// ---------------------------------------------------------------------------
// Literals and single tokens.
// ---------------------------------------------------------------------------

/// A `::` whose two characters carry the given span.
pub open spec fn colon2_at(span: Span) -> Seq<TokenModel> {
    seq![
        TokenModel::Punct { ch: ':', spacing: Spacing::Joint, span },
        TokenModel::Punct { ch: ':', spacing: Spacing::Alone, span },
    ]
}

pub fn push_colon2(out: &mut Vec<TokenTree>, span: Span)
    ensures
        tts_view(final(out)@) == tts_view(old(out)@) + colon2_at(span),
{
    push_token(out, TokenTree::Punct { ch: ':', spacing: Spacing::Joint, span });
    push_token(out, TokenTree::Punct { ch: ':', spacing: Spacing::Alone, span });
    assert(tts_view(out@) =~= tts_view(old(out)@) + colon2_at(span));
}

/// A character as it is written inside a string literal.
pub open spec fn escaped_char(c: char) -> Seq<char> {
    if c == '"' {
        seq!['\\', '"']
    } else if c == '\\' {
        seq!['\\', '\\']
    } else if c == '\n' {
        seq!['\\', 'n']
    } else if c == '\r' {
        seq!['\\', 'r']
    } else if c == '\t' {
        seq!['\\', 't']
    } else if c == '\0' {
        seq!['\\', '0']
    } else {
        seq![c]
    }
}

pub open spec fn escaped(s: Seq<char>) -> Seq<char>
    decreases s.len(),
{
    if s.len() == 0 {
        Seq::empty()
    } else {
        escaped(s.drop_last()) + escaped_char(s.last())
    }
}

/// The text of a string literal whose value is `s`.
pub open spec fn str_literal_text(s: Seq<char>) -> Seq<char> {
    seq!['"'] + escaped(s) + seq!['"']
}

fn escape_of(c: char) -> (e: &'static str)
    requires
        c == '"' || c == '\\' || c == '\n' || c == '\r' || c == '\t' || c == '\0',
    ensures
        e@ == escaped_char(c),
{
    if c == '"' {
        proof {
            reveal_strlit("\\\"");
        }
        "\\\""
    } else if c == '\\' {
        proof {
            reveal_strlit("\\\\");
        }
        "\\\\"
    } else if c == '\n' {
        proof {
            reveal_strlit("\\n");
        }
        "\\n"
    } else if c == '\r' {
        proof {
            reveal_strlit("\\r");
        }
        "\\r"
    } else if c == '\t' {
        proof {
            reveal_strlit("\\t");
        }
        "\\t"
    } else {
        proof {
            reveal_strlit("\\0");
        }
        "\\0"
    }
}

/// A string literal token whose value is `s`.
pub fn string_literal(s: &str) -> (t: TokenTree)
    ensures
        tt_view(t) == literal_tok(str_literal_text(s@)),
{
    proof {
        reveal_strlit("\"");
    }
    let n = s.unicode_len();
    let mut text = String::from_str("\"");
    let mut i: usize = 0;
    while i < n
        invariant
            n == s@.len(),
            i <= n,
            text@ == seq!['"'] + escaped(s@.subrange(0, i as int)),
        decreases n - i,
    {
        let c = s.get_char(i);
        if c == '"' || c == '\\' || c == '\n' || c == '\r' || c == '\t' || c == '\0' {
            text.append(escape_of(c));
        } else {
            let one = s.substring_char(i, i + 1);
            assert(one@ =~= seq![c]);
            text.append(one);
        }
        assert(s@.subrange(0, i + 1).drop_last() =~= s@.subrange(0, i as int));
        i += 1;
    }
    assert(s@.subrange(0, n as int) =~= s@);
    proof {
        reveal_strlit("\"");
    }
    text.append("\"");
    assert(text@ =~= str_literal_text(s@));
    TokenTree::Literal { repr: text, span: call_site_span() }
}

pub open spec fn digit_char(d: nat) -> char {
    if d == 0 {
        '0'
    } else if d == 1 {
        '1'
    } else if d == 2 {
        '2'
    } else if d == 3 {
        '3'
    } else if d == 4 {
        '4'
    } else if d == 5 {
        '5'
    } else if d == 6 {
        '6'
    } else if d == 7 {
        '7'
    } else if d == 8 {
        '8'
    } else {
        '9'
    }
}

/// The decimal digits of `n`.
pub open spec fn decimal(n: nat) -> Seq<char>
    decreases n,
{
    if n < 10 {
        seq![digit_char(n)]
    } else {
        decimal(n / 10).push(digit_char(n % 10))
    }
}

fn digit_text(d: u64) -> (s: &'static str)
    requires
        d < 10,
    ensures
        s@ == seq![digit_char(d as nat)],
{
    proof {
        reveal_strlit("0");
        reveal_strlit("1");
        reveal_strlit("2");
        reveal_strlit("3");
        reveal_strlit("4");
        reveal_strlit("5");
        reveal_strlit("6");
        reveal_strlit("7");
        reveal_strlit("8");
        reveal_strlit("9");
    }
    if d == 0 {
        "0"
    } else if d == 1 {
        "1"
    } else if d == 2 {
        "2"
    } else if d == 3 {
        "3"
    } else if d == 4 {
        "4"
    } else if d == 5 {
        "5"
    } else if d == 6 {
        "6"
    } else if d == 7 {
        "7"
    } else if d == 8 {
        "8"
    } else {
        "9"
    }
}

/// The decimal digits of `n` as a string.
pub fn decimal_text(n: u64) -> (s: String)
    ensures
        s@ == decimal(n as nat),
    decreases n,
{
    if n < 10 {
        String::from_str(digit_text(n))
    } else {
        let mut s = decimal_text(n / 10);
        s.append(digit_text(n % 10));
        s
    }
}

/// An integer literal of `n` with the given type suffix, at the call site.
pub fn suffixed_literal(n: u64, suffix: &str) -> (t: TokenTree)
    ensures
        tt_view(t) == literal_tok(decimal(n as nat) + suffix@),
{
    let mut text = decimal_text(n);
    text.append(suffix);
    TokenTree::Literal { repr: text, span: call_site_span() }
}

} // verus!

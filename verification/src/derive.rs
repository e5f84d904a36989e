//! `#[derive(Row)]`: reading a struct from a row that a driver returns, or
//! from a record nested in one.

use vstd::prelude::*;
use crate::token::{TokenTree, TokenModel, Ident, IdentModel, tts_view, call_site_span, str_eq};
use crate::emit::{quote_tokens, quote_into, args_view, literal_tok, decimal, decimal_text};
use crate::repr::{args1, args2, args3, single, code_with, joined, join_parts};
use crate::row::Features;
use crate::token::{Delimiter, Spacing, tt_view, lemma_tts_view, call_site, Span};
use crate::outside::{syn_derive_input, parse_derive_input};
use vstd::string::StringExecFns;

verus! {

/// What a derive is applied to: a struct with its fields' names (`None` for
/// the fields of a tuple struct), an enum or a union.
#[derive(Debug)]
pub enum DeriveData {
    Struct(Vec<Option<Ident>>),
    Enum,
    Union,
}

/// `#[derive(Row)]` on something that is not a struct.
#[derive(Clone, Copy, PartialEq, Eq, Structural, Debug)]
pub enum DeriveRowError {
    NotAStruct,
}

pub open spec fn opt_idents_view(s: Seq<Option<Ident>>) -> Seq<Option<IdentModel>> {
    s.map_values(|o: Option<Ident>| match o {
        Some(i) => Some(i@),
        None => None,
    })
}

/// A field's name, or nothing for a field without one.
pub open spec fn opt_ident_tokens(n: Option<IdentModel>) -> Seq<TokenModel> {
    match n {
        Some(i) => seq![TokenModel::Ident(i)],
        None => Seq::empty(),
    }
}

/// A signed integer in decimal.
pub open spec fn signed_decimal(v: int) -> Seq<char> {
    if v < 0 {
        seq!['-'] + decimal((-v) as nat)
    } else {
        decimal(v as nat)
    }
}

/// `name: row.get(k)` for the `k`-th field.
pub open spec fn row_get_fields(fields: Seq<Option<IdentModel>>) -> Seq<Seq<TokenModel>>
    decreases fields.len(),
{
    if fields.len() == 0 {
        Seq::empty()
    } else {
        row_get_fields(fields.drop_last()).push(quote_tokens(
            "$: row.get($)"@,
            seq![opt_ident_tokens(fields.last()), seq![literal_tok(decimal((fields.len() - 1) as nat) + "usize"@)]],
        ))
    }
}

/// `name: record_field_from_sql(&raw, &mut offset)?` for each field.
pub open spec fn record_get_fields(fields: Seq<Option<IdentModel>>) -> Seq<Seq<TokenModel>>
    decreases fields.len(),
{
    if fields.len() == 0 {
        Seq::empty()
    } else {
        record_get_fields(fields.drop_last()).push(quote_tokens(
            "$: ::kosame::driver::postgres_types::record_field_from_sql(&raw, &mut offset)?"@,
            seq![opt_ident_tokens(fields.last())],
        ))
    }
}

/// `From<&Row>`, which reads the fields from the row's columns in order.
pub open spec fn from_row_impl(name: IdentModel, fields: Seq<Option<IdentModel>>) -> Seq<TokenModel> {
    quote_tokens(
        "impl From<&::kosame::driver::postgres_types::Row> for $ { fn from(row: &::kosame::driver::postgres_types::Row) -> Self { Self { $ } } }"@,
        seq![seq![TokenModel::Ident(name)], joined(row_get_fields(fields))],
    )
}

/// `FromSql`, which reads the fields from a record after checking its
/// column count.
pub open spec fn from_sql_impl(name: IdentModel, fields: Seq<Option<IdentModel>>) -> Seq<TokenModel> {
    quote_tokens(
        "impl<'a> ::kosame::driver::postgres_types::FromSql<'a> for $ { fn accepts(ty: &::kosame::driver::postgres_types::Type) -> bool { ty.name() == \"record\" } fn from_sql(ty: &::kosame::driver::postgres_types::Type, raw: &[u8],) -> Result<Self, Box<dyn std::error::Error + Sync + Send>> { let column_count = ::kosame::driver::postgres_types::int4_from_sql(&raw[..4])?; assert_eq!(column_count, $); let mut offset = 4; Ok(Self { $ }) } }"@,
        seq![
            seq![TokenModel::Ident(name)],
            seq![literal_tok(signed_decimal((fields.len() as i32) as int) + "i32"@)],
            joined(record_get_fields(fields)),
        ],
    )
}

/// What the derive generates: with a `postgres` driver, both impls; else
/// nothing.
pub open spec fn derive_row_tokens(name: IdentModel, fields: Seq<Option<IdentModel>>, features: Features) -> Seq<TokenModel> {
    if features.postgres {
        from_row_impl(name, fields) + from_sql_impl(name, fields)
    } else {
        Seq::empty()
    }
}

fn opt_ident_run(n: &Option<Ident>) -> (v: Vec<TokenTree>)
    ensures
        tts_view(v@) == opt_ident_tokens(match n {
            Some(i) => Some(i@),
            None => None,
        }),
{
    match n {
        Some(i) => single(TokenTree::Ident(i.duplicate())),
        None => {
            let v: Vec<TokenTree> = Vec::new();
            assert(tts_view(v@) =~= Seq::<TokenModel>::empty());
            v
        },
    }
}

pub(crate) fn suffixed(digits: String, suffix: &str) -> (t: TokenTree)
    ensures
        crate::token::tt_view(t) == literal_tok(digits@ + suffix@),
{
    let mut text = digits;
    text.append(suffix);
    TokenTree::Literal { repr: text, span: call_site_span() }
}

pub(crate) fn field_count_text(n: usize) -> (s: String)
    ensures
        s@ == signed_decimal((n as i32) as int),
{
    #[verifier::truncate]
    let v: i32 = n as i32;
    if v < 0 {
        let magnitude: u64 = (0i64 - (v as i64)) as u64;
        let mut s = String::from_str("-");
        proof {
            reveal_strlit("-");
        }
        s.append(decimal_text(magnitude).as_str());
        s
    } else {
        decimal_text(v as u64)
    }
}

/// The impls of `#[derive(Row)]` for the struct `name`; refused for anything
/// but a struct.
pub fn derive_row(name: &Ident, data: &DeriveData, features: Features) -> (res: Result<Vec<TokenTree>, DeriveRowError>)
    ensures
        match data {
            DeriveData::Struct(fields) => res matches Ok(toks)
                && tts_view(toks@) == derive_row_tokens(name@, opt_idents_view(fields@), features),
            _ => res == Err::<Vec<TokenTree>, DeriveRowError>(DeriveRowError::NotAStruct),
        },
{
    let fields = match data {
        DeriveData::Struct(fields) => fields,
        _ => return Err(DeriveRowError::NotAStruct),
    };
    let ghost fs = opt_idents_view(fields@);
    let mut out: Vec<TokenTree> = Vec::new();
    assert(tts_view(out@) =~= Seq::<TokenModel>::empty());
    if !features.postgres {
        return Ok(out);
    }
    let mut gets: Vec<Vec<TokenTree>> = Vec::new();
    assert(args_view(gets@) =~= Seq::<Seq<TokenModel>>::empty());
    let mut reads: Vec<Vec<TokenTree>> = Vec::new();
    assert(args_view(reads@) =~= Seq::<Seq<TokenModel>>::empty());
    let mut i: usize = 0;
    while i < fields.len()
        invariant
            i <= fields.len(),
            fs == opt_idents_view(fields@),
            fs.len() == fields.len(),
            args_view(gets@) == row_get_fields(fs.subrange(0, i as int)),
            args_view(reads@) == record_get_fields(fs.subrange(0, i as int)),
        decreases fields.len() - i,
    {
        let f = &fields[i];
        assert(fs[i as int] == (match *f {
            Some(x) => Some(x@),
            None => None,
        }));
        let g = code_with("$: row.get($)", args2(opt_ident_run(f), single(suffixed(decimal_text(i as u64), "usize"))));
        let ghost gm = tts_view(g@);
        gets.push(g);
        let r = code_with("$: ::kosame::driver::postgres_types::record_field_from_sql(&raw, &mut offset)?", args1(opt_ident_run(f)));
        let ghost rm = tts_view(r@);
        reads.push(r);
        proof {
            let sub = fs.subrange(0, i + 1);
            assert(sub.drop_last() =~= fs.subrange(0, i as int));
            assert(sub.last() == fs[i as int]);
            assert(args_view(gets@) =~= row_get_fields(sub));
            assert(args_view(reads@) =~= record_get_fields(sub));
        }
        i += 1;
    }
    assert(fs.subrange(0, i as int) =~= fs);
    quote_into(
        &mut out,
        "impl From<&::kosame::driver::postgres_types::Row> for $ { fn from(row: &::kosame::driver::postgres_types::Row) -> Self { Self { $ } } }",
        &args2(single(TokenTree::Ident(name.duplicate())), join_parts(gets)),
    );
    quote_into(
        &mut out,
        "impl<'a> ::kosame::driver::postgres_types::FromSql<'a> for $ { fn accepts(ty: &::kosame::driver::postgres_types::Type) -> bool { ty.name() == \"record\" } fn from_sql(ty: &::kosame::driver::postgres_types::Type, raw: &[u8],) -> Result<Self, Box<dyn std::error::Error + Sync + Send>> { let column_count = ::kosame::driver::postgres_types::int4_from_sql(&raw[..4])?; assert_eq!(column_count, $); let mut offset = 4; Ok(Self { $ }) } }",
        &args3(
            single(TokenTree::Ident(name.duplicate())),
            single(suffixed(field_count_text(fields.len()), "i32")),
            join_parts(reads),
        ),
    );
    Ok(out)
}

// ---------------------------------------------------------------------------
// Reading the derive input.
// ---------------------------------------------------------------------------

/// A punctuation character as text; a character that is no Rust punctuation
/// is left out.
pub open spec fn punct_char_text(c: char) -> Seq<char> {
    if c == '~' { "~"@ } else if c == '!' { "!"@ } else if c == '@' { "@"@ } else if c == '#' { "#"@ }
    else if c == '$' { "$"@ } else if c == '%' { "%"@ } else if c == '^' { "^"@ } else if c == '&' { "&"@ }
    else if c == '*' { "*"@ } else if c == '-' { "-"@ } else if c == '=' { "="@ } else if c == '+' { "+"@ }
    else if c == '|' { "|"@ } else if c == ';' { ";"@ } else if c == ':' { ":"@ } else if c == ',' { ","@ }
    else if c == '<' { "<"@ } else if c == '.' { "."@ } else if c == '>' { ">"@ } else if c == '/' { "/"@ }
    else if c == '?' { "?"@ } else if c == '\'' { "'"@ } else { ""@ }
}

fn punct_char_str(c: char) -> (s: &'static str)
    ensures
        s@ == punct_char_text(c),
{
    if c == '~' { "~" } else if c == '!' { "!" } else if c == '@' { "@" } else if c == '#' { "#" }
    else if c == '$' { "$" } else if c == '%' { "%" } else if c == '^' { "^" } else if c == '&' { "&" }
    else if c == '*' { "*" } else if c == '-' { "-" } else if c == '=' { "=" } else if c == '+' { "+" }
    else if c == '|' { "|" } else if c == ';' { ";" } else if c == ':' { ":" } else if c == ',' { "," }
    else if c == '<' { "<" } else if c == '.' { "." } else if c == '>' { ">" } else if c == '/' { "/" }
    else if c == '?' { "?" } else if c == '\'' { "'" } else { "" }
}

pub open spec fn open_text(d: Delimiter) -> Seq<char> {
    match d {
        Delimiter::Parenthesis => "("@,
        Delimiter::Brace => "{"@,
        Delimiter::Bracket => "["@,
        Delimiter::Invisible => ""@,
    }
}

pub open spec fn close_text(d: Delimiter) -> Seq<char> {
    match d {
        Delimiter::Parenthesis => ")"@,
        Delimiter::Brace => "}"@,
        Delimiter::Bracket => "]"@,
        Delimiter::Invisible => ""@,
    }
}

/// Tokens written out as source text: each token followed by a space, but a
/// punctuation character joined to the next one.
pub open spec fn tokens_text(toks: Seq<TokenModel>) -> Seq<char>
    decreases toks,
{
    if toks.len() == 0 {
        Seq::empty()
    } else {
        tokens_text(toks.subrange(0, toks.len() - 1)) + token_text(toks[toks.len() - 1])
    }
}

pub open spec fn token_text(t: TokenModel) -> Seq<char>
    decreases t,
{
    match t {
        TokenModel::Ident(i) => i.name + " "@,
        TokenModel::Literal { repr, .. } => repr + " "@,
        TokenModel::Punct { ch, spacing, .. } => punct_char_text(ch) + if spacing == Spacing::Alone { " "@ } else { Seq::empty() },
        TokenModel::Group { delimiter, stream, .. } => open_text(delimiter) + tokens_text(stream) + close_text(delimiter) + " "@,
    }
}

fn open_str(d: Delimiter) -> (s: &'static str)
    ensures
        s@ == open_text(d),
{
    match d {
        Delimiter::Parenthesis => "(",
        Delimiter::Brace => "{",
        Delimiter::Bracket => "[",
        Delimiter::Invisible => "",
    }
}

fn close_str(d: Delimiter) -> (s: &'static str)
    ensures
        s@ == close_text(d),
{
    match d {
        Delimiter::Parenthesis => ")",
        Delimiter::Brace => "}",
        Delimiter::Bracket => "]",
        Delimiter::Invisible => "",
    }
}

/// Appends the tokens as source text.
pub fn write_tokens(toks: &Vec<TokenTree>, out: &mut String)
    ensures
        final(out)@ == old(out)@ + tokens_text(tts_view(toks@)),
    decreases toks, 0nat,
{
    proof {
        lemma_tts_view(toks@);
    }
    let ghost tm = tts_view(toks@);
    let mut i: usize = 0;
    while i < toks.len()
        invariant
            i <= toks.len(),
            tm == tts_view(toks@),
            tm.len() == toks.len(),
            forall|k: int| 0 <= k < toks.len() ==> #[trigger] tm[k] == tt_view(toks@[k]),
            out@ == old(out)@ + tokens_text(tm.subrange(0, i as int)),
        decreases toks.len() - i,
    {
        let ghost before = out@;
        match &toks[i] {
            TokenTree::Ident(x) => {
                out.append(x.name.as_str());
                out.append(" ");
            },
            TokenTree::Literal { repr, .. } => {
                out.append(repr.as_str());
                out.append(" ");
            },
            TokenTree::Punct { ch, spacing, .. } => {
                out.append(punct_char_str(*ch));
                match spacing {
                    Spacing::Alone => out.append(" "),
                    Spacing::Joint => {},
                }
            },
            TokenTree::Group { delimiter, stream, .. } => {
                proof {
                    assert(decreases_to!(toks => toks@[i as int]));
                }
                out.append(open_str(*delimiter));
                write_tokens(stream, out);
                out.append(close_str(*delimiter));
                out.append(" ");
            },
        }
        proof {
            let sub = tm.subrange(0, i + 1);
            assert(sub.subrange(0, sub.len() - 1) =~= tm.subrange(0, i as int));
            assert(sub[sub.len() - 1] == tm[i as int]);
            assert(out@ =~= before + token_text(tm[i as int]));
        }
        i += 1;
    }
    assert(tm.subrange(0, i as int) =~= tm);
}

/// The item's name in the input: the first identifier of that text that
/// follows `struct`, `enum` or `union` among the input's top-level tokens, from
/// `j` on.
pub open spec fn name_token_span(toks: Seq<TokenModel>, name: Seq<char>, j: int) -> Span
    decreases toks.len() - j,
{
    if j < 0 || j >= toks.len() {
        call_site()
    } else if item_keyword_before(toks, j) && toks[j] is Ident && toks[j]->Ident_0.name == name {
        toks[j]->Ident_0.span
    } else {
        name_token_span(toks, name, j + 1)
    }
}

/// The token before `j` is the identifier `struct`, `enum` or `union`.
pub open spec fn item_keyword_before(toks: Seq<TokenModel>, j: int) -> bool {
    &&& 1 <= j <= toks.len()
    &&& toks[j - 1] is Ident
    &&& {
        let k = toks[j - 1]->Ident_0.name;
        k == "struct"@ || k == "enum"@ || k == "union"@
    }
}

/// The tokens of the first top-level brace group from `j` on: a struct's
/// fields; nothing where there is none.
pub open spec fn body_tokens(toks: Seq<TokenModel>, j: int) -> Seq<TokenModel>
    decreases toks.len() - j,
{
    if j < 0 || j >= toks.len() {
        Seq::empty()
    } else if toks[j] matches TokenModel::Group { delimiter: Delimiter::Brace, .. } {
        toks[j]->stream
    } else {
        body_tokens(toks, j + 1)
    }
}

/// A field's name in the body: the first identifier of that text followed by
/// `:`, from `j` on.
pub open spec fn field_token_span(toks: Seq<TokenModel>, name: Seq<char>, j: int) -> Span
    decreases toks.len() - j,
{
    if j < 0 || j >= toks.len() {
        call_site()
    } else if field_name_at(toks, name, j) {
        toks[j]->Ident_0.span
    } else {
        field_token_span(toks, name, j + 1)
    }
}

pub open spec fn field_name_at(toks: Seq<TokenModel>, name: Seq<char>, j: int) -> bool {
    &&& 0 <= j && j + 1 < toks.len()
    &&& toks[j] is Ident
    &&& toks[j]->Ident_0.name == name
    &&& toks[j + 1] is Punct
    &&& toks[j + 1]->ch == ':'
}

/// The item's name read from the input, at its place in the input.
pub open spec fn read_name(toks: Seq<TokenModel>, n: Seq<char>) -> IdentModel {
    IdentModel { name: n, span: name_token_span(toks, n, 0) }
}

/// The fields' names read from the input, each at its place in the body.
pub open spec fn read_field_names(toks: Seq<TokenModel>, fields: Seq<Option<Seq<char>>>) -> Seq<Option<IdentModel>> {
    fields.map_values(|f: Option<Seq<char>>| match f {
        Some(n) => Some(IdentModel { name: n, span: field_token_span(body_tokens(toks, 0), n, 0) }),
        None => None,
    })
}

fn is_item_keyword(t: &TokenTree) -> (found: bool)
    ensures
        found == (tt_view(*t) is Ident && {
            let k = tt_view(*t)->Ident_0.name;
            k == "struct"@ || k == "enum"@ || k == "union"@
        }),
{
    match t {
        TokenTree::Ident(i) => str_eq(i.name.as_str(), "struct") || str_eq(i.name.as_str(), "enum") || str_eq(i.name.as_str(), "union"),
        _ => false,
    }
}

fn name_span(toks: &Vec<TokenTree>, name: &str) -> (span: Span)
    ensures
        span == name_token_span(tts_view(toks@), name@, 0),
{
    let ghost tm = tts_view(toks@);
    proof {
        lemma_tts_view(toks@);
    }
    let mut j: usize = 0;
    while j < toks.len()
        invariant
            j <= toks.len(),
            tm == tts_view(toks@),
            tm.len() == toks.len(),
            forall|k: int| 0 <= k < toks.len() ==> #[trigger] tm[k] == tt_view(toks@[k]),
            name_token_span(tm, name@, j as int) == name_token_span(tm, name@, 0),
        decreases toks.len() - j,
    {
        if j >= 1 && is_item_keyword(&toks[j - 1]) {
            assert(item_keyword_before(tm, j as int));
            if let TokenTree::Ident(i) = &toks[j] {
                if str_eq(i.name.as_str(), name) {
                    return i.span;
                }
            }
        }
        j += 1;
    }
    call_site_span()
}

fn body_of(toks: &Vec<TokenTree>) -> (body: Option<&Vec<TokenTree>>)
    ensures
        match body {
            Some(b) => tts_view(b@) == body_tokens(tts_view(toks@), 0),
            None => body_tokens(tts_view(toks@), 0) == Seq::<TokenModel>::empty(),
        },
{
    let ghost tm = tts_view(toks@);
    proof {
        lemma_tts_view(toks@);
    }
    let mut j: usize = 0;
    while j < toks.len()
        invariant
            j <= toks.len(),
            tm == tts_view(toks@),
            tm.len() == toks.len(),
            forall|k: int| 0 <= k < toks.len() ==> #[trigger] tm[k] == tt_view(toks@[k]),
            body_tokens(tm, j as int) == body_tokens(tm, 0),
        decreases toks.len() - j,
    {
        if let TokenTree::Group { delimiter: Delimiter::Brace, stream, .. } = &toks[j] {
            return Some(stream);
        }
        j += 1;
    }
    None
}

fn field_span(body: Option<&Vec<TokenTree>>, name: &str, ghost_body: Ghost<Seq<TokenModel>>) -> (span: Span)
    requires
        match body {
            Some(b) => tts_view(b@) == ghost_body@,
            None => ghost_body@ == Seq::<TokenModel>::empty(),
        },
    ensures
        span == field_token_span(ghost_body@, name@, 0),
{
    let toks = match body {
        Some(b) => b,
        None => return call_site_span(),
    };
    let ghost tm = tts_view(toks@);
    proof {
        lemma_tts_view(toks@);
    }
    let mut j: usize = 0;
    while j < toks.len()
        invariant
            j <= toks.len(),
            tm == tts_view(toks@),
            tm == ghost_body@,
            tm.len() == toks.len(),
            forall|k: int| 0 <= k < toks.len() ==> #[trigger] tm[k] == tt_view(toks@[k]),
            field_token_span(tm, name@, j as int) == field_token_span(tm, name@, 0),
        decreases toks.len() - j,
    {
        if j + 1 < toks.len() {
            if let TokenTree::Ident(i) = &toks[j] {
                if let TokenTree::Punct { ch, .. } = &toks[j + 1] {
                    if str_eq(i.name.as_str(), name) && *ch == ':' {
                        assert(field_name_at(tm, name@, j as int));
                        return i.span;
                    }
                }
            }
        }
        j += 1;
    }
    call_site_span()
}

/// `#[derive(Row)]` on the tokens of an item: `None` where `syn` reads no
/// item from them, else what `derive_row` gives for the item's name and, for
/// a struct, its fields' names, each at its place in the input.
pub fn derive_row_input(toks: &Vec<TokenTree>, features: Features) -> (res: Option<Result<Vec<TokenTree>, DeriveRowError>>)
    ensures
        match syn_derive_input(tokens_text(tts_view(toks@))) {
            None => res is None,
            Some((_, None)) => res == Some(Err::<Vec<TokenTree>, DeriveRowError>(DeriveRowError::NotAStruct)),
            Some((name, Some(fields))) => res matches Some(Ok(t))
                && tts_view(t@) == derive_row_tokens(read_name(tts_view(toks@), name), read_field_names(tts_view(toks@), fields), features),
        },
{
    let mut text = String::new();
    assert(text@ =~= Seq::<char>::empty());
    write_tokens(toks, &mut text);
    assert(text@ =~= tokens_text(tts_view(toks@)));
    let read = match parse_derive_input(text.as_str()) {
        Some(r) => r,
        None => return None,
    };
    let (name_text, data) = read;
    let ghost tm = tts_view(toks@);
    let name_at = name_span(toks, name_text.as_str());
    let name = Ident::new(name_text, name_at);
    let fields = match data {
        None => {
            return Some(derive_row(&name, &DeriveData::Enum, features));
        },
        Some(fields) => fields,
    };
    let ghost fm = fields.deep_view();
    let body = body_of(toks);
    let ghost bm = body_tokens(tm, 0);
    let mut idents: Vec<Option<Ident>> = Vec::new();
    let mut i: usize = 0;
    while i < fields.len()
        invariant
            i <= fields.len(),
            fm == fields.deep_view(),
            fm.len() == fields.len(),
            tm == tts_view(toks@),
            bm == body_tokens(tm, 0),
            match body {
                Some(b) => tts_view(b@) == bm,
                None => bm == Seq::<TokenModel>::empty(),
            },
            opt_idents_view(idents@) == read_field_names(tm, fm.subrange(0, i as int)),
        decreases fields.len() - i,
    {
        let ghost before = opt_idents_view(idents@);
        let f = match &fields[i] {
            Some(n) => Some(Ident::new(n.clone(), field_span(body, n.as_str(), Ghost(bm)))),
            None => None,
        };
        idents.push(f);
        proof {
            assert(fm[i as int] == fields@[i as int].deep_view());
            let fi = match fm[i as int] {
                Some(n) => Some(IdentModel { name: n, span: field_token_span(bm, n, 0) }),
                None => None,
            };
            assert(opt_idents_view(idents@) =~= before.push(fi));
            assert(read_field_names(tm, fm.subrange(0, i + 1)) =~= read_field_names(tm, fm.subrange(0, i as int)).push(fi));
        }
        i += 1;
    }
    assert(fm.subrange(0, i as int) =~= fm);
    Some(derive_row(&name, &DeriveData::Struct(idents), features))
}

} // verus!

//! SQL text with slots: pieces of SQL written out, and places where the
//! generated code computes a piece (a table's name, say) from tokens.

use vstd::prelude::*;
use vstd::string::StringExecFns;
use crate::token::{TokenTree, TokenModel, Spacing, tts_view, copy_stream};
use crate::emit::{quote_tokens, quote_into, args_view, literal_tok, punct_tok, punct_token, push_token, push_all, str_literal_text, string_literal};
use crate::repr::{args2, single};

verus! {

#[derive(Debug)]
pub enum SqlPart {
    Text(String),
    Slot(Vec<TokenTree>),
}

pub enum SqlPartModel {
    Text(Seq<char>),
    Slot(Seq<TokenModel>),
}

impl View for SqlPart {
    type V = SqlPartModel;

    open spec fn view(&self) -> SqlPartModel {
        match self {
            SqlPart::Text(s) => SqlPartModel::Text(s@),
            SqlPart::Slot(t) => SqlPartModel::Slot(tts_view(t@)),
        }
    }
}

/// Collects SQL text and slots in order.
#[derive(Debug)]
pub struct SlottedSqlBuilder {
    parts: Vec<SqlPart>,
}

impl View for SlottedSqlBuilder {
    type V = Seq<SqlPartModel>;

    closed spec fn view(&self) -> Seq<SqlPartModel> {
        self.parts@.map_values(|p: SqlPart| p@)
    }
}

pub open spec fn sql_text(s: Seq<char>) -> Seq<SqlPartModel> {
    seq![SqlPartModel::Text(s)]
}

pub open spec fn sql_slot(t: Seq<TokenModel>) -> Seq<SqlPartModel> {
    seq![SqlPartModel::Slot(t)]
}

impl SlottedSqlBuilder {
    pub fn new() -> (builder: SlottedSqlBuilder)
        ensures
            builder@ == Seq::<SqlPartModel>::empty(),
    {
        let builder = SlottedSqlBuilder { parts: Vec::new() };
        assert(builder@ =~= Seq::<SqlPartModel>::empty());
        builder
    }

    pub fn append_str(&mut self, text: &str)
        ensures
            final(self)@ == old(self)@ + sql_text(text@),
    {
        self.parts.push(SqlPart::Text(String::from_str(text)));
        assert(self@ =~= old(self)@ + sql_text(text@));
    }

    pub fn append_slot(&mut self, tokens: Vec<TokenTree>)
        ensures
            final(self)@ == old(self)@ + sql_slot(tts_view(tokens@)),
    {
        let ghost m = tts_view(tokens@);
        self.parts.push(SqlPart::Slot(tokens));
        assert(self@ =~= old(self)@ + sql_slot(m));
    }

    /// The parts, in order.
    pub fn build(self) -> (parts: Vec<SqlPart>)
        ensures
            parts@.map_values(|p: SqlPart| p@) == self@,
    {
        self.parts
    }
}

// ---------------------------------------------------------------------------
// The SQL as a string at run time.
// ---------------------------------------------------------------------------

/// The text with `{` and `}` doubled, as a format string writes them.
pub open spec fn brace_escaped(s: Seq<char>) -> Seq<char>
    decreases s.len(),
{
    if s.len() == 0 {
        Seq::empty()
    } else {
        let c = s.last();
        brace_escaped(s.drop_last()) + if c == '{' {
            seq!['{', '{']
        } else if c == '}' {
            seq!['}', '}']
        } else {
            seq![c]
        }
    }
}

/// The format string of the parts: each text as it is, each slot as `{}`.
pub open spec fn format_text(parts: Seq<SqlPartModel>) -> Seq<char>
    decreases parts.len(),
{
    if parts.len() == 0 {
        Seq::empty()
    } else {
        format_text(parts.drop_last()) + match parts.last() {
            SqlPartModel::Text(t) => brace_escaped(t),
            SqlPartModel::Slot(_) => "{}"@,
        }
    }
}

/// `, slot` for each slot, in order.
pub open spec fn format_args(parts: Seq<SqlPartModel>) -> Seq<TokenModel>
    decreases parts.len(),
{
    if parts.len() == 0 {
        Seq::empty()
    } else {
        format_args(parts.drop_last()) + match parts.last() {
            SqlPartModel::Text(_) => Seq::empty(),
            SqlPartModel::Slot(t) => seq![punct_tok(',', Spacing::Alone)] + t,
        }
    }
}

/// The expression that builds the SQL: the format string with the value of
/// each slot put in its place.
pub open spec fn sql_string_tokens(parts: Seq<SqlPartModel>) -> Seq<TokenModel> {
    quote_tokens("::std::format!($ $)"@, seq![seq![literal_tok(str_literal_text(format_text(parts)))], format_args(parts)])
}

fn append_brace_escaped(out: &mut String, s: &str)
    ensures
        final(out)@ == old(out)@ + brace_escaped(s@),
{
    proof {
        reveal_strlit("{{");
        reveal_strlit("}}");
    }
    let n = s.unicode_len();
    let mut i: usize = 0;
    while i < n
        invariant
            n == s@.len(),
            i <= n,
            out@ == old(out)@ + brace_escaped(s@.subrange(0, i as int)),
        decreases n - i,
    {
        let c = s.get_char(i);
        if c == '{' {
            out.append("{{");
        } else if c == '}' {
            out.append("}}");
        } else {
            let one = s.substring_char(i, i + 1);
            assert(one@ =~= seq![c]);
            out.append(one);
        }
        proof {
            let sub = s@.subrange(0, i + 1);
            assert(sub.drop_last() =~= s@.subrange(0, i as int));
            assert(sub.last() == c);
            reveal_strlit("{{");
            reveal_strlit("}}");
            assert("{{"@ =~= seq!['{', '{']);
            assert("}}"@ =~= seq!['}', '}']);
            let piece = if c == '{' {
                seq!['{', '{']
            } else if c == '}' {
                seq!['}', '}']
            } else {
                seq![c]
            };
            assert(brace_escaped(sub) == brace_escaped(s@.subrange(0, i as int)) + piece);
            assert(out@ =~= old(out)@ + brace_escaped(s@.subrange(0, i as int)) + piece);
        }
        assert(out@ =~= old(out)@ + brace_escaped(s@.subrange(0, i + 1)));
        i += 1;
    }
    assert(s@.subrange(0, n as int) =~= s@);
}

/// The expression that builds the SQL of the parts at run time.
pub fn sql_string_expr(parts: &Vec<SqlPart>) -> (toks: Vec<TokenTree>)
    ensures
        tts_view(toks@) == sql_string_tokens(parts@.map_values(|p: SqlPart| p@)),
{
    let ghost ps = parts@.map_values(|p: SqlPart| p@);
    let mut text = String::new();
    let mut args: Vec<TokenTree> = Vec::new();
    assert(tts_view(args@) =~= Seq::<TokenModel>::empty());
    assert(text@ =~= Seq::<char>::empty());
    let mut i: usize = 0;
    while i < parts.len()
        invariant
            i <= parts.len(),
            ps == parts@.map_values(|p: SqlPart| p@),
            text@ == format_text(ps.subrange(0, i as int)),
            tts_view(args@) == format_args(ps.subrange(0, i as int)),
        decreases parts.len() - i,
    {
        let ghost before_args = tts_view(args@);
        match &parts[i] {
            SqlPart::Text(t) => {
                append_brace_escaped(&mut text, t.as_str());
            },
            SqlPart::Slot(t) => {
                proof {
                    reveal_strlit("{}");
                }
                text.append("{}");
                push_token(&mut args, punct_token(',', Spacing::Alone));
                push_all(&mut args, copy_stream(t));
            },
        }
        proof {
            let sub = ps.subrange(0, i + 1);
            assert(sub.drop_last() =~= ps.subrange(0, i as int));
            assert(sub.last() == parts@[i as int]@);
            assert(text@ =~= format_text(sub));
            assert(tts_view(args@) =~= format_args(sub));
        }
        i += 1;
    }
    assert(ps.subrange(0, i as int) =~= ps);
    let mut out: Vec<TokenTree> = Vec::new();
    assert(tts_view(out@) =~= Seq::<TokenModel>::empty());
    quote_into(&mut out, "::std::format!($ $)", &args2(single(string_literal(text.as_str())), args));
    out
}

} // verus!

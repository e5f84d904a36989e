//! The pieces of a table declaration: columns, relations to other tables and
//! the keywords of `create table`, with the modules they generate.

use vstd::prelude::*;
use crate::error::{Keyword, Expected, ParseError, expected, expected_at};
use crate::token::{
    Span, TokenTree, TokenModel, Ident, IdentModel, tts_view, tt_span, span_at, span_at_exec, ident_at, punct_at,
    punct2_at, peek_ident, peek_punct, peek_punct2, call_site_span,
};
use crate::expr::{agrees, ident_model_at, ident_at_exec};
use crate::data_type::{DataType, spec_parse_data_type};
use crate::clause::{ColumnList, ColumnListModel, spec_parse_column_list, spec_parse_keyword, parse_keyword};
use crate::path::{Path, PathModel, spec_parse_path, path_tokens};
use crate::emit::{quote_tokens, quote_into, args_view, literal_tok, push_all, string_literal};
use crate::repr::{args1, args3, args4, single, code_with, data_type_tokens, str_tok};

verus! {

// ---------------------------------------------------------------------------
// The keywords of `create table`.
// ---------------------------------------------------------------------------

/// Two keywords in a row, with their spans.
pub open spec fn spec_parse_keyword_pair(toks: Seq<TokenTree>, end: Span, pos: int, a: Keyword, b: Keyword) -> Result<((Span, Span), int), ParseError> {
    match spec_parse_keyword(toks, end, pos, a) {
        Ok((s1, p1)) => match spec_parse_keyword(toks, end, p1, b) {
            Ok((s2, p2)) => Ok(((s1, s2), p2)),
            Err(e) => Err(e),
        },
        Err(e) => Err(e),
    }
}

fn parse_keyword_pair(toks: &Vec<TokenTree>, end: Span, pos: usize, a: Keyword, b: Keyword) -> (res: Result<((Span, Span), usize), ParseError>)
    requires
        pos <= toks.len(),
    ensures
        match res {
            Ok((s, q)) => spec_parse_keyword_pair(toks@, end, pos as int, a, b) == Ok::<((Span, Span), int), ParseError>((s, q as int))
                && q <= toks.len(),
            Err(e) => spec_parse_keyword_pair(toks@, end, pos as int, a, b) == Err::<((Span, Span), int), ParseError>(e),
        },
{
    let (s1, p1) = match parse_keyword(toks, end, pos, a) {
        Ok(r) => r,
        Err(e) => return Err(e),
    };
    match parse_keyword(toks, end, p1, b) {
        Ok((s2, p2)) => Ok(((s1, s2), p2)),
        Err(e) => Err(e),
    }
}

/// `create table`.
#[derive(Clone, Copy, PartialEq, Eq, Structural, Debug)]
pub struct CreateTable {
    pub create: Span,
    pub table: Span,
}

/// `not null`.
#[derive(Clone, Copy, PartialEq, Eq, Structural, Debug)]
pub struct NotNull {
    pub not: Span,
    pub null: Span,
}

/// `primary key`.
#[derive(Clone, Copy, PartialEq, Eq, Structural, Debug)]
pub struct PrimaryKey {
    pub primary: Span,
    pub key: Span,
}

impl CreateTable {
    pub fn parse(toks: &Vec<TokenTree>, end: Span, pos: usize) -> (res: Result<(CreateTable, usize), ParseError>)
        requires
            pos <= toks.len(),
        ensures
            match res {
                Ok((c, q)) => spec_parse_keyword_pair(toks@, end, pos as int, Keyword::Create, Keyword::Table)
                    == Ok::<((Span, Span), int), ParseError>(((c.create, c.table), q as int)),
                Err(e) => spec_parse_keyword_pair(toks@, end, pos as int, Keyword::Create, Keyword::Table)
                    == Err::<((Span, Span), int), ParseError>(e),
            },
    {
        match parse_keyword_pair(toks, end, pos, Keyword::Create, Keyword::Table) {
            Ok(((create, table), q)) => Ok((CreateTable { create, table }, q)),
            Err(e) => Err(e),
        }
    }
}

impl NotNull {
    pub fn parse(toks: &Vec<TokenTree>, end: Span, pos: usize) -> (res: Result<(NotNull, usize), ParseError>)
        requires
            pos <= toks.len(),
        ensures
            match res {
                Ok((n, q)) => spec_parse_keyword_pair(toks@, end, pos as int, Keyword::Not, Keyword::Null)
                    == Ok::<((Span, Span), int), ParseError>(((n.not, n.null), q as int)),
                Err(e) => spec_parse_keyword_pair(toks@, end, pos as int, Keyword::Not, Keyword::Null)
                    == Err::<((Span, Span), int), ParseError>(e),
            },
    {
        match parse_keyword_pair(toks, end, pos, Keyword::Not, Keyword::Null) {
            Ok(((not, null), q)) => Ok((NotNull { not, null }, q)),
            Err(e) => Err(e),
        }
    }
}

impl PrimaryKey {
    pub fn parse(toks: &Vec<TokenTree>, end: Span, pos: usize) -> (res: Result<(PrimaryKey, usize), ParseError>)
        requires
            pos <= toks.len(),
        ensures
            match res {
                Ok((k, q)) => spec_parse_keyword_pair(toks@, end, pos as int, Keyword::Primary, Keyword::Key)
                    == Ok::<((Span, Span), int), ParseError>(((k.primary, k.key), q as int)),
                Err(e) => spec_parse_keyword_pair(toks@, end, pos as int, Keyword::Primary, Keyword::Key)
                    == Err::<((Span, Span), int), ParseError>(e),
            },
    {
        match parse_keyword_pair(toks, end, pos, Keyword::Primary, Keyword::Key) {
            Ok(((primary, key), q)) => Ok((PrimaryKey { primary, key }, q)),
            Err(e) => Err(e),
        }
    }
}

// ---------------------------------------------------------------------------
// Columns.
// ---------------------------------------------------------------------------

/// A column of a table: its name and data type. The constraints are not read
/// yet and stay empty.
#[derive(Debug)]
pub struct Column {
    pub name: Ident,
    pub data_type: DataType,
    pub not_null: Option<NotNull>,
    pub primary_key: Option<PrimaryKey>,
}

pub struct ColumnModel {
    pub name: IdentModel,
    pub data_type: DataType,
    pub not_null: Option<NotNull>,
    pub primary_key: Option<PrimaryKey>,
}

impl View for Column {
    type V = ColumnModel;

    open spec fn view(&self) -> ColumnModel {
        ColumnModel { name: self.name@, data_type: self.data_type, not_null: self.not_null, primary_key: self.primary_key }
    }
}

/// `name data_type`.
pub open spec fn spec_parse_column(toks: Seq<TokenTree>, end: Span, pos: int) -> Result<(ColumnModel, int), ParseError> {
    if !ident_at(toks, pos) {
        expected(Expected::Identifier, span_at(toks, pos, end))
    } else {
        match spec_parse_data_type(toks, end, pos + 1) {
            Ok((data_type, q)) => Ok((
                ColumnModel { name: ident_model_at(toks, pos), data_type, not_null: None, primary_key: None },
                q,
            )),
            Err(e) => Err(e),
        }
    }
}

/// The text of the doc attribute that marks a generated module.
pub open spec fn doc_literal(what: Seq<char>) -> Seq<TokenModel> {
    seq![literal_tok("r\" kosame "@ + what + "\""@)]
}

/// `/// kosame column` and a module named after the column that holds its
/// name and its Rust type.
pub open spec fn column_tokens(c: ColumnModel) -> Seq<TokenModel> {
    quote_tokens(
        "#[doc = $] pub mod $ { pub const NAME: &str = $; pub type Type = $; }"@,
        seq![doc_literal("column"@), seq![TokenModel::Ident(c.name)], str_tok(c.name.name), data_type_tokens(c.data_type)],
    )
}

fn doc_literal_token(what: &str) -> (v: Vec<TokenTree>)
    ensures
        tts_view(v@) == doc_literal(what@),
{
    proof {
        reveal_strlit("r\" kosame ");
        reveal_strlit("\"");
    }
    let mut text = String::from_str("r\" kosame ");
    text.append(what);
    text.append("\"");
    single(TokenTree::Literal { repr: text, span: call_site_span() })
}

impl Column {
    pub fn name(&self) -> (name: &Ident)
        ensures
            name == &self.name,
    {
        &self.name
    }

    pub fn data_type(&self) -> (data_type: &DataType)
        ensures
            data_type == &self.data_type,
    {
        &self.data_type
    }

    pub fn parse(toks: &Vec<TokenTree>, end: Span, pos: usize) -> (res: Result<(Column, usize), ParseError>)
        requires
            pos <= toks.len(),
        ensures
            agrees(res, spec_parse_column(toks@, end, pos as int)),
    {
        if !peek_ident(toks, pos) {
            return Err(expected_at(Expected::Identifier, span_at_exec(toks, pos, end)));
        }
        let name = ident_at_exec(toks, pos);
        match DataType::parse(toks, end, pos + 1) {
            Ok((data_type, q)) => Ok((Column { name, data_type, not_null: None, primary_key: None }, q)),
            Err(e) => Err(e),
        }
    }

    pub fn to_tokens(&self, out: &mut Vec<TokenTree>)
        ensures
            tts_view(final(out)@) == tts_view(old(out)@) + column_tokens(self@),
    {
        let mut ty: Vec<TokenTree> = Vec::new();
        assert(tts_view(ty@) =~= Seq::<TokenModel>::empty());
        self.data_type.to_tokens(&mut ty);
        assert(tts_view(ty@) =~= data_type_tokens(self.data_type));
        proof {
            reveal_strlit("column");
        }
        let args = args4(
            doc_literal_token("column"),
            single(TokenTree::Ident(self.name.duplicate())),
            single(string_literal(self.name.name.as_str())),
            ty,
        );
        assert(args_view(args@) =~= seq![doc_literal("column"@), seq![TokenModel::Ident(self.name@)], str_tok(self.name@.name), data_type_tokens(self.data_type)]);
        quote_into(out, "#[doc = $] pub mod $ { pub const NAME: &str = $; pub type Type = $; }", &args);
    }
}

// ---------------------------------------------------------------------------
// Relations.
// ---------------------------------------------------------------------------

/// `=>`, many rows to one, or `<=`, one row to many.
#[derive(Clone, Copy, PartialEq, Eq, Structural, Debug)]
pub enum Arrow {
    ManyToOne(Span),
    OneToMany(Span),
}

pub open spec fn spec_parse_arrow(toks: Seq<TokenTree>, end: Span, pos: int) -> Result<(Arrow, int), ParseError> {
    if punct2_at(toks, pos, '=', '>') {
        Ok((Arrow::ManyToOne(tt_span(toks[pos])), pos + 2))
    } else if punct2_at(toks, pos, '<', '=') {
        Ok((Arrow::OneToMany(tt_span(toks[pos])), pos + 2))
    } else {
        expected(Expected::Arrow, span_at(toks, pos, end))
    }
}

impl Arrow {
    pub fn parse(toks: &Vec<TokenTree>, end: Span, pos: usize) -> (res: Result<(Arrow, usize), ParseError>)
        requires
            pos <= toks.len(),
        ensures
            match res {
                Ok((a, q)) => spec_parse_arrow(toks@, end, pos as int) == Ok::<(Arrow, int), ParseError>((a, q as int))
                    && q <= toks.len(),
                Err(e) => spec_parse_arrow(toks@, end, pos as int) == Err::<(Arrow, int), ParseError>(e),
            },
    {
        if pos < toks.len() && peek_punct2(toks, pos, '=', '>') {
            Ok((Arrow::ManyToOne(toks[pos].span()), pos + 2))
        } else if pos < toks.len() && peek_punct2(toks, pos, '<', '=') {
            Ok((Arrow::OneToMany(toks[pos].span()), pos + 2))
        } else {
            Err(expected_at(Expected::Arrow, span_at_exec(toks, pos, end)))
        }
    }
}

/// `name: (columns) => target (columns)`: the columns of this table that refer
/// to those of the target table.
#[derive(Debug)]
pub struct Relation {
    pub name: Ident,
    pub colon: Span,
    pub source_columns: ColumnList,
    pub arrow: Arrow,
    pub dest_table: Path,
    pub dest_columns: ColumnList,
}

pub struct RelationModel {
    pub name: IdentModel,
    pub colon: Span,
    pub source_columns: ColumnListModel,
    pub arrow: Arrow,
    pub dest_table: PathModel,
    pub dest_columns: ColumnListModel,
}

impl View for Relation {
    type V = RelationModel;

    open spec fn view(&self) -> RelationModel {
        RelationModel {
            name: self.name@,
            colon: self.colon,
            source_columns: self.source_columns@,
            arrow: self.arrow,
            dest_table: self.dest_table@,
            dest_columns: self.dest_columns@,
        }
    }
}

pub open spec fn spec_parse_relation(toks: Seq<TokenTree>, end: Span, pos: int) -> Result<(RelationModel, int), ParseError> {
    if !ident_at(toks, pos) {
        expected(Expected::Identifier, span_at(toks, pos, end))
    } else if !punct_at(toks, pos + 1, ':') {
        expected(Expected::Punct(':'), span_at(toks, pos + 1, end))
    } else {
        match spec_parse_column_list(toks, end, pos + 2) {
            Ok((source_columns, p1)) => match spec_parse_arrow(toks, end, p1) {
                Ok((arrow, p2)) => match spec_parse_path(toks, end, p2) {
                    Ok((dest_table, p3)) => match spec_parse_column_list(toks, end, p3) {
                        Ok((dest_columns, p4)) => Ok((
                            RelationModel {
                                name: ident_model_at(toks, pos),
                                colon: tt_span(toks[pos + 1]),
                                source_columns,
                                arrow,
                                dest_table,
                                dest_columns,
                            },
                            p4,
                        )),
                        Err(e) => Err(e),
                    },
                    Err(e) => Err(e),
                },
                Err(e) => Err(e),
            },
            Err(e) => Err(e),
        }
    }
}

/// The template filled with each column in turn, one after the other.
pub open spec fn column_uses(template: Seq<char>, cols: Seq<IdentModel>) -> Seq<TokenModel>
    decreases cols.len(),
{
    if cols.len() == 0 {
        Seq::empty()
    } else {
        column_uses(template, cols.drop_last()) + quote_tokens(template, seq![seq![TokenModel::Ident(cols.last())]])
    }
}

/// `/// kosame relation` and a module named after the relation: its name, its
/// source columns, the target table and the target's columns, each reached
/// from the table module's parent.
pub open spec fn relation_tokens(r: RelationModel) -> Seq<TokenModel> {
    quote_tokens(
        "#[doc = $] pub mod $ { pub const NAME: &str = $; pub mod source_columns { $ } pub mod target_table { pub use super::super::super::super::$::*; } pub mod target_columns { $ } }"@,
        seq![
            doc_literal("relation"@),
            seq![TokenModel::Ident(r.name)],
            str_tok(r.name.name),
            column_uses("pub use super::super::super::columns::$;"@, r.source_columns.columns),
            path_tokens(r.dest_table),
            column_uses("pub use super::target_table::columns::$;"@, r.dest_columns.columns),
        ],
    )
}

fn column_uses_tokens(template: &str, cols: &Vec<Ident>) -> (toks: Vec<TokenTree>)
    ensures
        tts_view(toks@) == column_uses(template@, cols@.map_values(|i: Ident| i@)),
{
    let ghost cs = cols@.map_values(|i: Ident| i@);
    let mut toks: Vec<TokenTree> = Vec::new();
    assert(tts_view(toks@) =~= Seq::<TokenModel>::empty());
    let mut i: usize = 0;
    while i < cols.len()
        invariant
            i <= cols.len(),
            cs == cols@.map_values(|i: Ident| i@),
            tts_view(toks@) == column_uses(template@, cs.subrange(0, i as int)),
        decreases cols.len() - i,
    {
        let part = code_with(template, args1(single(TokenTree::Ident(cols[i].duplicate()))));
        push_all(&mut toks, part);
        proof {
            let sub = cs.subrange(0, i + 1);
            assert(sub.drop_last() =~= cs.subrange(0, i as int));
            assert(sub.last() == cols@[i as int]@);
        }
        i += 1;
    }
    assert(cs.subrange(0, i as int) =~= cs);
    toks
}

impl Relation {
    pub fn name(&self) -> (name: &Ident)
        ensures
            name == &self.name,
    {
        &self.name
    }

    pub fn parse(toks: &Vec<TokenTree>, end: Span, pos: usize) -> (res: Result<(Relation, usize), ParseError>)
        requires
            pos <= toks.len(),
        ensures
            agrees(res, spec_parse_relation(toks@, end, pos as int)),
    {
        if !peek_ident(toks, pos) {
            return Err(expected_at(Expected::Identifier, span_at_exec(toks, pos, end)));
        }
        let name = ident_at_exec(toks, pos);
        if !peek_punct(toks, pos + 1, ':') {
            return Err(expected_at(Expected::Punct(':'), span_at_exec(toks, pos + 1, end)));
        }
        let colon = toks[pos + 1].span();
        let (source_columns, p1) = match ColumnList::parse(toks, end, pos + 2) {
            Ok(r) => r,
            Err(e) => return Err(e),
        };
        let (arrow, p2) = match Arrow::parse(toks, end, p1) {
            Ok(r) => r,
            Err(e) => return Err(e),
        };
        let (dest_table, p3) = match Path::parse(toks, end, p2) {
            Ok(r) => r,
            Err(e) => return Err(e),
        };
        let (dest_columns, p4) = match ColumnList::parse(toks, end, p3) {
            Ok(r) => r,
            Err(e) => return Err(e),
        };
        Ok((Relation { name, colon, source_columns, arrow, dest_table, dest_columns }, p4))
    }

    pub fn to_tokens(&self, out: &mut Vec<TokenTree>)
        ensures
            tts_view(final(out)@) == tts_view(old(out)@) + relation_tokens(self@),
    {
        proof {
            reveal_strlit("relation");
        }
        let sources = column_uses_tokens("pub use super::super::super::columns::$;", &self.source_columns.columns);
        let targets = column_uses_tokens("pub use super::target_table::columns::$;", &self.dest_columns.columns);
        let mut target: Vec<TokenTree> = Vec::new();
        assert(tts_view(target@) =~= Seq::<TokenModel>::empty());
        self.dest_table.to_tokens(&mut target);
        assert(tts_view(target@) =~= path_tokens(self.dest_table@));
        let mut args: Vec<Vec<TokenTree>> = Vec::new();
        let ghost parts = seq![
            doc_literal("relation"@),
            seq![TokenModel::Ident(self.name@)],
            str_tok(self.name@.name),
            tts_view(sources@),
            tts_view(target@),
            tts_view(targets@),
        ];
        args.push(doc_literal_token("relation"));
        args.push(single(TokenTree::Ident(self.name.duplicate())));
        args.push(single(string_literal(self.name.name.as_str())));
        args.push(sources);
        args.push(target);
        args.push(targets);
        assert(args_view(args@) =~= parts);
        quote_into(
            out,
            "#[doc = $] pub mod $ { pub const NAME: &str = $; pub mod source_columns { $ } pub mod target_table { pub use super::super::super::super::$::*; } pub mod target_columns { $ } }",
            &args,
        );
    }
}

// ---------------------------------------------------------------------------
// Documentation.
// ---------------------------------------------------------------------------

/// Something that describes itself in a doc comment.
pub trait Docs {
    fn docs(&self) -> String;
}

/// `#[doc = "text"]`.
pub open spec fn docs_tokens(text: Seq<char>) -> Seq<TokenModel> {
    quote_tokens("#[doc = $]"@, seq![str_tok(text)])
}

/// The doc attribute with the given text.
pub fn doc_attribute(text: &str) -> (toks: Vec<TokenTree>)
    ensures
        tts_view(toks@) == docs_tokens(text@),
{
    code_with("#[doc = $]", args1(single(string_literal(text))))
}

/// The doc attribute with what the item says of itself.
pub fn to_docs_token_stream<T: Docs>(item: &T) -> (toks: Vec<TokenTree>)
    ensures
        exists|text: Seq<char>| tts_view(toks@) == #[trigger] docs_tokens(text),
{
    let text = item.docs();
    doc_attribute(text.as_str())
}

} // verus!

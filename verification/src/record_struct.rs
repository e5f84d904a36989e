//! Record structs: the struct of a row together with its conversions from a
//! `postgres` row and from a record nested in one.

use vstd::prelude::*;
use crate::token::{TokenTree, TokenModel, Ident, IdentModel, Spacing, tts_view, copy_stream};
use crate::emit::{quote_tokens, quote_into, args_view, literal_tok, punct_tok, ident_tok, push_token, push_all, decimal, decimal_text, punct_token};
use crate::repr::{args1, args2, args3, single, code, code_with, joined, join_parts};
use crate::row::Features;
use crate::derive::{signed_decimal, suffixed, field_count_text};

verus! {

/// `name: type` of a record struct.
#[derive(Debug)]
pub struct RecordStructField {
    pub name: Ident,
    pub ty: Vec<TokenTree>,
}

pub struct RecordStructFieldModel {
    pub name: IdentModel,
    pub ty: Seq<TokenModel>,
}

impl View for RecordStructField {
    type V = RecordStructFieldModel;

    open spec fn view(&self) -> RecordStructFieldModel {
        RecordStructFieldModel { name: self.name@, ty: tts_view(self.ty@) }
    }
}

/// A struct named `name` with the given fields.
#[derive(Debug)]
pub struct RecordStruct {
    pub name: Ident,
    pub fields: Vec<RecordStructField>,
}

pub open spec fn record_fields_view(s: Seq<RecordStructField>) -> Seq<RecordStructFieldModel> {
    s.map_values(|f: RecordStructField| f@)
}

/// `name: type`.
pub open spec fn record_field_tokens(f: RecordStructFieldModel) -> Seq<TokenModel> {
    seq![TokenModel::Ident(f.name), punct_tok(':', Spacing::Alone)] + f.ty
}

/// `pub name: type,` for each field.
pub open spec fn record_fields_tokens(s: Seq<RecordStructFieldModel>) -> Seq<TokenModel>
    decreases s.len(),
{
    if s.len() == 0 {
        Seq::empty()
    } else {
        record_fields_tokens(s.drop_last()) + seq![ident_tok("pub"@)] + record_field_tokens(s.last())
            + seq![punct_tok(',', Spacing::Alone)]
    }
}

/// The traits a record struct derives.
pub open spec fn record_derives(features: Features) -> Seq<Seq<TokenModel>> {
    seq![quote_tokens("Debug"@, Seq::empty())]
        + if features.serde { seq![quote_tokens("::serde::Serialize"@, Seq::empty())] } else { Seq::empty() }
        + if features.serde_full { seq![quote_tokens("::serde::Deserialize"@, Seq::empty())] } else { Seq::empty() }
}

/// `name: row.get(k)` for the `k`-th field.
pub open spec fn record_row_gets(s: Seq<RecordStructFieldModel>) -> Seq<Seq<TokenModel>>
    decreases s.len(),
{
    if s.len() == 0 {
        Seq::empty()
    } else {
        record_row_gets(s.drop_last()).push(quote_tokens(
            "$: row.get($)"@,
            seq![seq![TokenModel::Ident(s.last().name)], seq![literal_tok(decimal((s.len() - 1) as nat) + "usize"@)]],
        ))
    }
}

/// Each field read from the record, the reader moved past it.
pub open spec fn record_reads(s: Seq<RecordStructFieldModel>) -> Seq<Seq<TokenModel>>
    decreases s.len(),
{
    if s.len() == 0 {
        Seq::empty()
    } else {
        record_reads(s.drop_last()).push(quote_tokens(
            "$: { let (field, length) = ::kosame::pg::internal::record_field_from_sql(&reader)?; reader = &reader[length..]; field }"@,
            seq![seq![TokenModel::Ident(s.last().name)]],
        ))
    }
}

/// `From<::postgres::Row>`: the fields from the row's columns in order.
pub open spec fn record_from_row_tokens(name: IdentModel, s: Seq<RecordStructFieldModel>) -> Seq<TokenModel> {
    quote_tokens(
        "impl From<::postgres::Row> for $ { fn from(row: ::postgres::Row) -> Self { Self { $ } } }"@,
        seq![seq![TokenModel::Ident(name)], joined(record_row_gets(s))],
    )
}

/// `FromSql`: checks the record's column count, then reads the fields.
pub open spec fn record_from_sql_tokens(name: IdentModel, s: Seq<RecordStructFieldModel>) -> Seq<TokenModel> {
    quote_tokens(
        "impl<'a> ::kosame::pg::internal::FromSql<'a> for $ { fn accepts(ty: &::kosame::pg::internal::Type) -> bool { ty.name() == \"_record\" } fn from_sql(ty: &::kosame::pg::internal::Type, raw: &[u8],) -> Result<Self, Box<dyn std::error::Error + Sync + Send>> { let mut reader = raw; let column_count = ::kosame::pg::internal::int4_from_sql(&reader[..4])?; reader = &reader[4..]; assert_eq!(column_count, $); Ok(Self { $ }) } }"@,
        seq![
            seq![TokenModel::Ident(name)],
            seq![literal_tok(signed_decimal((s.len() as i32) as int) + "i32"@)],
            joined(record_reads(s)),
        ],
    )
}

/// The struct, then both conversions.
pub open spec fn record_struct_tokens(name: IdentModel, s: Seq<RecordStructFieldModel>, features: Features) -> Seq<TokenModel> {
    quote_tokens(
        "#[derive($)] pub struct $ { $ }"@,
        seq![joined(record_derives(features)), seq![TokenModel::Ident(name)], record_fields_tokens(s)],
    ) + record_from_row_tokens(name, s) + record_from_sql_tokens(name, s)
}

impl RecordStructField {
    pub fn new(name: Ident, ty: Vec<TokenTree>) -> (field: RecordStructField)
        ensures
            field@ == (RecordStructFieldModel { name: name@, ty: tts_view(ty@) }),
    {
        RecordStructField { name, ty }
    }

    pub fn to_tokens(&self, out: &mut Vec<TokenTree>)
        ensures
            tts_view(final(out)@) == tts_view(old(out)@) + record_field_tokens(self@),
    {
        let ghost start = tts_view(out@);
        push_token(out, TokenTree::Ident(self.name.duplicate()));
        push_token(out, punct_token(':', Spacing::Alone));
        push_all(out, copy_stream(&self.ty));
        assert(tts_view(out@) =~= start + record_field_tokens(self@));
    }
}

impl RecordStruct {
    pub fn new(name: Ident, fields: Vec<RecordStructField>) -> (record: RecordStruct)
        ensures
            record.name == name,
            record.fields == fields,
    {
        RecordStruct { name, fields }
    }

    /// Appends `From<::postgres::Row>` for the struct.
    pub fn to_from_row_impl(&self, out: &mut Vec<TokenTree>)
        ensures
            tts_view(final(out)@) == tts_view(old(out)@) + record_from_row_tokens(self.name@, record_fields_view(self.fields@)),
    {
        let ghost fs = record_fields_view(self.fields@);
        let mut gets: Vec<Vec<TokenTree>> = Vec::new();
        assert(args_view(gets@) =~= Seq::<Seq<TokenModel>>::empty());
        let mut i: usize = 0;
        while i < self.fields.len()
            invariant
                i <= self.fields.len(),
                fs == record_fields_view(self.fields@),
                fs.len() == self.fields.len(),
                args_view(gets@) == record_row_gets(fs.subrange(0, i as int)),
            decreases self.fields.len() - i,
        {
            let g = code_with(
                "$: row.get($)",
                args2(single(TokenTree::Ident(self.fields[i].name.duplicate())), single(suffixed(decimal_text(i as u64), "usize"))),
            );
            let ghost gm = tts_view(g@);
            gets.push(g);
            proof {
                let sub = fs.subrange(0, i + 1);
                assert(sub.drop_last() =~= fs.subrange(0, i as int));
                assert(sub.last() == self.fields@[i as int]@);
                assert(args_view(gets@) =~= record_row_gets(sub));
            }
            i += 1;
        }
        assert(fs.subrange(0, i as int) =~= fs);
        quote_into(
            out,
            "impl From<::postgres::Row> for $ { fn from(row: ::postgres::Row) -> Self { Self { $ } } }",
            &args2(single(TokenTree::Ident(self.name.duplicate())), join_parts(gets)),
        );
    }

    /// Appends `FromSql` for the struct, which reads it from a record.
    pub fn to_from_sql_impl(&self, out: &mut Vec<TokenTree>)
        ensures
            tts_view(final(out)@) == tts_view(old(out)@) + record_from_sql_tokens(self.name@, record_fields_view(self.fields@)),
    {
        let ghost fs = record_fields_view(self.fields@);
        let mut reads: Vec<Vec<TokenTree>> = Vec::new();
        assert(args_view(reads@) =~= Seq::<Seq<TokenModel>>::empty());
        let mut i: usize = 0;
        while i < self.fields.len()
            invariant
                i <= self.fields.len(),
                fs == record_fields_view(self.fields@),
                fs.len() == self.fields.len(),
                args_view(reads@) == record_reads(fs.subrange(0, i as int)),
            decreases self.fields.len() - i,
        {
            let r = code_with(
                "$: { let (field, length) = ::kosame::pg::internal::record_field_from_sql(&reader)?; reader = &reader[length..]; field }",
                args1(single(TokenTree::Ident(self.fields[i].name.duplicate()))),
            );
            let ghost rm = tts_view(r@);
            reads.push(r);
            proof {
                let sub = fs.subrange(0, i + 1);
                assert(sub.drop_last() =~= fs.subrange(0, i as int));
                assert(sub.last() == self.fields@[i as int]@);
                assert(args_view(reads@) =~= record_reads(sub));
            }
            i += 1;
        }
        assert(fs.subrange(0, i as int) =~= fs);
        quote_into(
            out,
            "impl<'a> ::kosame::pg::internal::FromSql<'a> for $ { fn accepts(ty: &::kosame::pg::internal::Type) -> bool { ty.name() == \"_record\" } fn from_sql(ty: &::kosame::pg::internal::Type, raw: &[u8],) -> Result<Self, Box<dyn std::error::Error + Sync + Send>> { let mut reader = raw; let column_count = ::kosame::pg::internal::int4_from_sql(&reader[..4])?; reader = &reader[4..]; assert_eq!(column_count, $); Ok(Self { $ }) } }",
            &args3(
                single(TokenTree::Ident(self.name.duplicate())),
                single(suffixed(field_count_text(self.fields.len()), "i32")),
                join_parts(reads),
            ),
        );
    }

    /// Appends the struct and its two conversions.
    pub fn to_tokens(&self, out: &mut Vec<TokenTree>, features: Features)
        ensures
            tts_view(final(out)@) == tts_view(old(out)@) + record_struct_tokens(self.name@, record_fields_view(self.fields@), features),
    {
        let ghost start = tts_view(out@);
        let ghost fs = record_fields_view(self.fields@);
        let mut derives: Vec<Vec<TokenTree>> = Vec::new();
        derives.push(code("Debug"));
        if features.serde {
            derives.push(code("::serde::Serialize"));
        }
        if features.serde_full {
            derives.push(code("::serde::Deserialize"));
        }
        assert(args_view(derives@) =~= record_derives(features));
        let mut fields: Vec<TokenTree> = Vec::new();
        assert(tts_view(fields@) =~= Seq::<TokenModel>::empty());
        let mut i: usize = 0;
        while i < self.fields.len()
            invariant
                i <= self.fields.len(),
                fs == record_fields_view(self.fields@),
                fs.len() == self.fields.len(),
                tts_view(fields@) == record_fields_tokens(fs.subrange(0, i as int)),
            decreases self.fields.len() - i,
        {
            push_token(&mut fields, crate::emit::ident_token("pub"));
            self.fields[i].to_tokens(&mut fields);
            push_token(&mut fields, punct_token(',', Spacing::Alone));
            proof {
                let sub = fs.subrange(0, i + 1);
                assert(sub.drop_last() =~= fs.subrange(0, i as int));
                assert(sub.last() == self.fields@[i as int]@);
                assert(tts_view(fields@) =~= record_fields_tokens(sub));
            }
            i += 1;
        }
        assert(fs.subrange(0, i as int) =~= fs);
        quote_into(
            out,
            "#[derive($)] pub struct $ { $ }",
            &args3(join_parts(derives), single(TokenTree::Ident(self.name.duplicate())), fields),
        );
        let ghost mid = tts_view(out@);
        self.to_from_row_impl(out);
        self.to_from_sql_impl(out);
        assert(tts_view(out@) =~= start + record_struct_tokens(self.name@, fs, features));
    }
}

} // verus!

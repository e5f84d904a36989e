//! Row structs: the Rust structs that the generated code reads query results
//! into.

use vstd::prelude::*;
use crate::token::{TokenTree, TokenModel, Ident, IdentModel, Delimiter, Spacing, tts_view, tt_view, call_site_span, copy_stream};
use crate::emit::{quote_tokens, quote_into, args_view, push_token, push_all, punct_tok, ident_tok};
use crate::common::{Attribute, AttributeModel, attrs_view};
use crate::repr::{args1, args2, args3, single, code, code_with, joined, join_parts};
use crate::token::Span;
use crate::clause::Field;
use crate::expr::expr_span_bounds;
use crate::path::{Path, PathExt, path_tokens, spec_to_call_site};

verus! {

/// The optional features that the generated code depends on.
#[derive(Clone, Copy, Debug)]
pub struct Features {
    /// Rows also derive `serde::Serialize`.
    pub serde: bool,
    /// Rows also derive `serde::Deserialize`.
    pub serde_full: bool,
    /// Reading rows from the `postgres` drivers.
    pub postgres: bool,
    /// Handing the bind parameters to the driver as `postgres-types` values.
    pub postgres_types: bool,
}

/// An attribute as written: `#[...]`, or `#![...]` for an inner one.
pub open spec fn attr_tokens(a: AttributeModel) -> Seq<TokenModel> {
    let bang = match a.bang {
        Some(s) => seq![TokenModel::Punct { ch: '!', spacing: Spacing::Alone, span: s }],
        None => Seq::empty(),
    };
    seq![TokenModel::Punct { ch: '#', spacing: Spacing::Alone, span: a.pound }] + bang
        + seq![TokenModel::Group { delimiter: Delimiter::Bracket, stream: a.tokens, span: a.bracket }]
}

/// Attributes one after the other.
pub open spec fn attrs_tokens(s: Seq<AttributeModel>) -> Seq<TokenModel>
    decreases s.len(),
{
    if s.len() == 0 {
        Seq::empty()
    } else {
        attrs_tokens(s.drop_last()) + attr_tokens(s.last())
    }
}

impl Attribute {
    pub fn to_tokens(&self, out: &mut Vec<TokenTree>)
        ensures
            tts_view(final(out)@) == tts_view(old(out)@) + attr_tokens(self@),
    {
        let ghost start = tts_view(out@);
        push_token(out, TokenTree::Punct { ch: '#', spacing: Spacing::Alone, span: self.pound });
        if let Some(s) = self.bang {
            push_token(out, TokenTree::Punct { ch: '!', spacing: Spacing::Alone, span: s });
        }
        push_token(out, TokenTree::Group { delimiter: Delimiter::Bracket, stream: copy_stream(&self.tokens), span: self.bracket });
        assert(tts_view(out@) =~= start + attr_tokens(self@));
    }
}

/// Writes attributes one after the other.
pub fn attrs_to_tokens(attrs: &Vec<Attribute>, out: &mut Vec<TokenTree>)
    ensures
        tts_view(final(out)@) == tts_view(old(out)@) + attrs_tokens(attrs_view(attrs@)),
{
    let ghost start = tts_view(out@);
    let ghost ms = attrs_view(attrs@);
    let mut i: usize = 0;
    while i < attrs.len()
        invariant
            i <= attrs.len(),
            ms == attrs_view(attrs@),
            ms.len() == attrs.len(),
            tts_view(out@) == start + attrs_tokens(ms.subrange(0, i as int)),
        decreases attrs.len() - i,
    {
        attrs[i].to_tokens(out);
        proof {
            assert(ms[i as int] == attrs@[i as int]@);
            assert(ms.subrange(0, i + 1).drop_last() =~= ms.subrange(0, i as int));
            assert(tts_view(out@) =~= start + attrs_tokens(ms.subrange(0, i + 1)));
        }
        i += 1;
    }
    assert(ms.subrange(0, i as int) =~= ms);
}

/// A field of a row struct: attributes, a name and the type, as tokens.
#[derive(Debug)]
pub struct RowField {
    pub attrs: Vec<Attribute>,
    pub name: Ident,
    pub ty: Vec<TokenTree>,
}

pub struct RowFieldModel {
    pub attrs: Seq<AttributeModel>,
    pub name: IdentModel,
    pub ty: Seq<TokenModel>,
}

impl View for RowField {
    type V = RowFieldModel;

    open spec fn view(&self) -> RowFieldModel {
        RowFieldModel { attrs: attrs_view(self.attrs@), name: self.name@, ty: tts_view(self.ty@) }
    }
}

/// `#[attrs] pub name: Type`.
pub open spec fn row_field_tokens(f: RowFieldModel) -> Seq<TokenModel> {
    attrs_tokens(f.attrs) + seq![ident_tok("pub"@), TokenModel::Ident(f.name), punct_tok(':', Spacing::Alone)] + f.ty
}

impl RowField {
    pub fn new(attrs: Vec<Attribute>, name: Ident, ty: Vec<TokenTree>) -> (field: RowField)
        ensures
            field@ == (RowFieldModel { attrs: attrs_view(attrs@), name: name@, ty: tts_view(ty@) }),
    {
        RowField { attrs, name, ty }
    }

    pub fn to_tokens(&self, out: &mut Vec<TokenTree>)
        ensures
            tts_view(final(out)@) == tts_view(old(out)@) + row_field_tokens(self@),
    {
        let ghost start = tts_view(out@);
        attrs_to_tokens(&self.attrs, out);
        push_token(out, crate::emit::ident_token("pub"));
        push_token(out, TokenTree::Ident(self.name.duplicate()));
        push_token(out, crate::emit::punct_token(':', Spacing::Alone));
        push_all(out, copy_stream(&self.ty));
        assert(tts_view(out@) =~= start + row_field_tokens(self@));
    }
}

pub open spec fn row_fields_view(s: Seq<RowField>) -> Seq<RowFieldModel> {
    s.map_values(|f: RowField| f@)
}

/// A row struct: attributes, a name and fields.
#[derive(Debug)]
pub struct Row {
    pub attrs: Vec<Attribute>,
    pub name: Ident,
    pub fields: Vec<RowField>,
}

/// The traits a row struct derives.
pub open spec fn row_derives(features: Features) -> Seq<Seq<TokenModel>> {
    seq![quote_tokens("::kosame::Row"@, Seq::empty()), quote_tokens("Debug"@, Seq::empty())]
        + if features.serde { seq![quote_tokens("::serde::Serialize"@, Seq::empty())] } else { Seq::empty() }
        + if features.serde_full { seq![quote_tokens("::serde::Deserialize"@, Seq::empty())] } else { Seq::empty() }
}

/// The fields, each followed by a comma.
pub open spec fn row_fields_tokens(s: Seq<RowFieldModel>) -> Seq<TokenModel>
    decreases s.len(),
{
    if s.len() == 0 {
        Seq::empty()
    } else {
        row_fields_tokens(s.drop_last()) + row_field_tokens(s.last()) + seq![punct_tok(',', Spacing::Alone)]
    }
}

/// `#[derive(...)] #[attrs] pub struct Name { fields, }`.
pub open spec fn row_tokens(name: IdentModel, attrs: Seq<AttributeModel>, fields: Seq<RowFieldModel>, features: Features) -> Seq<TokenModel> {
    quote_tokens(
        "#[derive($)] $ pub struct $ { $ }"@,
        seq![joined(row_derives(features)), attrs_tokens(attrs), seq![TokenModel::Ident(name)], row_fields_tokens(fields)],
    )
}

impl Row {
    pub fn new(attrs: Vec<Attribute>, name: Ident, fields: Vec<RowField>) -> (row: Row)
        ensures
            row.attrs == attrs,
            row.name == name,
            row.fields == fields,
    {
        Row { attrs, name, fields }
    }

    pub fn to_tokens(&self, out: &mut Vec<TokenTree>, features: Features)
        ensures
            tts_view(final(out)@) == tts_view(old(out)@) + row_tokens(
                self.name@,
                attrs_view(self.attrs@),
                row_fields_view(self.fields@),
                features,
            ),
    {
        let mut derives: Vec<Vec<TokenTree>> = Vec::new();
        derives.push(code("::kosame::Row"));
        derives.push(code("Debug"));
        if features.serde {
            derives.push(code("::serde::Serialize"));
        }
        if features.serde_full {
            derives.push(code("::serde::Deserialize"));
        }
        assert(args_view(derives@) =~= row_derives(features));
        let derives = join_parts(derives);
        let mut attrs: Vec<TokenTree> = Vec::new();
        assert(tts_view(attrs@) =~= Seq::<TokenModel>::empty());
        attrs_to_tokens(&self.attrs, &mut attrs);
        let ghost fs = row_fields_view(self.fields@);
        let mut fields: Vec<TokenTree> = Vec::new();
        assert(tts_view(fields@) =~= Seq::<TokenModel>::empty());
        let mut i: usize = 0;
        while i < self.fields.len()
            invariant
                i <= self.fields.len(),
                fs == row_fields_view(self.fields@),
                fs.len() == self.fields.len(),
                tts_view(fields@) == row_fields_tokens(fs.subrange(0, i as int)),
            decreases self.fields.len() - i,
        {
            self.fields[i].to_tokens(&mut fields);
            push_token(&mut fields, crate::emit::punct_token(',', Spacing::Alone));
            proof {
                assert(fs[i as int] == self.fields@[i as int]@);
                assert(fs.subrange(0, i + 1).drop_last() =~= fs.subrange(0, i as int));
                assert(tts_view(fields@) =~= row_fields_tokens(fs.subrange(0, i + 1)));
            }
            i += 1;
        }
        assert(fs.subrange(0, i as int) =~= fs);
        let mut args: Vec<Vec<TokenTree>> = Vec::new();
        let ghost parts = seq![tts_view(derives@), tts_view(attrs@), seq![TokenModel::Ident(self.name@)], tts_view(fields@)];
        args.push(derives);
        args.push(attrs);
        args.push(single(TokenTree::Ident(self.name.duplicate())));
        args.push(fields);
        assert(args_view(args@) =~= parts);
        quote_into(out, "#[derive($)] $ pub struct $ { $ }", &args);
    }
}

// ---------------------------------------------------------------------------
// The row field of a select list's field.
// ---------------------------------------------------------------------------

/// Why a field of a select list gives no row field.
#[derive(Clone, Copy, PartialEq, Eq, Structural, Debug)]
pub enum RowFieldErrorKind {
    /// Neither an alias nor the expression names the field.
    NameNotInferred,
    /// The field has no type override, and an expression alone gives no type.
    TypeOverrideRequired,
}

/// A field that gives no row field, with the spans that its expression
/// stretches between.
#[derive(Clone, Copy, PartialEq, Eq, Structural, Debug)]
pub struct RowFieldError {
    pub kind: RowFieldErrorKind,
    pub start: Span,
    pub end: Span,
}

impl Field {
    /// The Rust type of the field's column: the path of its type override.
    pub fn infer_type(&self) -> (ty: Option<&Path>)
        ensures
            match self.type_override {
                Some(t) => ty == Some(&t.type_path),
                None => ty is None,
            },
    {
        match &self.type_override {
            Some(t) => Some(&t.type_path),
            None => None,
        }
    }

    /// The field of a row struct that holds this field's column: named as the
    /// field infers its name, typed by its type at the call site. Fails, at
    /// the expression, where no name can be inferred or no type is given.
    pub fn to_row_field(&self) -> (res: Result<RowField, RowFieldError>)
        ensures
            match res {
                Ok(rf) => match (self.infer_name_spec(), self.type_override) {
                    (Some(name), Some(t)) => rf@ == (RowFieldModel {
                        attrs: attrs_view(self.attrs@),
                        name: name@,
                        ty: path_tokens(spec_to_call_site(t.type_path@, 1)),
                    }),
                    _ => false,
                },
                Err(e) => {
                    &&& (e.start, e.end) == expr_span_bounds(self.expr@)
                    &&& if self.infer_name_spec() is None {
                        e.kind == RowFieldErrorKind::NameNotInferred
                    } else {
                        self.type_override is None && e.kind == RowFieldErrorKind::TypeOverrideRequired
                    }
                },
            },
    {
        let name = match self.infer_name() {
            Some(n) => n,
            None => {
                let (start, end) = self.expr.span();
                return Err(RowFieldError { kind: RowFieldErrorKind::NameNotInferred, start, end });
            },
        };
        let ty = match self.infer_type() {
            Some(t) => t,
            None => {
                let (start, end) = self.expr.span();
                return Err(RowFieldError { kind: RowFieldErrorKind::TypeOverrideRequired, start, end });
            },
        };
        let mut toks: Vec<TokenTree> = Vec::new();
        assert(tts_view(toks@) =~= Seq::<TokenModel>::empty());
        ty.to_call_site(1).to_tokens(&mut toks);
        assert(tts_view(toks@) =~= path_tokens(spec_to_call_site(ty@, 1)));
        Ok(RowField::new(crate::common::copy_attrs(&self.attrs), name.duplicate(), toks))
    }
}

} // verus!

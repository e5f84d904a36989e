//! `*` in a query node: every column of the table, read into one field.

use vstd::prelude::*;
use crate::error::{Expected, ParseError, expected, expected_at};
use crate::token::{Span, TokenTree, IdentModel, tt_span, span_at, span_at_exec, punct_at, peek_punct, call_site, call_site_span};
use crate::expr::agrees;
use crate::common::{Attribute, AttributeModel, attrs_view, spec_parse_outer_attrs, copy_attrs};
use crate::path::Path;
use crate::emit::call_site_ident;
use crate::repr::code;
use crate::row::{Features, RowField, RowFieldModel};
use crate::query::node::{member, member_tokens, serde_flatten};

verus! {

/// `#[attrs] *`.
#[derive(Debug)]
pub struct Star {
    pub attrs: Vec<Attribute>,
    pub star: Span,
}

pub struct StarModel {
    pub attrs: Seq<AttributeModel>,
    pub star: Span,
}

impl View for Star {
    type V = StarModel;

    open spec fn view(&self) -> StarModel {
        StarModel { attrs: attrs_view(self.attrs@), star: self.star }
    }
}

/// Outer attributes, then `*`.
pub open spec fn spec_parse_star(toks: Seq<TokenTree>, end: Span, pos: int) -> Result<(StarModel, int), ParseError> {
    match spec_parse_outer_attrs(toks, end, pos) {
        Ok((attrs, p1)) =>
            if punct_at(toks, p1, '*') {
                Ok((StarModel { attrs, star: tt_span(toks[p1]) }, p1 + 1))
            } else {
                expected(Expected::Punct('*'), span_at(toks, p1, end))
            },
        Err(e) => Err(e),
    }
}

/// The field that holds all columns: the star's attributes, and with a serde
/// feature `#[serde(flatten)]`; named `_star`, of the table's `Select` type.
pub open spec fn star_record_field(star: StarModel, table: crate::path::PathModel, features: Features) -> RowFieldModel {
    RowFieldModel {
        attrs: star.attrs + if features.serde || features.serde_full { seq![serde_flatten()] } else { Seq::empty() },
        name: IdentModel { name: "_star"@, span: call_site() },
        ty: member_tokens(table, "Select"@),
    }
}

impl Star {
    pub fn parse(toks: &Vec<TokenTree>, end: Span, pos: usize) -> (res: Result<(Star, usize), ParseError>)
        requires
            pos <= toks.len(),
        ensures
            agrees(res, spec_parse_star(toks@, end, pos as int)),
    {
        let (attrs, p1) = match Attribute::parse_outer(toks, end, pos) {
            Ok(r) => r,
            Err(e) => return Err(e),
        };
        if p1 < toks.len() && peek_punct(toks, p1, '*') {
            Ok((Star { attrs, star: toks[p1].span() }, p1 + 1))
        } else {
            Err(expected_at(Expected::Punct('*'), span_at_exec(toks, p1, end)))
        }
    }

    /// The row struct field that holds every column of the table at
    /// `table_path`.
    pub fn to_record_struct_field(&self, table_path: &Path, features: Features) -> (field: RowField)
        ensures
            field@ == star_record_field(self@, table_path@, features),
    {
        let mut attrs = copy_attrs(&self.attrs);
        let ghost before = attrs_view(attrs@);
        if features.serde || features.serde_full {
            attrs.push(Attribute { pound: call_site_span(), bang: None, bracket: call_site_span(), tokens: code("serde(flatten)") });
            assert(attrs_view(attrs@) =~= before + seq![serde_flatten()]);
        } else {
            assert(attrs_view(attrs@) =~= before + Seq::<AttributeModel>::empty());
        }
        proof {
            reveal_strlit("_star");
        }
        RowField::new(attrs, call_site_ident("_star"), member(table_path, "Select"))
    }
}

} // verus!

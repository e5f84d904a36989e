//! The `#[kosame(...)]` attributes: which driver a macro targets, how a column
//! is renamed or typed, and the data that one pass of the macros hands to the
//! next.

use vstd::prelude::*;
use crate::error::{Keyword, Expected, ErrorKind, MetaArg, ParseError, err, expected, expected_at, error_at};
use crate::token::{
    call_site, call_site_span, Span, TokenTree, TokenModel, Ident, IdentModel, Delimiter, tts_view, copy_tokens, tt_span, span_at,
    span_at_exec, keyword_at, ident_at, punct_at, punct2_at, peek_keyword, peek_ident, peek_punct,
    peek_punct2, str_eq, lemma_same_value, lemma_same_token,
};
use crate::expr::{agrees, moved, ident_model_at, ident_at_exec, advanced, internal};
use crate::path::{Path, PathModel, AngleArgsModel, spec_parse_path, lemma_path_same_value};
use crate::token::{plain_toks, same_tokens};
use crate::common::{Attribute, AttributeModel, attrs_view};
use crate::outside::{syn_base10_u32, base10_u32, syn_lit_str_value, lit_str_value, syn_lit_kind, literal_kind, LitKind};

verus! {

/// Where an attribute list stands; each meta argument is allowed in some of
/// these places only.
#[derive(Clone, Copy, PartialEq, Eq, Structural, Debug)]
pub enum MetaLocation {
    TableInner,
    TableOuter,
    Column,
    QueryInner,
    QueryOuter,
    StatementInner,
    StatementOuter,
}

/// `driver = "name"`.
#[derive(Debug)]
pub struct MetaDriver {
    pub path: Span,
    pub eq: Span,
    pub value: String,
    pub value_span: Span,
}

/// `rename = ident`.
#[derive(Debug)]
pub struct MetaRename {
    pub path: Span,
    pub eq: Span,
    pub value: Ident,
}

/// `ty = path`.
#[derive(Debug)]
pub struct MetaTypeOverride {
    pub path: Span,
    pub eq: Span,
    pub value: Path,
}

/// `__pass = n`, the number of the macro pass.
#[derive(Debug)]
pub struct MetaPass {
    pub path: Span,
    pub eq: Span,
    pub minus: Option<Span>,
    pub repr: String,
    pub span: Span,
}

/// `__table(path = table)`, a table definition handed over by an earlier
/// pass; the definition is kept as tokens.
#[derive(Debug)]
pub struct MetaTable {
    pub path_token: Span,
    pub paren: Span,
    pub path: Path,
    pub eq: Span,
    pub value: Vec<TokenTree>,
}

#[derive(Debug)]
pub enum MetaItem {
    Driver(MetaDriver),
    Rename(MetaRename),
    TypeOverride(MetaTypeOverride),
    Pass(MetaPass),
    Table(MetaTable),
}

/// A table handed over by an earlier pass, under its path.
#[derive(Debug)]
pub struct TableEntry {
    pub path: Path,
    pub value: Vec<TokenTree>,
}

/// What the `#[kosame(...)]` attributes of one place say.
#[derive(Debug)]
pub struct CustomMeta {
    pub driver: Option<MetaDriver>,
    pub rename: Option<MetaRename>,
    pub type_override: Option<MetaTypeOverride>,
    pub pass: u32,
    pub tables: Vec<TableEntry>,
}

pub struct MetaDriverModel {
    pub path: Span,
    pub eq: Span,
    pub value: Seq<char>,
    pub value_span: Span,
}

pub struct MetaRenameModel {
    pub path: Span,
    pub eq: Span,
    pub value: IdentModel,
}

pub struct MetaTypeOverrideModel {
    pub path: Span,
    pub eq: Span,
    pub value: PathModel,
}

pub struct MetaPassModel {
    pub path: Span,
    pub eq: Span,
    pub minus: Option<Span>,
    pub repr: Seq<char>,
    pub span: Span,
}

pub struct MetaTableModel {
    pub path_token: Span,
    pub paren: Span,
    pub path: PathModel,
    pub eq: Span,
    pub value: Seq<TokenModel>,
}

pub enum MetaItemModel {
    Driver(MetaDriverModel),
    Rename(MetaRenameModel),
    TypeOverride(MetaTypeOverrideModel),
    Pass(MetaPassModel),
    Table(MetaTableModel),
}

pub struct TableEntryModel {
    pub path: PathModel,
    pub value: Seq<TokenModel>,
}

pub struct CustomMetaModel {
    pub driver: Option<MetaDriverModel>,
    pub rename: Option<MetaRenameModel>,
    pub type_override: Option<MetaTypeOverrideModel>,
    pub pass: u32,
    pub tables: Seq<TableEntryModel>,
}

impl View for MetaDriver {
    type V = MetaDriverModel;

    open spec fn view(&self) -> MetaDriverModel {
        MetaDriverModel { path: self.path, eq: self.eq, value: self.value@, value_span: self.value_span }
    }
}

impl View for MetaRename {
    type V = MetaRenameModel;

    open spec fn view(&self) -> MetaRenameModel {
        MetaRenameModel { path: self.path, eq: self.eq, value: self.value@ }
    }
}

impl View for MetaTypeOverride {
    type V = MetaTypeOverrideModel;

    open spec fn view(&self) -> MetaTypeOverrideModel {
        MetaTypeOverrideModel { path: self.path, eq: self.eq, value: self.value@ }
    }
}

impl View for MetaPass {
    type V = MetaPassModel;

    open spec fn view(&self) -> MetaPassModel {
        MetaPassModel { path: self.path, eq: self.eq, minus: self.minus, repr: self.repr@, span: self.span }
    }
}

impl View for MetaTable {
    type V = MetaTableModel;

    open spec fn view(&self) -> MetaTableModel {
        MetaTableModel {
            path_token: self.path_token,
            paren: self.paren,
            path: self.path@,
            eq: self.eq,
            value: tts_view(self.value@),
        }
    }
}

impl View for MetaItem {
    type V = MetaItemModel;

    open spec fn view(&self) -> MetaItemModel {
        match self {
            MetaItem::Driver(d) => MetaItemModel::Driver(d@),
            MetaItem::Rename(r) => MetaItemModel::Rename(r@),
            MetaItem::TypeOverride(t) => MetaItemModel::TypeOverride(t@),
            MetaItem::Pass(p) => MetaItemModel::Pass(p@),
            MetaItem::Table(t) => MetaItemModel::Table(t@),
        }
    }
}

impl View for TableEntry {
    type V = TableEntryModel;

    open spec fn view(&self) -> TableEntryModel {
        TableEntryModel { path: self.path@, value: tts_view(self.value@) }
    }
}

pub open spec fn opt_model<T: View>(o: Option<T>) -> Option<T::V> {
    match o {
        Some(v) => Some(v@),
        None => None,
    }
}

impl View for CustomMeta {
    type V = CustomMetaModel;

    open spec fn view(&self) -> CustomMetaModel {
        CustomMetaModel {
            driver: opt_model(self.driver),
            rename: opt_model(self.rename),
            type_override: opt_model(self.type_override),
            pass: self.pass,
            tables: self.tables@.map_values(|t: TableEntry| t@),
        }
    }
}

// ---------------------------------------------------------------------------
// Grammar of one meta argument.
// ---------------------------------------------------------------------------

/// The drivers that the macros know.
pub open spec fn known_driver(name: Seq<char>) -> bool {
    name == "postgres"@ || name == "tokio-postgres"@
}

/// `=` at `pos`.
pub open spec fn spec_parse_eq(toks: Seq<TokenTree>, end: Span, pos: int) -> Result<(Span, int), ParseError> {
    if punct_at(toks, pos, '=') {
        Ok((tt_span(toks[pos]), pos + 1))
    } else {
        expected(Expected::Punct('='), span_at(toks, pos, end))
    }
}

/// A literal's text, after a `-` where there is one.
pub open spec fn signed_text(negative: bool, repr: Seq<char>) -> Seq<char> {
    if negative { "-"@ + repr } else { repr }
}

/// The text of a literal token at `pos`, if there is one.
pub open spec fn literal_text_at(toks: Seq<TokenTree>, pos: int) -> Option<Seq<char>> {
    if 0 <= pos < toks.len() {
        match toks[pos] {
            TokenTree::Literal { repr, .. } => Some(repr@),
            _ => None,
        }
    } else {
        None
    }
}

pub open spec fn spec_parse_meta_item(toks: Seq<TokenTree>, end: Span, pos: int) -> Result<(MetaItemModel, int), ParseError> {
    if keyword_at(toks, pos, Keyword::Pass.spec_text()) {
        match spec_parse_eq(toks, end, pos + 1) {
            Ok((eq, p)) => {
                let minus = if punct_at(toks, p, '-') { Some(tt_span(toks[p])) } else { None };
                let l = if minus is Some { p + 1 } else { p };
                match literal_text_at(toks, l) {
                    Some(repr) =>
                        if syn_lit_kind(signed_text(minus is Some, repr)) == LitKind::Int {
                            Ok((MetaItemModel::Pass(MetaPassModel {
                                path: tt_span(toks[pos]), eq, minus, repr, span: tt_span(toks[l]),
                            }), l + 1))
                        } else {
                            expected(Expected::IntLiteral, span_at(toks, p, end))
                        },
                    None => expected(Expected::IntLiteral, span_at(toks, p, end)),
                }
            },
            Err(e) => Err(e),
        }
    } else if keyword_at(toks, pos, Keyword::TableMeta.spec_text()) {
        if !(0 <= pos + 1 < toks.len() && toks[pos + 1] matches TokenTree::Group { delimiter: Delimiter::Parenthesis, .. }) {
            expected(Expected::Parentheses, span_at(toks, pos + 1, end))
        } else {
            let inner = toks[pos + 1]->stream@;
            let paren = tt_span(toks[pos + 1]);
            match spec_parse_path(inner, paren, 0) {
                Ok((path, q)) => match spec_parse_eq(inner, paren, q) {
                    Ok((eq, r)) => Ok((MetaItemModel::Table(MetaTableModel {
                        path_token: tt_span(toks[pos]),
                        paren,
                        path,
                        eq,
                        value: tts_view(inner.subrange(r, inner.len() as int)),
                    }), pos + 2)),
                    Err(e) => Err(e),
                },
                Err(e) => Err(e),
            }
        }
    } else if keyword_at(toks, pos, Keyword::Driver.spec_text()) {
        match spec_parse_eq(toks, end, pos + 1) {
            Ok((eq, p)) => match literal_text_at(toks, p) {
                Some(repr) => match syn_lit_str_value(repr) {
                    Some(value) =>
                        if known_driver(value) {
                            Ok((MetaItemModel::Driver(MetaDriverModel {
                                path: tt_span(toks[pos]), eq, value, value_span: tt_span(toks[p]),
                            }), p + 1))
                        } else {
                            err(ErrorKind::UnknownDriver, tt_span(toks[p]))
                        },
                    None => expected(Expected::StrLiteral, tt_span(toks[p])),
                },
                None => expected(Expected::StrLiteral, span_at(toks, p, end)),
            },
            Err(e) => Err(e),
        }
    } else if keyword_at(toks, pos, Keyword::Rename.spec_text()) {
        match spec_parse_eq(toks, end, pos + 1) {
            Ok((eq, p)) =>
                if ident_at(toks, p) {
                    Ok((MetaItemModel::Rename(MetaRenameModel { path: tt_span(toks[pos]), eq, value: ident_model_at(toks, p) }), p + 1))
                } else {
                    expected(Expected::Identifier, span_at(toks, p, end))
                },
            Err(e) => Err(e),
        }
    } else if keyword_at(toks, pos, Keyword::Ty.spec_text()) {
        match spec_parse_eq(toks, end, pos + 1) {
            Ok((eq, p)) => match spec_parse_path(toks, end, p) {
                Ok((value, q)) => Ok((MetaItemModel::TypeOverride(MetaTypeOverrideModel { path: tt_span(toks[pos]), eq, value }), q)),
                Err(e) => Err(e),
            },
            Err(e) => Err(e),
        }
    } else {
        expected(Expected::MetaItem, span_at(toks, pos, end))
    }
}

/// Meta arguments separated by commas, a trailing comma allowed, up to the end
/// of the list.
pub open spec fn spec_parse_meta_items(toks: Seq<TokenTree>, end: Span, pos: int) -> Result<(Seq<MetaItemModel>, int), ParseError>
    decreases toks.len() - pos,
{
    if pos < 0 || pos > toks.len() {
        internal(end)
    } else if pos == toks.len() {
        Ok((Seq::empty(), pos))
    } else {
        match spec_parse_meta_item(toks, end, pos) {
            Ok((item, q)) =>
                if !advanced(toks, pos, q) {
                    internal(end)
                } else if q == toks.len() {
                    Ok((seq![item], q))
                } else if punct_at(toks, q, ',') {
                    match spec_parse_meta_items(toks, end, q + 1) {
                        Ok((rest, r)) => Ok((seq![item] + rest, r)),
                        Err(e) => Err(e),
                    }
                } else {
                    expected(Expected::Punct(','), tt_span(toks[q]))
                },
            Err(e) => Err(e),
        }
    }
}

// ---------------------------------------------------------------------------
// What the arguments do to the collected meta data.
// ---------------------------------------------------------------------------

pub open spec fn driver_allowed(location: MetaLocation) -> bool {
    location == MetaLocation::TableInner || location == MetaLocation::QueryInner
        || location == MetaLocation::StatementInner
}

/// Two table paths name the same table: the same leading `::`, and segments
/// of the same names and the same generic arguments, token for token.
pub open spec fn same_path(a: PathModel, b: PathModel) -> bool {
    &&& (a.leading_colon is Some) == (b.leading_colon is Some)
    &&& a.segments.len() == b.segments.len()
    &&& forall|i: int| 0 <= i < a.segments.len() ==> #[trigger] same_segment(a, b, i)
}

/// Two sets of generic arguments are the same: both absent, or both present
/// with the same leading `::` and tokens of the same text.
pub open spec fn same_args(a: Option<AngleArgsModel>, b: Option<AngleArgsModel>) -> bool {
    match (a, b) {
        (None, None) => true,
        (Some(x), Some(y)) => (x.turbofish is Some) == (y.turbofish is Some) && plain_toks(x.tokens) == plain_toks(y.tokens),
        _ => false,
    }
}

/// The segments at `i` of two paths have one name and the same generic
/// arguments.
pub open spec fn same_segment(a: PathModel, b: PathModel, i: int) -> bool {
    &&& a.segments[i].ident.name == b.segments[i].ident.name
    &&& same_args(a.segments[i].args, b.segments[i].args)
}

/// The index of the entry for `path`, from `i` on; -1 where there is none.
pub open spec fn table_index(tables: Seq<TableEntryModel>, path: PathModel, i: int) -> int
    decreases tables.len() - i,
{
    if i < 0 || i >= tables.len() {
        -1
    } else if same_path(tables[i].path, path) {
        i
    } else {
        table_index(tables, path, i + 1)
    }
}

/// A table under a path replaces the table of an entry for the same path,
/// which keeps its path; otherwise it is added at the end.
pub open spec fn insert_table(tables: Seq<TableEntryModel>, path: PathModel, value: Seq<TokenModel>) -> Seq<TableEntryModel> {
    let i = table_index(tables, path, 0);
    if i >= 0 {
        tables.update(i, TableEntryModel { path: tables[i].path, value })
    } else {
        tables.push(TableEntryModel { path, value })
    }
}

/// One argument applied to the meta data collected so far.
pub open spec fn apply_meta_item(m: CustomMetaModel, item: MetaItemModel, location: MetaLocation) -> Result<CustomMetaModel, ParseError> {
    match item {
        MetaItemModel::Driver(d) =>
            if m.driver is Some {
                err(ErrorKind::DuplicateMeta(MetaArg::Driver), d.path)
            } else if !driver_allowed(location) {
                err(ErrorKind::MetaNotAllowed(MetaArg::Driver), d.path)
            } else {
                Ok(CustomMetaModel { driver: Some(d), ..m })
            },
        MetaItemModel::Rename(r) =>
            if m.rename is Some {
                err(ErrorKind::DuplicateMeta(MetaArg::Rename), r.path)
            } else if location != MetaLocation::Column {
                err(ErrorKind::MetaNotAllowed(MetaArg::Rename), r.path)
            } else {
                Ok(CustomMetaModel { rename: Some(r), ..m })
            },
        MetaItemModel::TypeOverride(t) =>
            if m.type_override is Some {
                err(ErrorKind::DuplicateMeta(MetaArg::Ty), t.path)
            } else if location != MetaLocation::Column {
                err(ErrorKind::MetaNotAllowed(MetaArg::Ty), t.path)
            } else {
                Ok(CustomMetaModel { type_override: Some(t), ..m })
            },
        MetaItemModel::Pass(p) =>
            if p.minus is Some {
                err(ErrorKind::InvalidInteger, p.minus->Some_0)
            } else {
                match syn_base10_u32(p.repr) {
                    Some(v) => Ok(CustomMetaModel { pass: v, ..m }),
                    None => err(ErrorKind::IntegerTooLarge, p.span),
                }
            },
        MetaItemModel::Table(t) => Ok(CustomMetaModel { tables: insert_table(m.tables, t.path, t.value), ..m }),
    }
}

/// The arguments from `i` on, applied in order; the first refusal stops.
pub open spec fn apply_meta_items(m: CustomMetaModel, items: Seq<MetaItemModel>, location: MetaLocation, i: int) -> Result<CustomMetaModel, ParseError>
    decreases items.len() - i,
{
    if i < 0 || i >= items.len() {
        Ok(m)
    } else {
        match apply_meta_item(m, items[i], location) {
            Ok(m2) => apply_meta_items(m2, items, location, i + 1),
            Err(e) => Err(e),
        }
    }
}

/// The attribute's path is the single identifier `kosame`.
pub open spec fn kosame_attr(toks: Seq<TokenTree>) -> bool {
    toks.len() > 0 && (toks[0] matches TokenTree::Ident(i) && i.name@ == Keyword::Kosame.spec_text())
        && !punct2_at(toks, 1, ':', ':')
}

/// Where a `kosame` attribute is not a list `kosame(...)`.
pub open spec fn list_error_span(toks: Seq<TokenTree>) -> Span {
    if punct_at(toks, 1, '=') { tt_span(toks[1]) } else { tt_span(toks[0]) }
}

/// The report of a missing driver, where one is owed and none was given.
pub open spec fn missing_driver_report(m: CustomMetaModel, location: MetaLocation) -> Seq<ParseError> {
    if driver_allowed(location) && m.driver is None {
        seq![ParseError { kind: ErrorKind::MissingDriver, span: call_site() }]
    } else {
        Seq::empty()
    }
}

pub open spec fn meta_default() -> CustomMetaModel {
    CustomMetaModel { driver: None, rename: None, type_override: None, pass: 0, tables: Seq::empty() }
}

/// The attributes from `i` on, read into the meta data collected so far: the
/// arguments of each `kosame` list are read first, then applied in order.
pub open spec fn meta_from_attrs(attrs: Seq<Attribute>, location: MetaLocation, i: int, m: CustomMetaModel) -> Result<CustomMetaModel, ParseError>
    decreases attrs.len() - i,
{
    if i < 0 || i >= attrs.len() {
        Ok(m)
    } else {
        let toks = attrs[i].tokens@;
        if !kosame_attr(toks) {
            meta_from_attrs(attrs, location, i + 1, m)
        } else if !(toks.len() > 1 && toks[1] is Group) {
            err(ErrorKind::ExpectedList(attrs[i].bang is Some), list_error_span(toks))
        } else {
            match spec_parse_meta_items(toks[1]->stream@, tt_span(toks[1]), 0) {
                Ok((items, _)) => match apply_meta_items(m, items, location, 0) {
                    Ok(m2) => meta_from_attrs(attrs, location, i + 1, m2),
                    Err(e) => Err(e),
                },
                Err(e) => Err(e),
            }
        }
    }
}

// ---------------------------------------------------------------------------
// What the attributes say depends on their values only.
// ---------------------------------------------------------------------------

proof fn lemma_literal_text_same_value(a: Seq<TokenTree>, b: Seq<TokenTree>, pos: int)
    requires
        tts_view(a) == tts_view(b),
    ensures
        literal_text_at(a, pos) == literal_text_at(b, pos),
{
    lemma_same_value(a, b);
    if 0 <= pos < a.len() {
        lemma_same_token(a[pos], b[pos]);
    }
}

proof fn lemma_meta_item_same_value(a: Seq<TokenTree>, b: Seq<TokenTree>, end: Span, pos: int)
    requires
        tts_view(a) == tts_view(b),
    ensures
        spec_parse_meta_item(a, end, pos) == spec_parse_meta_item(b, end, pos),
{
    lemma_same_value(a, b);
    lemma_literal_text_same_value(a, b, pos + 2);
    lemma_literal_text_same_value(a, b, pos + 3);
    lemma_path_same_value(a, b, end, pos + 2);
    if 0 <= pos + 1 < a.len() {
        lemma_same_token(a[pos + 1], b[pos + 1]);
        if a[pos + 1] is Group {
            let ia = a[pos + 1]->stream@;
            let ib = b[pos + 1]->stream@;
            lemma_same_value(ia, ib);
            lemma_path_same_value(ia, ib, tt_span(a[pos + 1]), 0);
        }
    }
}

proof fn lemma_meta_items_same_value(a: Seq<TokenTree>, b: Seq<TokenTree>, end: Span, pos: int)
    requires
        tts_view(a) == tts_view(b),
    ensures
        spec_parse_meta_items(a, end, pos) == spec_parse_meta_items(b, end, pos),
    decreases a.len() - pos,
{
    lemma_same_value(a, b);
    if 0 <= pos < a.len() {
        lemma_meta_item_same_value(a, b, end, pos);
        if let Ok((_, q)) = spec_parse_meta_item(a, end, pos) {
            if advanced(a, pos, q) && q < a.len() && punct_at(a, q, ',') {
                lemma_meta_items_same_value(a, b, end, q + 1);
            }
        }
    }
}

proof fn lemma_meta_from_attrs_same_value(x: Seq<Attribute>, y: Seq<Attribute>, location: MetaLocation, i: int, m: CustomMetaModel)
    requires
        attrs_view(x) == attrs_view(y),
    ensures
        meta_from_attrs(x, location, i, m) == meta_from_attrs(y, location, i, m),
    decreases x.len() - i,
{
    assert(x.len() == attrs_view(x).len() && y.len() == attrs_view(y).len());
    if 0 <= i < x.len() {
        assert(attrs_view(x)[i] == x[i]@ && attrs_view(y)[i] == y[i]@);
        let a = x[i].tokens@;
        let b = y[i].tokens@;
        assert(tts_view(a) == tts_view(b));
        lemma_same_value(a, b);
        if a.len() > 0 {
            lemma_same_token(a[0], b[0]);
        }
        if a.len() > 1 {
            lemma_same_token(a[1], b[1]);
            if a[1] is Group {
                lemma_meta_items_same_value(a[1]->stream@, b[1]->stream@, tt_span(a[1]), 0);
            }
        }
        if let Ok((items, _)) = spec_parse_meta_items(a[1]->stream@, tt_span(a[1]), 0) {
            if let Ok(m2) = apply_meta_items(m, items, location, 0) {
                lemma_meta_from_attrs_same_value(x, y, location, i + 1, m2);
            }
        }
        lemma_meta_from_attrs_same_value(x, y, location, i + 1, m);
    }
}

/// What the `kosame` attributes among the given attribute values say at a
/// place.
pub open spec fn meta_of(attrs: Seq<AttributeModel>, location: MetaLocation) -> Result<CustomMetaModel, ParseError> {
    meta_from_attrs(choose|x: Seq<Attribute>| attrs_view(x) == attrs, location, 0, meta_default())
}

/// Reading the attributes depends on their values only.
pub proof fn lemma_meta_of(x: Seq<Attribute>, location: MetaLocation)
    ensures
        meta_of(attrs_view(x), location) == meta_from_attrs(x, location, 0, meta_default()),
{
    let y = choose|y: Seq<Attribute>| attrs_view(y) == attrs_view(x);
    lemma_meta_from_attrs_same_value(x, y, location, 0, meta_default());
}

/// The `kosame` attributes among `attrs`, from `i` on, in their order.
pub open spec fn kosame_attrs(attrs: Seq<Attribute>, i: int) -> Seq<Attribute>
    decreases attrs.len() - i,
{
    if i < 0 || i >= attrs.len() {
        Seq::empty()
    } else if kosame_attr(attrs[i].tokens@) {
        seq![attrs[i]] + kosame_attrs(attrs, i + 1)
    } else {
        kosame_attrs(attrs, i + 1)
    }
}

proof fn lemma_meta_from_attrs_shift(a: Attribute, rest: Seq<Attribute>, location: MetaLocation, j: int, m: CustomMetaModel)
    requires
        0 <= j,
    ensures
        meta_from_attrs(seq![a] + rest, location, j + 1, m) == meta_from_attrs(rest, location, j, m),
    decreases rest.len() - j,
{
    let s = seq![a] + rest;
    if j < rest.len() {
        assert(s[j + 1] == rest[j]);
        let toks = rest[j].tokens@;
        if kosame_attr(toks) && toks.len() > 1 && toks[1] is Group {
            if let Ok((items, _)) = spec_parse_meta_items(toks[1]->stream@, tt_span(toks[1]), 0) {
                if let Ok(m2) = apply_meta_items(m, items, location, 0) {
                    lemma_meta_from_attrs_shift(a, rest, location, j + 1, m2);
                }
            }
        }
        lemma_meta_from_attrs_shift(a, rest, location, j + 1, m);
    }
}

proof fn lemma_meta_from_kosame_attrs(attrs: Seq<Attribute>, location: MetaLocation, i: int, m: CustomMetaModel)
    requires
        0 <= i,
    ensures
        meta_from_attrs(attrs, location, i, m) == meta_from_attrs(kosame_attrs(attrs, i), location, 0, m),
    decreases attrs.len() - i,
{
    if i < attrs.len() {
        let toks = attrs[i].tokens@;
        let rest = kosame_attrs(attrs, i + 1);
        if kosame_attr(toks) {
            let s = seq![attrs[i]] + rest;
            assert(s[0] == attrs[i]);
            if toks.len() > 1 && toks[1] is Group {
                if let Ok((items, _)) = spec_parse_meta_items(toks[1]->stream@, tt_span(toks[1]), 0) {
                    if let Ok(m2) = apply_meta_items(m, items, location, 0) {
                        lemma_meta_from_kosame_attrs(attrs, location, i + 1, m2);
                        lemma_meta_from_attrs_shift(attrs[i], rest, location, 0, m2);
                    }
                }
            }
        } else {
            lemma_meta_from_kosame_attrs(attrs, location, i + 1, m);
        }
    }
}

/// Attributes other than `kosame(...)` are passed over: two attribute lists
/// whose `kosame` attributes are the same, in the same order, read the same
/// at every place, whatever else is added or removed around them.
pub proof fn lemma_other_attrs_passed_over(x: Seq<Attribute>, y: Seq<Attribute>, location: MetaLocation)
    requires
        attrs_view(kosame_attrs(x, 0)) == attrs_view(kosame_attrs(y, 0)),
    ensures
        meta_of(attrs_view(x), location) == meta_of(attrs_view(y), location),
{
    lemma_meta_of(x, location);
    lemma_meta_of(y, location);
    lemma_meta_of(kosame_attrs(x, 0), location);
    lemma_meta_of(kosame_attrs(y, 0), location);
    lemma_meta_from_kosame_attrs(x, location, 0, meta_default());
    lemma_meta_from_kosame_attrs(y, location, 0, meta_default());
}

// ---------------------------------------------------------------------------
// The parsers.
// ---------------------------------------------------------------------------

pub fn is_known_driver(name: &str) -> (known: bool)
    ensures
        known == known_driver(name@),
{
    str_eq(name, "postgres") || str_eq(name, "tokio-postgres")
}

fn parse_eq(toks: &Vec<TokenTree>, end: Span, pos: usize) -> (res: Result<(Span, usize), ParseError>)
    requires
        pos <= toks.len(),
    ensures
        match res {
            Ok((s, q)) => spec_parse_eq(toks@, end, pos as int) == Ok::<(Span, int), ParseError>((s, q as int)) && q == pos + 1,
            Err(e) => spec_parse_eq(toks@, end, pos as int) == Err::<(Span, int), ParseError>(e),
        },
{
    if peek_punct(toks, pos, '=') {
        Ok((toks[pos].span(), pos + 1))
    } else {
        Err(expected_at(Expected::Punct('='), span_at_exec(toks, pos, end)))
    }
}

/// The text of the literal token at `pos`, if there is one.
fn literal_text(toks: &Vec<TokenTree>, pos: usize) -> (text: Option<&String>)
    ensures
        match text {
            Some(t) => literal_text_at(toks@, pos as int) == Some(t@),
            None => literal_text_at(toks@, pos as int) is None,
        },
{
    if pos < toks.len() {
        match &toks[pos] {
            TokenTree::Literal { repr, .. } => Some(repr),
            _ => None,
        }
    } else {
        None
    }
}

impl MetaItem {
    pub fn parse(toks: &Vec<TokenTree>, end: Span, pos: usize) -> (res: Result<(MetaItem, usize), ParseError>)
        requires
            pos <= toks.len(),
        ensures
            agrees(res, spec_parse_meta_item(toks@, end, pos as int)),
            moved(res, toks@, pos as int),
    {
        if peek_keyword(toks, pos, Keyword::Pass.text()) {
            let (eq, p) = match parse_eq(toks, end, pos + 1) {
                Ok(x) => x,
                Err(e) => return Err(e),
            };
            let minus = if peek_punct(toks, p, '-') { Some(toks[p].span()) } else { None };
            let l = if minus.is_some() { p + 1 } else { p };
            match literal_text(toks, l) {
                Some(repr) => {
                    let mut text = if minus.is_some() { String::from_str("-") } else { String::new() };
                    text.append(repr.as_str());
                    assert(text@ =~= signed_text(minus is Some, repr@));
                    if literal_kind(text.as_str()) == LitKind::Int {
                        Ok((MetaItem::Pass(MetaPass {
                            path: toks[pos].span(),
                            eq,
                            minus,
                            repr: repr.clone(),
                            span: toks[l].span(),
                        }), l + 1))
                    } else {
                        Err(expected_at(Expected::IntLiteral, span_at_exec(toks, p, end)))
                    }
                },
                None => Err(expected_at(Expected::IntLiteral, span_at_exec(toks, p, end))),
            }
        } else if peek_keyword(toks, pos, Keyword::TableMeta.text()) {
            if pos + 1 < toks.len() {
                match &toks[pos + 1] {
                    TokenTree::Group { delimiter: Delimiter::Parenthesis, stream, span } => {
                        let paren = *span;
                        let (path, q) = match Path::parse(stream, paren, 0) {
                            Ok(x) => x,
                            Err(e) => return Err(e),
                        };
                        let (eq, r) = match parse_eq(stream, paren, q) {
                            Ok(x) => x,
                            Err(e) => return Err(e),
                        };
                        let value = copy_tokens(stream, r, stream.len());
                        return Ok((MetaItem::Table(MetaTable { path_token: toks[pos].span(), paren, path, eq, value }), pos + 2));
                    },
                    _ => {},
                }
            }
            Err(expected_at(Expected::Parentheses, span_at_exec(toks, pos + 1, end)))
        } else if peek_keyword(toks, pos, Keyword::Driver.text()) {
            let (eq, p) = match parse_eq(toks, end, pos + 1) {
                Ok(x) => x,
                Err(e) => return Err(e),
            };
            match literal_text(toks, p) {
                Some(repr) => match lit_str_value(repr.as_str()) {
                    Some(value) => {
                        if is_known_driver(value.as_str()) {
                            Ok((MetaItem::Driver(MetaDriver { path: toks[pos].span(), eq, value, value_span: toks[p].span() }), p + 1))
                        } else {
                            Err(error_at(ErrorKind::UnknownDriver, toks[p].span()))
                        }
                    },
                    None => Err(expected_at(Expected::StrLiteral, toks[p].span())),
                },
                None => Err(expected_at(Expected::StrLiteral, span_at_exec(toks, p, end))),
            }
        } else if peek_keyword(toks, pos, Keyword::Rename.text()) {
            let (eq, p) = match parse_eq(toks, end, pos + 1) {
                Ok(x) => x,
                Err(e) => return Err(e),
            };
            if peek_ident(toks, p) {
                Ok((MetaItem::Rename(MetaRename { path: toks[pos].span(), eq, value: ident_at_exec(toks, p) }), p + 1))
            } else {
                Err(expected_at(Expected::Identifier, span_at_exec(toks, p, end)))
            }
        } else if peek_keyword(toks, pos, Keyword::Ty.text()) {
            let (eq, p) = match parse_eq(toks, end, pos + 1) {
                Ok(x) => x,
                Err(e) => return Err(e),
            };
            match Path::parse(toks, end, p) {
                Ok((value, q)) => Ok((MetaItem::TypeOverride(MetaTypeOverride { path: toks[pos].span(), eq, value }), q)),
                Err(e) => Err(e),
            }
        } else {
            Err(expected_at(Expected::MetaItem, span_at_exec(toks, pos, end)))
        }
    }
}

fn parse_meta_items(toks: &Vec<TokenTree>, end: Span, pos: usize) -> (res: Result<(Vec<MetaItem>, usize), ParseError>)
    requires
        pos <= toks.len(),
    ensures
        match res {
            Ok((v, q)) => spec_parse_meta_items(toks@, end, pos as int)
                == Ok::<(Seq<MetaItemModel>, int), ParseError>((v@.map_values(|x: MetaItem| x@), q as int)),
            Err(e) => spec_parse_meta_items(toks@, end, pos as int) == Err::<(Seq<MetaItemModel>, int), ParseError>(e),
        },
    decreases toks.len() - pos,
{
    if pos == toks.len() {
        let v: Vec<MetaItem> = Vec::new();
        assert(v@.map_values(|x: MetaItem| x@) =~= Seq::<MetaItemModel>::empty());
        return Ok((v, pos));
    }
    let (item, q) = match MetaItem::parse(toks, end, pos) {
        Ok(x) => x,
        Err(e) => return Err(e),
    };
    if q == toks.len() {
        let ghost m = item@;
        let mut v: Vec<MetaItem> = Vec::new();
        v.push(item);
        assert(v@.map_values(|x: MetaItem| x@) =~= seq![m]);
        return Ok((v, q));
    }
    if !peek_punct(toks, q, ',') {
        return Err(expected_at(Expected::Punct(','), toks[q].span()));
    }
    let (mut rest, r) = match parse_meta_items(toks, end, q + 1) {
        Ok(x) => x,
        Err(e) => return Err(e),
    };
    let ghost m = item@;
    let ghost old_rest = rest@;
    rest.insert(0, item);
    assert(rest@.map_values(|x: MetaItem| x@) =~= seq![m] + old_rest.map_values(|x: MetaItem| x@));
    Ok((rest, r))
}

/// Whether two table paths name the same table.
pub fn paths_same(a: &Path, b: &Path) -> (same: bool)
    ensures
        same == same_path(a@, b@),
{
    assert(a@.segments.len() == a.segments.len() && b@.segments.len() == b.segments.len());
    if a.leading_colon.is_some() != b.leading_colon.is_some() || a.segments.len() != b.segments.len() {
        return false;
    }
    let mut i: usize = 0;
    while i < a.segments.len()
        invariant
            a.segments.len() == b.segments.len(),
            i <= a.segments.len(),
            a@.segments.len() == a.segments.len(),
            b@.segments.len() == b.segments.len(),
            (a.leading_colon is Some) == (b.leading_colon is Some),
            forall|k: int| 0 <= k < i ==> #[trigger] same_segment(a@, b@, k),
        decreases a.segments.len() - i,
    {
        let same_name = str_eq(a.segments[i].ident.name.as_str(), b.segments[i].ident.name.as_str());
        let args = match (&a.segments[i].args, &b.segments[i].args) {
            (None, None) => true,
            (Some(x), Some(y)) => x.turbofish.is_some() == y.turbofish.is_some() && same_tokens(&x.tokens, &y.tokens),
            _ => false,
        };
        proof {
            assert(a@.segments[i as int] == a.segments@[i as int]@);
            assert(b@.segments[i as int] == b.segments@[i as int]@);
            assert(same_name == (a@.segments[i as int].ident.name == b@.segments[i as int].ident.name));
            assert(args == same_args(a@.segments[i as int].args, b@.segments[i as int].args));
        }
        if !(same_name && args) {
            assert(!same_segment(a@, b@, i as int));
            return false;
        }
        assert(same_segment(a@, b@, i as int));
        i += 1;
    }
    true
}

impl CustomMeta {
    pub fn new() -> (meta: CustomMeta)
        ensures
            meta@ == meta_default(),
    {
        let tables: Vec<TableEntry> = Vec::new();
        let meta = CustomMeta { driver: None, rename: None, type_override: None, pass: 0, tables };
        assert(meta@.tables =~= Seq::<TableEntryModel>::empty());
        meta
    }

    fn insert_table(&mut self, path: Path, value: Vec<TokenTree>)
        ensures
            final(self)@ == (CustomMetaModel { tables: insert_table(old(self)@.tables, path@, tts_view(value@)), ..old(self)@ }),
    {
        let ghost ts = old(self)@.tables;
        let mut i: usize = 0;
        while i < self.tables.len()
            invariant
                self@ == old(self)@,
                ts == self@.tables,
                i <= self.tables.len(),
                table_index(ts, path@, 0) == table_index(ts, path@, i as int),
            decreases self.tables.len() - i,
        {
            if paths_same(&self.tables[i].path, &path) {
                let ghost old_path = ts[i as int].path;
                self.tables[i].value = value;
                assert(self@.tables =~= ts.update(i as int, TableEntryModel { path: old_path, value: tts_view(value@) }));
                return;
            }
            i += 1;
        }
        let ghost vm = tts_view(value@);
        self.tables.push(TableEntry { path, value });
        assert(self@.tables =~= ts.push(TableEntryModel { path: path@, value: vm }));
    }

    fn apply(&mut self, item: MetaItem, location: MetaLocation) -> (res: Result<(), ParseError>)
        ensures
            match res {
                Ok(()) => apply_meta_item(old(self)@, item@, location) == Ok::<CustomMetaModel, ParseError>(final(self)@),
                Err(e) => apply_meta_item(old(self)@, item@, location) == Err::<CustomMetaModel, ParseError>(e),
            },
    {
        match item {
            MetaItem::Driver(d) => {
                if self.driver.is_some() {
                    return Err(error_at(ErrorKind::DuplicateMeta(MetaArg::Driver), d.path));
                }
                if !(location == MetaLocation::TableInner || location == MetaLocation::QueryInner
                    || location == MetaLocation::StatementInner)
                {
                    return Err(error_at(ErrorKind::MetaNotAllowed(MetaArg::Driver), d.path));
                }
                self.driver = Some(d);
                Ok(())
            },
            MetaItem::Rename(r) => {
                if self.rename.is_some() {
                    return Err(error_at(ErrorKind::DuplicateMeta(MetaArg::Rename), r.path));
                }
                if location != MetaLocation::Column {
                    return Err(error_at(ErrorKind::MetaNotAllowed(MetaArg::Rename), r.path));
                }
                self.rename = Some(r);
                Ok(())
            },
            MetaItem::TypeOverride(t) => {
                if self.type_override.is_some() {
                    return Err(error_at(ErrorKind::DuplicateMeta(MetaArg::Ty), t.path));
                }
                if location != MetaLocation::Column {
                    return Err(error_at(ErrorKind::MetaNotAllowed(MetaArg::Ty), t.path));
                }
                self.type_override = Some(t);
                Ok(())
            },
            MetaItem::Pass(p) => {
                if let Some(m) = p.minus {
                    return Err(error_at(ErrorKind::InvalidInteger, m));
                }
                match base10_u32(p.repr.as_str()) {
                    Some(v) => {
                        self.pass = v;
                        Ok(())
                    },
                    None => Err(error_at(ErrorKind::IntegerTooLarge, p.span)),
                }
            },
            MetaItem::Table(t) => {
                self.insert_table(t.path, t.value);
                Ok(())
            },
        }
    }

    /// The arguments applied in order; the first refusal stops.
    fn apply_all(&mut self, items: Vec<MetaItem>, location: MetaLocation) -> (res: Result<(), ParseError>)
        ensures
            match res {
                Ok(()) => apply_meta_items(old(self)@, items@.map_values(|x: MetaItem| x@), location, 0)
                    == Ok::<CustomMetaModel, ParseError>(final(self)@),
                Err(e) => apply_meta_items(old(self)@, items@.map_values(|x: MetaItem| x@), location, 0)
                    == Err::<CustomMetaModel, ParseError>(e),
            },
    {
        let ghost start = self@;
        let ghost im = items@.map_values(|x: MetaItem| x@);
        assert(im =~= items@.map_values(|x: MetaItem| x@));
        let mut rest = items;
        let mut j: usize = 0;
        assert(im.len() == rest.len());
        while rest.len() > 0
            invariant
                im.len() == j + rest.len(),
                im.len() <= usize::MAX,
                start == old(self)@,
                im == items@.map_values(|x: MetaItem| x@),
                forall|k: int| 0 <= k < rest.len() ==> #[trigger] rest@[k]@ == im[j + k],
                apply_meta_items(start, im, location, 0) == apply_meta_items(self@, im, location, j as int),
            decreases rest.len(),
        {
            let item = rest.remove(0);
            assert(item@ == im[j as int]);
            let ghost before = self@;
            match self.apply(item, location) {
                Ok(()) => {},
                Err(e) => {
                    assert(apply_meta_items(before, im, location, j as int) == Err::<CustomMetaModel, ParseError>(e));
                    return Err(e);
                },
            }
            j += 1;
        }
        Ok(())
    }

    /// Reads the `#[kosame(...)]` attributes among `attrs` for the given
    /// place, as `parse_attrs` does, without the missing-driver report.
    pub(crate) fn read_attrs(attrs: &Vec<Attribute>, location: MetaLocation) -> (res: Result<CustomMeta, ParseError>)
        ensures
            match res {
                Ok(m) => meta_from_attrs(attrs@, location, 0, meta_default()) == Ok::<CustomMetaModel, ParseError>(m@),
                Err(e) => meta_from_attrs(attrs@, location, 0, meta_default()) == Err::<CustomMetaModel, ParseError>(e),
            },
    {
        let mut meta = CustomMeta::new();
        let mut i: usize = 0;
        while i < attrs.len()
            invariant
                i <= attrs.len(),
                meta_from_attrs(attrs@, location, 0, meta_default()) == meta_from_attrs(attrs@, location, i as int, meta@),
            decreases attrs.len() - i,
        {
            let toks = &attrs[i].tokens;
            let is_kosame = toks.len() > 0 && match &toks[0] {
                TokenTree::Ident(id) => str_eq(id.name.as_str(), Keyword::Kosame.text()),
                _ => false,
            } && !peek_punct2(toks, 1, ':', ':');
            assert(is_kosame == kosame_attr(toks@));
            if is_kosame {
                if toks.len() < 2 {
                    return Err(error_at(ErrorKind::ExpectedList(attrs[i].bang.is_some()), toks[0].span()));
                }
                match &toks[1] {
                    TokenTree::Group { stream, span, .. } => {
                        let (items, _) = match parse_meta_items(stream, *span, 0) {
                            Ok(x) => x,
                            Err(e) => return Err(e),
                        };
                        match meta.apply_all(items, location) {
                            Ok(()) => {},
                            Err(e) => return Err(e),
                        }
                    },
                    _ => {
                        let span = if peek_punct(toks, 1, '=') { toks[1].span() } else { toks[0].span() };
                        return Err(error_at(ErrorKind::ExpectedList(attrs[i].bang.is_some()), span));
                    },
                }
            }
            i += 1;
        }
        Ok(meta)
    }

    /// Reads the `#[kosame(...)]` attributes among `attrs` for the given
    /// place. Other attributes are passed over. A meta argument given twice,
    /// or where it is not allowed, is refused. Where the read succeeds at the
    /// inner attributes of a table, query or statement and names no driver,
    /// the missing driver is reported in `diagnostics`, at the call site,
    /// without failing the read.
    pub fn parse_attrs(attrs: &Vec<Attribute>, location: MetaLocation, diagnostics: &mut Vec<ParseError>) -> (res: Result<CustomMeta, ParseError>)
        ensures
            match res {
                Ok(m) => meta_from_attrs(attrs@, location, 0, meta_default()) == Ok::<CustomMetaModel, ParseError>(m@)
                    && final(diagnostics)@ == old(diagnostics)@ + missing_driver_report(m@, location),
                Err(e) => meta_from_attrs(attrs@, location, 0, meta_default()) == Err::<CustomMetaModel, ParseError>(e)
                    && final(diagnostics)@ == old(diagnostics)@,
            },
    {
        let res = CustomMeta::read_attrs(attrs, location);
        match &res {
            Ok(m) => {
                if m.driver_missing(location) {
                    diagnostics.push(ParseError { kind: ErrorKind::MissingDriver, span: call_site_span() });
                    assert(diagnostics@ =~= old(diagnostics)@ + missing_driver_report(m@, location));
                } else {
                    assert(diagnostics@ =~= old(diagnostics)@ + missing_driver_report(m@, location));
                }
            },
            Err(_) => {},
        }
        res
    }

    /// A driver is owed at the inner attributes of a table, query or
    /// statement; the macro reports its absence without stopping.
    pub fn driver_missing(&self, location: MetaLocation) -> (missing: bool)
        ensures
            missing == (driver_allowed(location) && self.driver is None),
    {
        (location == MetaLocation::TableInner || location == MetaLocation::QueryInner
            || location == MetaLocation::StatementInner) && self.driver.is_none()
    }
}

} // verus!

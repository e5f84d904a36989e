//! What a query node generates: its SQL `select`, and the row types and the
//! modules of the generated code.

use vstd::prelude::*;
use crate::token::{TokenTree, TokenModel, IdentModel, tts_view, call_site, call_site_span};
use crate::path::{Path, PathModel, PathSegment, SegmentModel, PathExt, path_tokens, spec_to_call_site};
use crate::emit::{colon2_at, ident_tok, ident_token, call_site_ident, push_colon2, push_token, push_all, quote_into, quote_tokens, args_view};
use crate::sql::{SlottedSqlBuilder, SqlPartModel, sql_text, sql_slot};
use crate::query::{Query, QueryModel, QueryNode, QueryNodeModel, QueryField, QueryFieldModel, lemma_query_fields_view, query_field_view};
use crate::query::bind_params::{BindParamsBuilder, add_params, params_lifetime, bind_params_tokens, closure_tokens};
use crate::query::node_path::{QueryNodePath, plain_segment, call_site_segment, struct_name, module_name};
use crate::token::{Ident, copy_stream};
use crate::common::{Attribute, AttributeModel, attrs_view};
use crate::row::{Features, Row, RowField, RowFieldModel, row_tokens, row_fields_view};
use crate::repr::{args1, args2, args3, single, code, code_with};

verus! {

/// `path::name` at the call site.
pub open spec fn member_tokens(p: PathModel, name: Seq<char>) -> Seq<TokenModel> {
    path_tokens(p) + colon2_at(call_site()) + seq![ident_tok(name)]
}

/// The path of a relation of a table: `table::relations::name`.
pub open spec fn relation_path(table: PathModel, name: IdentModel) -> PathModel {
    PathModel {
        leading_colon: table.leading_colon,
        segments: table.segments + seq![plain_segment("relations"@), SegmentModel { ident: name, args: None }],
    }
}

/// The table that a relation leads to: `relation::target_table`.
pub open spec fn target_table(relation: PathModel) -> PathModel {
    PathModel { leading_colon: relation.leading_colon, segments: relation.segments.push(plain_segment("target_table"@)) }
}

pub open spec fn join_model(j: Option<&Path>) -> Option<PathModel> {
    match j {
        Some(p) => Some(p@),
        None => None,
    }
}

/// The SQL `select` of a node whose table is `table` and which lies at
/// `node_path` below the root: the node's columns, each relation as a
/// parenthesized sub-select, and below the root each row aggregated into an
/// array; a relation's sub-select is tied to the row by the relation's join
/// condition.
pub open spec fn sql_select(node: QueryNodeModel, table: PathModel, node_path: Seq<IdentModel>, join: Option<PathModel>) -> Seq<SqlPartModel>
    decreases node, node.fields.len() + 1,
{
    let t = spec_to_call_site(table, 1);
    let nested = node_path.len() > 0;
    let head = sql_text("select "@) + if nested { sql_text("array_agg(row("@) } else { Seq::empty() };
    let star = if node.star is Some {
        sql_text("row("@) + sql_slot(member_tokens(t, "ALL_FIELDS"@)) + sql_text(")"@)
            + if node.fields.len() > 0 { sql_text(", "@) } else { Seq::empty() }
    } else {
        Seq::empty()
    };
    let close = if nested { sql_text("))"@) } else { Seq::empty() };
    let from = sql_text(" from "@) + sql_slot(member_tokens(t, "NAME"@));
    let condition = match join {
        Some(j) => sql_text(" where "@) + sql_slot(member_tokens(spec_to_call_site(j, 1), "JOIN_CONDITION"@)),
        None => Seq::empty(),
    };
    head + star + sql_fields(node, table, node_path, 0) + close + from + condition
}

/// The fields of a node from the `i`-th on, separated by commas.
pub open spec fn sql_fields(node: QueryNodeModel, table: PathModel, node_path: Seq<IdentModel>, i: int) -> Seq<SqlPartModel>
    decreases node, node.fields.len() - i,
{
    if i < 0 || i >= node.fields.len() {
        Seq::empty()
    } else {
        let sep = if i != node.fields.len() - 1 { sql_text(", "@) } else { Seq::empty() };
        let part = match node.fields[i] {
            QueryFieldModel::Column { name, .. } => sql_text(name.name),
            QueryFieldModel::Relation { name, node: child, .. } => {
                proof {
                    assert(decreases_to!(node => node.fields[i]));
                }
                let rel = relation_path(table, name);
                sql_text("("@) + sql_select(child, target_table(rel), node_path.push(name), Some(rel)) + sql_text(")"@)
            },
        };
        part + sep + sql_fields(node, table, node_path, i + 1)
    }
}

// ---------------------------------------------------------------------------
// Law: the select list is its items joined by commas.
// ---------------------------------------------------------------------------

/// Items joined by `", "`: the first, then a comma and the next, and so on.
pub open spec fn comma_joined(items: Seq<Seq<SqlPartModel>>) -> Seq<SqlPartModel>
    decreases items.len(),
{
    if items.len() == 0 {
        Seq::empty()
    } else if items.len() == 1 {
        items[0]
    } else {
        items[0] + sql_text(", "@) + comma_joined(items.drop_first())
    }
}

/// The item of the `i`-th field of a node: a column's name, or a relation's
/// sub-select in parentheses.
pub open spec fn field_item(node: QueryNodeModel, table: PathModel, node_path: Seq<IdentModel>, i: int) -> Seq<SqlPartModel> {
    match node.fields[i] {
        QueryFieldModel::Column { name, .. } => sql_text(name.name),
        QueryFieldModel::Relation { name, node: child, .. } => {
            let rel = relation_path(table, name);
            sql_text("("@) + sql_select(child, target_table(rel), node_path.push(name), Some(rel)) + sql_text(")"@)
        },
    }
}

/// What a node selects, in order: `row(ALL_FIELDS)` for a `*`, then an item
/// per field.
pub open spec fn select_items(node: QueryNodeModel, table: PathModel, node_path: Seq<IdentModel>) -> Seq<Seq<SqlPartModel>> {
    let t = spec_to_call_site(table, 1);
    let star: Seq<Seq<SqlPartModel>> = if node.star is Some {
        seq![sql_text("row("@) + sql_slot(member_tokens(t, "ALL_FIELDS"@)) + sql_text(")"@)]
    } else {
        Seq::empty()
    };
    star + Seq::new(node.fields.len(), |i: int| field_item(node, table, node_path, i))
}

proof fn lemma_sql_fields_joined(node: QueryNodeModel, table: PathModel, node_path: Seq<IdentModel>, i: int)
    requires
        0 <= i <= node.fields.len(),
    ensures
        sql_fields(node, table, node_path, i)
            == comma_joined(Seq::new(node.fields.len(), |k: int| field_item(node, table, node_path, k)).subrange(i, node.fields.len() as int)),
    decreases node.fields.len() - i,
{
    let all = Seq::new(node.fields.len(), |k: int| field_item(node, table, node_path, k));
    let rest = all.subrange(i, node.fields.len() as int);
    if i < node.fields.len() {
        lemma_sql_fields_joined(node, table, node_path, i + 1);
        assert(rest[0] == field_item(node, table, node_path, i));
        assert(rest.drop_first() =~= all.subrange(i + 1, node.fields.len() as int));
        if i == node.fields.len() - 1 {
            assert(all.subrange(i + 1, node.fields.len() as int) =~= Seq::<Seq<SqlPartModel>>::empty());
            assert(sql_fields(node, table, node_path, i) =~= field_item(node, table, node_path, i));
        } else {
            assert(sql_fields(node, table, node_path, i) =~= rest[0] + sql_text(", "@) + comma_joined(rest.drop_first()));
        }
    } else {
        assert(rest =~= Seq::<Seq<SqlPartModel>>::empty());
    }
}

/// The SQL of a node selects its items (a `*` first, then each field) joined
/// by `", "`, aggregated into an array below the root, from the node's table,
/// tied by the join condition where there is one.
pub proof fn lemma_select_list_joined(node: QueryNodeModel, table: PathModel, node_path: Seq<IdentModel>, join: Option<PathModel>)
    ensures
        ({
            let t = spec_to_call_site(table, 1);
            let nested = node_path.len() > 0;
            sql_select(node, table, node_path, join) ==
                sql_text("select "@)
                + (if nested { sql_text("array_agg(row("@) } else { Seq::empty() })
                + comma_joined(select_items(node, table, node_path))
                + (if nested { sql_text("))"@) } else { Seq::empty() })
                + sql_text(" from "@) + sql_slot(member_tokens(t, "NAME"@))
                + match join {
                    Some(j) => sql_text(" where "@) + sql_slot(member_tokens(spec_to_call_site(j, 1), "JOIN_CONDITION"@)),
                    None => Seq::empty(),
                }
        }),
{
    let t = spec_to_call_site(table, 1);
    let fields = Seq::new(node.fields.len(), |k: int| field_item(node, table, node_path, k));
    lemma_sql_fields_joined(node, table, node_path, 0);
    assert(fields.subrange(0, node.fields.len() as int) =~= fields);
    let items = select_items(node, table, node_path);
    if node.star is Some {
        let star = sql_text("row("@) + sql_slot(member_tokens(t, "ALL_FIELDS"@)) + sql_text(")"@);
        assert(items =~= seq![star] + fields);
        if node.fields.len() > 0 {
            assert(items[0] == star);
            assert(items.drop_first() =~= fields);
            assert(comma_joined(items) == star + sql_text(", "@) + comma_joined(fields));
        } else {
            assert(items =~= seq![star]);
            assert(fields =~= Seq::<Seq<SqlPartModel>>::empty());
        }
    } else {
        assert(items =~= fields);
    }
    let nested = node_path.len() > 0;
    let head = sql_text("select "@) + if nested { sql_text("array_agg(row("@) } else { Seq::empty() };
    let staru = if node.star is Some {
        sql_text("row("@) + sql_slot(member_tokens(t, "ALL_FIELDS"@)) + sql_text(")"@)
            + if node.fields.len() > 0 { sql_text(", "@) } else { Seq::empty() }
    } else {
        Seq::empty()
    };
    assert(staru + sql_fields(node, table, node_path, 0) =~= comma_joined(items));
}

/// `path::name` as tokens.
pub(crate) fn member(p: &Path, name: &str) -> (toks: Vec<TokenTree>)
    ensures
        tts_view(toks@) == member_tokens(p@, name@),
{
    let mut toks: Vec<TokenTree> = Vec::new();
    assert(tts_view(toks@) =~= Seq::<TokenModel>::empty());
    p.to_tokens(&mut toks);
    push_colon2(&mut toks, call_site_span());
    push_token(&mut toks, ident_token(name));
    assert(tts_view(toks@) =~= member_tokens(p@, name@));
    toks
}

impl QueryNode {
    /// Appends the node's SQL `select` to the builder.
    #[verifier::rlimit(50)]
    #[verifier::spinoff_prover]
    pub fn to_sql_select(&self, builder: &mut SlottedSqlBuilder, table_path: &Path, node_path: QueryNodePath, join_condition: Option<&Path>)
        ensures
            final(builder)@ == old(builder)@ + sql_select(self@, table_path@, node_path@, join_model(join_condition)),
        decreases self, self@.fields.len() + 1,
    {
        let ghost start = builder@;
        let ghost m = self@;
        let ghost t = spec_to_call_site(table_path@, 1);
        let table_call_site = table_path.to_call_site(1);
        let nested = node_path.segments.len() > 0;
        assert(nested == (node_path@.len() > 0));
        builder.append_str("select ");
        if nested {
            builder.append_str("array_agg(row(");
        }
        let ghost head = sql_text("select "@) + if nested { sql_text("array_agg(row("@) } else { Seq::empty() };
        assert(builder@ =~= start + head);
        proof {
            lemma_query_fields_view(self.fields@);
        }
        if self.star.is_some() {
            builder.append_str("row(");
            builder.append_slot(member(&table_call_site, "ALL_FIELDS"));
            builder.append_str(")");
            if self.fields.len() > 0 {
                builder.append_str(", ");
            }
        }
        let ghost star = if m.star is Some {
            sql_text("row("@) + sql_slot(member_tokens(t, "ALL_FIELDS"@)) + sql_text(")"@)
                + if m.fields.len() > 0 { sql_text(", "@) } else { Seq::empty() }
        } else {
            Seq::empty()
        };
        assert(builder@ =~= start + head + star);
        self.fields_to_sql(builder, table_path, &node_path, 0);
        let ghost fields = sql_fields(m, table_path@, node_path@, 0);
        if nested {
            builder.append_str("))");
        }
        let ghost close = if nested { sql_text("))"@) } else { Seq::empty() };
        assert(builder@ =~= start + head + star + fields + close);
        builder.append_str(" from ");
        builder.append_slot(member(&table_call_site, "NAME"));
        let ghost from = sql_text(" from "@) + sql_slot(member_tokens(t, "NAME"@));
        assert(builder@ =~= start + head + star + fields + close + from);
        match join_condition {
            Some(j) => {
                builder.append_str(" where ");
                let j_call_site = j.to_call_site(1);
                builder.append_slot(member(&j_call_site, "JOIN_CONDITION"));
            },
            None => {},
        }
        let ghost condition = match join_model(join_condition) {
            Some(j) => sql_text(" where "@) + sql_slot(member_tokens(spec_to_call_site(j, 1), "JOIN_CONDITION"@)),
            None => Seq::empty(),
        };
        assert(builder@ =~= start + head + star + fields + close + from + condition);
        assert(sql_select(m, table_path@, node_path@, join_model(join_condition)) == head + star + fields + close + from + condition);
    }

    /// Appends the SQL of the fields from the `i`-th on.
    fn fields_to_sql(&self, builder: &mut SlottedSqlBuilder, table_path: &Path, node_path: &QueryNodePath, i: usize)
        requires
            i <= self.fields.len(),
        ensures
            final(builder)@ == old(builder)@ + sql_fields(self@, table_path@, node_path@, i as int),
        decreases self, self@.fields.len() - i,
    {
        proof {
            lemma_query_fields_view(self.fields@);
        }
        if i >= self.fields.len() {
            assert(old(builder)@ + sql_fields(self@, table_path@, node_path@, i as int) =~= old(builder)@);
            return;
        }
        let ghost start = builder@;
        let ghost f = self@.fields[i as int];
        assert(f == query_field_view(self.fields@[i as int]));
        match &self.fields[i] {
            QueryField::Column { name, .. } => {
                builder.append_str(name.name.as_str());
            },
            QueryField::Relation { name, node, .. } => {
                proof {
                    assert(decreases_to!(*self => self.fields));
                    assert(decreases_to!(self.fields => self.fields@[i as int]));
                }
                let mut relation = table_path.duplicate();
                relation.segments.push(call_site_segment("relations"));
                relation.segments.push(PathSegment { ident: name.duplicate(), args: None });
                let ghost rel = relation_path(table_path@, name@);
                assert(relation@.segments =~= rel.segments);
                let mut target = relation.duplicate();
                target.segments.push(call_site_segment("target_table"));
                assert(target@.segments =~= target_table(rel).segments);
                let child_path = node_path.duplicate().appended(name.duplicate());
                builder.append_str("(");
                node.to_sql_select(builder, &target, child_path, Some(&relation));
                builder.append_str(")");
            },
        }
        if i != self.fields.len() - 1 {
            builder.append_str(", ");
        }
        self.fields_to_sql(builder, table_path, node_path, i + 1);
        assert(builder@ =~= start + sql_fields(self@, table_path@, node_path@, i as int));
    }
}

// ---------------------------------------------------------------------------
// Row structs and autocompletion modules.
// ---------------------------------------------------------------------------

/// Runs of tokens one after the other.
pub open spec fn concat(parts: Seq<Seq<TokenModel>>) -> Seq<TokenModel>
    decreases parts.len(),
{
    if parts.len() == 0 {
        Seq::empty()
    } else {
        concat(parts.drop_last()) + parts.last()
    }
}

/// `#[serde(flatten)]` at the call site.
pub open spec fn serde_flatten() -> AttributeModel {
    AttributeModel { pound: call_site(), bang: None, bracket: call_site(), tokens: quote_tokens("serde(flatten)"@, Seq::empty()) }
}

/// The field that holds all columns of a node with `*`.
pub open spec fn star_row_field(t: PathModel, features: Features) -> RowFieldModel {
    RowFieldModel {
        attrs: if features.serde || features.serde_full { seq![serde_flatten()] } else { Seq::empty() },
        name: IdentModel { name: "_star"@, span: call_site() },
        ty: member_tokens(t, "Select"@),
    }
}

/// The row struct field of a query field: a column's type comes from the
/// table's column module, a relation's from its relation module around the
/// row struct of its node.
pub open spec fn node_row_field(f: QueryFieldModel, t: PathModel, node_path: Seq<IdentModel>) -> RowFieldModel {
    match f {
        QueryFieldModel::Column { attrs, name, .. } => RowFieldModel {
            attrs,
            name,
            ty: quote_tokens("$::columns::$::Type"@, seq![path_tokens(t), seq![TokenModel::Ident(name)]]),
        },
        QueryFieldModel::Relation { attrs, name, .. } => RowFieldModel {
            attrs,
            name,
            ty: quote_tokens(
                "$::relations::$::Relation<$>"@,
                seq![
                    path_tokens(t),
                    seq![TokenModel::Ident(name)],
                    seq![TokenModel::Ident(IdentModel { name: struct_name("Row"@, node_path.push(name)), span: call_site() })],
                ],
            ),
        },
    }
}

pub open spec fn fields_row_fields(fields: Seq<QueryFieldModel>, t: PathModel, node_path: Seq<IdentModel>) -> Seq<RowFieldModel>
    decreases fields.len(),
{
    if fields.len() == 0 {
        Seq::empty()
    } else {
        fields_row_fields(fields.drop_last(), t, node_path).push(node_row_field(fields.last(), t, node_path))
    }
}

/// The fields of a node's row struct: `_star` first where the node has `*`,
/// then one per field.
pub open spec fn node_row_fields(node: QueryNodeModel, table: PathModel, node_path: Seq<IdentModel>, features: Features) -> Seq<RowFieldModel> {
    let t = spec_to_call_site(table, 1);
    let star = if node.star is Some { seq![star_row_field(t, features)] } else { Seq::empty() };
    star + fields_row_fields(node.fields, t, node_path)
}

/// `mod name { use table::columns_and_relations::field; ... }`, which lets an
/// editor complete the names of a node's fields.
pub open spec fn autocomplete_tokens(module: IdentModel, node: QueryNodeModel, table: PathModel) -> Seq<TokenModel> {
    quote_tokens(
        "mod $ { $ }"@,
        seq![seq![TokenModel::Ident(module)], autocomplete_uses(node.fields, path_tokens(spec_to_call_site(table, 2)))],
    )
}

/// `use table::columns_and_relations::field;` for each field.
pub open spec fn autocomplete_uses(fields: Seq<QueryFieldModel>, t: Seq<TokenModel>) -> Seq<TokenModel>
    decreases fields.len(),
{
    if fields.len() == 0 {
        Seq::empty()
    } else {
        autocomplete_uses(fields.drop_last(), t)
            + quote_tokens("use $::columns_and_relations::$;"@, seq![t, seq![TokenModel::Ident(field_name_of(fields.last()))]])
    }
}

pub open spec fn field_name_of(f: QueryFieldModel) -> IdentModel {
    crate::query::field_name(f)
}

/// What a node generates: its autocompletion module, its row struct, then the
/// same for the node of each relation, in order.
pub open spec fn node_tokens(node: QueryNodeModel, attrs: Seq<AttributeModel>, table: PathModel, node_path: Seq<IdentModel>, features: Features) -> Seq<TokenModel>
    decreases node, node.fields.len() + 1,
{
    autocomplete_tokens(IdentModel { name: module_name("autocomplete_row"@, node_path), span: call_site() }, node, table)
        + row_tokens(
            IdentModel { name: struct_name("Row"@, node_path), span: call_site() },
            attrs,
            node_row_fields(node, table, node_path, features),
            features,
        )
        + children_tokens(node, attrs, table, node_path, features, 0)
}

pub open spec fn children_tokens(node: QueryNodeModel, attrs: Seq<AttributeModel>, table: PathModel, node_path: Seq<IdentModel>, features: Features, i: int) -> Seq<TokenModel>
    decreases node, node.fields.len() - i,
{
    if i < 0 || i >= node.fields.len() {
        Seq::empty()
    } else {
        let here = match node.fields[i] {
            QueryFieldModel::Relation { name, node: child, .. } => {
                proof {
                    assert(decreases_to!(node => node.fields[i]));
                }
                node_tokens(child, attrs, target_table(relation_path(table, name)), node_path.push(name), features)
            },
            _ => Seq::empty(),
        };
        here + children_tokens(node, attrs, table, node_path, features, i + 1)
    }
}

/// `table::member` with the table's tokens given.
fn member_of(table: &Vec<TokenTree>, template: &str, name: &Ident) -> (toks: Vec<TokenTree>)
    ensures
        tts_view(toks@) == quote_tokens(template@, seq![tts_view(table@), seq![TokenModel::Ident(name@)]]),
{
    code_with(template, args2(copy_stream(table), single(TokenTree::Ident(name.duplicate()))))
}

impl QueryNode {
    /// The autocompletion module of the node.
    pub fn to_autocomplete_module(&self, module_name: &Ident, table_path: &Path) -> (toks: Vec<TokenTree>)
        ensures
            tts_view(toks@) == autocomplete_tokens(module_name@, self@, table_path@),
    {
        let mut t: Vec<TokenTree> = Vec::new();
        assert(tts_view(t@) =~= Seq::<TokenModel>::empty());
        table_path.to_call_site(2).to_tokens(&mut t);
        assert(tts_view(t@) =~= path_tokens(spec_to_call_site(table_path@, 2)));
        let ghost fs = self@.fields;
        proof {
            lemma_query_fields_view(self.fields@);
        }
        let mut rows: Vec<TokenTree> = Vec::new();
        assert(tts_view(rows@) =~= Seq::<TokenModel>::empty());
        let mut i: usize = 0;
        while i < self.fields.len()
            invariant
                i <= self.fields.len(),
                fs == self@.fields,
                fs.len() == self.fields.len(),
                forall|k: int| 0 <= k < self.fields.len() ==> #[trigger] fs[k] == query_field_view(self.fields@[k]),
                tts_view(rows@) == autocomplete_uses(fs.subrange(0, i as int), tts_view(t@)),
            decreases self.fields.len() - i,
        {
            let part = member_of(&t, "use $::columns_and_relations::$;", self.fields[i].name());
            push_all(&mut rows, part);
            proof {
                let sub = fs.subrange(0, i + 1);
                assert(sub.drop_last() =~= fs.subrange(0, i as int));
                assert(sub.last() == fs[i as int]);
                assert(tts_view(rows@) =~= autocomplete_uses(sub, tts_view(t@)));
            }
            i += 1;
        }
        assert(fs.subrange(0, i as int) =~= fs);
        let module = code_with("mod $ { $ }", args2(single(TokenTree::Ident(module_name.duplicate())), rows));
        module
    }
}

/// The row struct field of a query field, for a table whose path at the call
/// site is `table` (and whose tokens are `t`).
fn row_field_of(f: &QueryField, table: &Path, t: &Vec<TokenTree>, node_path: &QueryNodePath) -> (rf: RowField)
    requires
        tts_view(t@) == path_tokens(table@),
    ensures
        rf@ == node_row_field(f@, table@, node_path@),
{
    match f {
        QueryField::Column { attrs, name, .. } => {
            let ty = member_of(t, "$::columns::$::Type", name);
            RowField::new(crate::common::copy_attrs(attrs), name.duplicate(), ty)
        },
        QueryField::Relation { attrs, name, .. } => {
            let inner = node_path.duplicate().appended(name.duplicate()).to_struct_name("Row");
            let ty = code_with(
                "$::relations::$::Relation<$>",
                args3(copy_stream(t), single(TokenTree::Ident(name.duplicate())), single(TokenTree::Ident(inner))),
            );
            RowField::new(crate::common::copy_attrs(attrs), name.duplicate(), ty)
        },
    }
}

/// The row struct field that a query field declares on its own: named by its
/// alias where it has one. A column's type is its type override at the call
/// site, else the column's type in the table's column module; a relation's
/// type is the relation's `Type` around the row struct of its node.
pub open spec fn field_row_struct_field(f: QueryFieldModel, table: PathModel, node_path: Seq<IdentModel>) -> RowFieldModel {
    match f {
        QueryFieldModel::Column { attrs, name, type_override, .. } => RowFieldModel {
            attrs,
            name: crate::query::field_alias_or_name(f),
            ty: match type_override {
                Some(t) => path_tokens(spec_to_call_site(t.type_path, 1)),
                None => quote_tokens("$::columns::$::Type"@, seq![path_tokens(table), seq![TokenModel::Ident(name)]]),
            },
        },
        QueryFieldModel::Relation { attrs, name, .. } => RowFieldModel {
            attrs,
            name: crate::query::field_alias_or_name(f),
            ty: quote_tokens(
                "$::relations::$::Type<$>"@,
                seq![
                    path_tokens(table),
                    seq![TokenModel::Ident(name)],
                    seq![TokenModel::Ident(IdentModel { name: struct_name("Row"@, node_path.push(name)), span: call_site() })],
                ],
            ),
        },
    }
}

impl QueryField {
    /// The row struct field of this field, for a table at `table_path` and a
    /// node at `node_path`.
    pub fn to_row_struct_field(&self, table_path: &Path, node_path: &QueryNodePath) -> (rf: RowField)
        ensures
            rf@ == field_row_struct_field(self@, table_path@, node_path@),
    {
        let mut t: Vec<TokenTree> = Vec::new();
        assert(tts_view(t@) =~= Seq::<TokenModel>::empty());
        table_path.to_tokens(&mut t);
        assert(tts_view(t@) =~= path_tokens(table_path@));
        match self {
            QueryField::Column { attrs, name, alias, type_override } => {
                let field_name = match alias {
                    Some(a) => a.ident.duplicate(),
                    None => name.duplicate(),
                };
                let ty = match type_override {
                    Some(o) => {
                        let mut ty: Vec<TokenTree> = Vec::new();
                        assert(tts_view(ty@) =~= Seq::<TokenModel>::empty());
                        o.type_path.to_call_site(1).to_tokens(&mut ty);
                        assert(tts_view(ty@) =~= path_tokens(spec_to_call_site(o.type_path@, 1)));
                        ty
                    },
                    None => member_of(&t, "$::columns::$::Type", name),
                };
                RowField::new(crate::common::copy_attrs(attrs), field_name, ty)
            },
            QueryField::Relation { attrs, name, alias, .. } => {
                let field_name = match alias {
                    Some(a) => a.ident.duplicate(),
                    None => name.duplicate(),
                };
                let inner = node_path.duplicate().appended(name.duplicate()).to_struct_name("Row");
                let ty = code_with(
                    "$::relations::$::Type<$>",
                    args3(copy_stream(&t), single(TokenTree::Ident(name.duplicate())), single(TokenTree::Ident(inner))),
                );
                RowField::new(crate::common::copy_attrs(attrs), field_name, ty)
            },
        }
    }
}

impl QueryNode {
    /// Appends what the node generates: its autocompletion module and its row
    /// struct, then the same for each relation's node. The row structs carry
    /// the query's attributes.
    pub fn to_tokens(&self, out: &mut Vec<TokenTree>, query_attrs: &Vec<Attribute>, table_path: &Path, node_path: &QueryNodePath, features: Features)
        ensures
            tts_view(final(out)@) == tts_view(old(out)@) + node_tokens(self@, attrs_view(query_attrs@), table_path@, node_path@, features),
        decreases self, self@.fields.len() + 1,
    {
        let ghost start = tts_view(out@);
        let module = node_path.to_module_name("autocomplete_row");
        let auto = self.to_autocomplete_module(&module, table_path);
        push_all(out, auto);
        let table_cs = table_path.to_call_site(1);
        let mut t: Vec<TokenTree> = Vec::new();
        assert(tts_view(t@) =~= Seq::<TokenModel>::empty());
        table_cs.to_tokens(&mut t);
        assert(tts_view(t@) =~= path_tokens(table_cs@));
        let ghost tm = table_cs@;
        let mut fields: Vec<RowField> = Vec::new();
        if self.star.is_some() {
            let mut attrs: Vec<Attribute> = Vec::new();
            if features.serde || features.serde_full {
                attrs.push(Attribute { pound: call_site_span(), bang: None, bracket: call_site_span(), tokens: code("serde(flatten)") });
                assert(attrs_view(attrs@) =~= seq![serde_flatten()]);
            } else {
                assert(attrs_view(attrs@) =~= Seq::<AttributeModel>::empty());
            }
            let ty = member(&table_cs, "Select");
            let star = RowField::new(attrs, call_site_ident("_star"), ty);
            fields.push(star);
            proof {
                reveal_strlit("_star");
            }
            assert(row_fields_view(fields@) =~= seq![star_row_field(tm, features)]);
        } else {
            assert(row_fields_view(fields@) =~= Seq::<RowFieldModel>::empty());
        }
        let ghost head = row_fields_view(fields@);
        let ghost fs = self@.fields;
        proof {
            lemma_query_fields_view(self.fields@);
        }
        let mut i: usize = 0;
        while i < self.fields.len()
            invariant
                i <= self.fields.len(),
                fs == self@.fields,
                fs.len() == self.fields.len(),
                forall|k: int| 0 <= k < self.fields.len() ==> #[trigger] fs[k] == query_field_view(self.fields@[k]),
                tts_view(t@) == path_tokens(table_cs@),
                tm == table_cs@,
                row_fields_view(fields@) == head + fields_row_fields(fs.subrange(0, i as int), tm, node_path@),
            decreases self.fields.len() - i,
        {
            let rf = row_field_of(&self.fields[i], &table_cs, &t, node_path);
            let ghost before = row_fields_view(fields@);
            fields.push(rf);
            proof {
                let sub = fs.subrange(0, i + 1);
                assert(sub.drop_last() =~= fs.subrange(0, i as int));
                assert(sub.last() == fs[i as int]);
                assert(row_fields_view(fields@) =~= before.push(node_row_field(fs[i as int], tm, node_path@)));
            }
            i += 1;
        }
        assert(fs.subrange(0, i as int) =~= fs);
        assert(row_fields_view(fields@) =~= node_row_fields(self@, table_path@, node_path@, features));
        let name = node_path.to_struct_name("Row");
        let row = Row::new(crate::common::copy_attrs(query_attrs), name, fields);
        row.to_tokens(out, features);
        self.children_to_tokens(out, query_attrs, table_path, node_path, features, 0);
        assert(tts_view(out@) =~= start + node_tokens(self@, attrs_view(query_attrs@), table_path@, node_path@, features));
    }

    fn children_to_tokens(&self, out: &mut Vec<TokenTree>, query_attrs: &Vec<Attribute>, table_path: &Path, node_path: &QueryNodePath, features: Features, i: usize)
        requires
            i <= self.fields.len(),
        ensures
            tts_view(final(out)@) == tts_view(old(out)@) + children_tokens(self@, attrs_view(query_attrs@), table_path@, node_path@, features, i as int),
        decreases self, self@.fields.len() - i,
    {
        proof {
            lemma_query_fields_view(self.fields@);
        }
        let ghost start = tts_view(out@);
        if i >= self.fields.len() {
            assert(tts_view(out@) =~= start + children_tokens(self@, attrs_view(query_attrs@), table_path@, node_path@, features, i as int));
            return;
        }
        assert(self@.fields[i as int] == query_field_view(self.fields@[i as int]));
        match &self.fields[i] {
            QueryField::Relation { name, node, .. } => {
                proof {
                    assert(decreases_to!(*self => self.fields));
                    assert(decreases_to!(self.fields => self.fields@[i as int]));
                }
                let mut relation = table_path.duplicate();
                relation.segments.push(call_site_segment("relations"));
                relation.segments.push(PathSegment { ident: name.duplicate(), args: None });
                let ghost rel = relation_path(table_path@, name@);
                assert(relation@.segments =~= rel.segments);
                let mut target = relation;
                target.segments.push(call_site_segment("target_table"));
                assert(target@.segments =~= target_table(rel).segments);
                let child_path = node_path.duplicate().appended(name.duplicate());
                node.to_tokens(out, query_attrs, &target, &child_path, features);
            },
            QueryField::Column { .. } => {},
        }
        self.children_to_tokens(out, query_attrs, table_path, node_path, features, i + 1);
        assert(tts_view(out@) =~= start + children_tokens(self@, attrs_view(query_attrs@), table_path@, node_path@, features, i as int));
    }
}


// ---------------------------------------------------------------------------
// The module that a query expands to.
// ---------------------------------------------------------------------------

/// The bind parameters that a node refers to: a node of this grammar holds
/// fields and relations only, no expression, so none.
pub open spec fn node_bind_params(node: QueryNodeModel) -> Seq<IdentModel> {
    Seq::empty()
}

/// The module of a query is named by its alias, else `internal`.
pub open spec fn query_module_name(q: QueryModel) -> IdentModel {
    match q.alias {
        Some(a) => a.ident,
        None => IdentModel { name: "internal"@, span: call_site() },
    }
}

/// The template of the module: its name, the rows of the nodes, the bind
/// parameters, then the lifetime eight times and the query's description.
pub open spec fn module_template() -> Seq<char> {
    "pub mod $ { $ $ pub struct Query $ { params: Params $, } impl $ Query $ { pub fn new(params: Params $) -> Self { Self { params } } } impl $ ::kosame::query::Query for Query $ { type Params = Params $; type Row = Row; const REPR: ::kosame::query::Node<'static> = $; fn params(&self) -> &Self::Params { &self.params } } }"@
}

/// The module that holds the row structs, the `Params` struct and the `Query`
/// struct with its `::kosame::query::Query` impl, whose `REPR` is `repr`. The
/// structs borrow for `'a` exactly where there are bind parameters.
pub open spec fn module_tokens(q: QueryModel, params: Seq<IdentModel>, repr: Seq<TokenModel>, features: Features) -> Seq<TokenModel> {
    let lt = params_lifetime(params);
    quote_tokens(
        module_template(),
        seq![
            seq![TokenModel::Ident(query_module_name(q))],
            node_tokens(q.body, q.outer_attrs, q.table, Seq::empty(), features),
            bind_params_tokens(params, features),
            lt, lt, lt, lt, lt, lt, lt, lt,
            repr,
        ],
    )
}

/// With an alias, the module alone; without one, a block that gathers the
/// parameters, holds the module and builds its `Query`.
pub open spec fn query_module_tokens(q: QueryModel, repr: Seq<TokenModel>, features: Features) -> Seq<TokenModel> {
    let params = add_params(Seq::empty(), node_bind_params(q.body));
    let module = module_tokens(q, params, repr, features);
    if q.alias is Some {
        module
    } else {
        let name = query_module_name(q);
        quote_tokens(
            "{ $ $ $::Query::new(closure) }"@,
            seq![closure_tokens(name, params), module, seq![TokenModel::Ident(name)]],
        )
    }
}

impl QueryNode {
    /// Visits the bind parameters of the node: there are none.
    pub fn accept(&self, visitor: &mut BindParamsBuilder)
        ensures
            final(visitor)@ == add_params(old(visitor)@, node_bind_params(self@)),
    {
    }
}

impl Query {
    /// Appends the module that the query expands to; `repr` is the query's
    /// description, the value of the `REPR` constant.
    pub fn to_module_tokens(&self, out: &mut Vec<TokenTree>, repr: &Vec<TokenTree>, features: Features)
        ensures
            tts_view(final(out)@) == tts_view(old(out)@) + query_module_tokens(self@, tts_view(repr@), features),
    {
        let module_name = match &self.alias {
            Some(a) => a.ident.duplicate(),
            None => call_site_ident("internal"),
        };
        assert(module_name@ == query_module_name(self@));
        let mut builder = BindParamsBuilder::new();
        self.body.accept(&mut builder);
        let bind_params = builder.build();
        let ghost params = bind_params@;
        let mut nodes: Vec<TokenTree> = Vec::new();
        assert(tts_view(nodes@) =~= Seq::<TokenModel>::empty());
        self.body.to_tokens(&mut nodes, &self.outer_attrs, &self.table, &QueryNodePath::new(), features);
        assert(tts_view(nodes@) =~= node_tokens(self@.body, self@.outer_attrs, self@.table, Seq::empty(), features));
        let mut bind: Vec<TokenTree> = Vec::new();
        assert(tts_view(bind@) =~= Seq::<TokenModel>::empty());
        bind_params.to_tokens(&mut bind, features);
        assert(tts_view(bind@) =~= bind_params_tokens(params, features));
        let lifetime = if bind_params.is_empty() {
            let v: Vec<TokenTree> = Vec::new();
            assert(tts_view(v@) =~= Seq::<TokenModel>::empty());
            v
        } else {
            code("<'a>")
        };
        let ghost lt = params_lifetime(params);
        assert(tts_view(lifetime@) == lt);
        let mut args: Vec<Vec<TokenTree>> = Vec::new();
        args.push(single(TokenTree::Ident(module_name.duplicate())));
        args.push(nodes);
        args.push(bind);
        let mut k: usize = 0;
        while k < 8
            invariant
                k <= 8,
                args@.len() == 3 + k,
                tts_view(lifetime@) == lt,
                forall|j: int| 3 <= j < 3 + k ==> tts_view(#[trigger] args@[j]@) == lt,
                tts_view(args@[0]@) == seq![TokenModel::Ident(module_name@)],
                tts_view(args@[1]@) == node_tokens(self@.body, self@.outer_attrs, self@.table, Seq::empty(), features),
                tts_view(args@[2]@) == bind_params_tokens(params, features),
            decreases 8 - k,
        {
            args.push(copy_stream(&lifetime));
            k += 1;
        }
        args.push(copy_stream(repr));
        let mut module: Vec<TokenTree> = Vec::new();
        assert(tts_view(module@) =~= Seq::<TokenModel>::empty());
        quote_into(&mut module, "pub mod $ { $ $ pub struct Query $ { params: Params $, } impl $ Query $ { pub fn new(params: Params $) -> Self { Self { params } } } impl $ ::kosame::query::Query for Query $ { type Params = Params $; type Row = Row; const REPR: ::kosame::query::Node<'static> = $; fn params(&self) -> &Self::Params { &self.params } } }", &args);
        proof {
            let q = self@;
            assert(params == add_params(Seq::empty(), node_bind_params(q.body)));
            assert(args_view(args@) =~= seq![
                seq![TokenModel::Ident(query_module_name(q))],
                node_tokens(q.body, q.outer_attrs, q.table, Seq::empty(), features),
                bind_params_tokens(params, features),
                lt, lt, lt, lt, lt, lt, lt, lt,
                tts_view(repr@),
            ]);
            assert(tts_view(module@) =~= module_tokens(q, params, tts_view(repr@), features));
        }
        match &self.alias {
            Some(_) => {
                push_all(out, module);
            },
            None => {
                let closure = bind_params.to_closure_token_stream(&module_name);
                quote_into(out, "{ $ $ $::Query::new(closure) }", &args3(closure, module, single(TokenTree::Ident(module_name.duplicate()))));
            },
        }
    }
}

} // verus!

//! Paths from the root of a query to one of its nodes, and the names of the
//! generated items that belong to a node.

use vstd::prelude::*;
use vstd::string::StringExecFns;
use crate::token::{Ident, IdentModel, call_site, call_site_span};
use crate::path::{Path, PathModel, PathSegment, SegmentModel};
use crate::outside::{pascal_case, to_pascal_case};

verus! {

/// The relation names leading from the root node of a query to a node.
#[derive(Debug)]
pub struct QueryNodePath {
    pub segments: Vec<Ident>,
}

pub open spec fn idents_view(s: Seq<Ident>) -> Seq<IdentModel> {
    s.map_values(|i: Ident| i@)
}

impl View for QueryNodePath {
    type V = Seq<IdentModel>;

    open spec fn view(&self) -> Seq<IdentModel> {
        idents_view(self.segments@)
    }
}

/// The prefix followed by each segment name in Pascal case.
pub open spec fn struct_name(prefix: Seq<char>, segments: Seq<IdentModel>) -> Seq<char>
    decreases segments.len(),
{
    if segments.len() == 0 {
        prefix
    } else {
        struct_name(prefix, segments.drop_last()) + pascal_case(segments.last().name)
    }
}

/// The prefix followed by `_` and each segment name.
pub open spec fn module_name(prefix: Seq<char>, segments: Seq<IdentModel>) -> Seq<char>
    decreases segments.len(),
{
    if segments.len() == 0 {
        prefix
    } else {
        module_name(prefix, segments.drop_last()) + "_"@ + segments.last().name
    }
}

/// A segment made up by the code generator.
pub open spec fn plain_segment(name: Seq<char>) -> SegmentModel {
    SegmentModel { ident: IdentModel { name, span: call_site() }, args: None }
}

/// The segments that lead from a table to the target table of each relation
/// in turn: `relations::name::target_table` for each name.
pub open spec fn relation_segments(segments: Seq<IdentModel>) -> Seq<SegmentModel>
    decreases segments.len(),
{
    if segments.len() == 0 {
        Seq::empty()
    } else {
        relation_segments(segments.drop_last())
            + seq![
            plain_segment("relations"@),
            SegmentModel { ident: segments.last(), args: None },
            plain_segment("target_table"@),
        ]
    }
}

/// A segment with the given name at the call site and no arguments.
pub fn call_site_segment(name: &str) -> (segment: PathSegment)
    ensures
        segment@ == plain_segment(name@),
{
    PathSegment { ident: Ident::new(String::from_str(name), call_site_span()), args: None }
}

impl QueryNodePath {
    /// The path of the root node.
    pub fn new() -> (path: QueryNodePath)
        ensures
            path@ == Seq::<IdentModel>::empty(),
    {
        let path = QueryNodePath { segments: Vec::new() };
        assert(path@ =~= Seq::<IdentModel>::empty());
        path
    }

    pub fn append(&mut self, segment: Ident)
        ensures
            final(self)@ == old(self)@.push(segment@),
    {
        let ghost m = segment@;
        self.segments.push(segment);
        assert(self@ =~= old(self)@.push(m));
    }

    pub fn appended(self, segment: Ident) -> (path: QueryNodePath)
        ensures
            path@ == self@.push(segment@),
    {
        let mut path = self;
        path.append(segment);
        path
    }

    /// A copy of the path.
    pub fn duplicate(&self) -> (copy: QueryNodePath)
        ensures
            copy@ == self@,
    {
        let mut copy = QueryNodePath::new();
        let mut i: usize = 0;
        while i < self.segments.len()
            invariant
                i <= self.segments.len(),
                copy@ == self@.subrange(0, i as int),
            decreases self.segments.len() - i,
        {
            copy.append(self.segments[i].duplicate());
            assert(self@.subrange(0, i + 1) =~= self@.subrange(0, i as int).push(self@[i as int]));
            i += 1;
        }
        assert(self@.subrange(0, self.segments.len() as int) =~= self@);
        copy
    }

    /// `prefix` followed by each segment in Pascal case, as an identifier at
    /// the call site: `Row`, `RowPosts`, `RowPostsComments`.
    pub fn to_struct_name(&self, prefix: &str) -> (name: Ident)
        ensures
            name@ == (IdentModel { name: struct_name(prefix@, self@), span: call_site() }),
    {
        let mut text = String::from_str(prefix);
        let mut i: usize = 0;
        while i < self.segments.len()
            invariant
                i <= self.segments.len(),
                text@ == struct_name(prefix@, self@.subrange(0, i as int)),
            decreases self.segments.len() - i,
        {
            let part = to_pascal_case(self.segments[i].name.as_str());
            text.append(part.as_str());
            assert(self@.subrange(0, i + 1).drop_last() =~= self@.subrange(0, i as int));
            i += 1;
        }
        assert(self@.subrange(0, self.segments.len() as int) =~= self@);
        Ident::new(text, call_site_span())
    }

    /// `prefix` followed by `_` and each segment: `row`, `row_posts`,
    /// `row_posts_comments`.
    pub fn to_module_name(&self, prefix: &str) -> (name: Ident)
        ensures
            name@ == (IdentModel { name: module_name(prefix@, self@), span: call_site() }),
    {
        let mut text = String::from_str(prefix);
        let mut i: usize = 0;
        while i < self.segments.len()
            invariant
                i <= self.segments.len(),
                text@ == module_name(prefix@, self@.subrange(0, i as int)),
            decreases self.segments.len() - i,
        {
            text.append("_");
            text.append(self.segments[i].name.as_str());
            assert(self@.subrange(0, i + 1).drop_last() =~= self@.subrange(0, i as int));
            i += 1;
        }
        assert(self@.subrange(0, self.segments.len() as int) =~= self@);
        Ident::new(text, call_site_span())
    }

    /// The path of the node's table: the root table followed, for each
    /// relation, by `relations::name::target_table`.
    pub fn resolve(&self, root_table: &Path) -> (path: Path)
        ensures
            path@ == (PathModel {
                leading_colon: root_table@.leading_colon,
                segments: root_table@.segments + relation_segments(self@),
            }),
    {
        let mut path = root_table.duplicate();
        let mut i: usize = 0;
        while i < self.segments.len()
            invariant
                i <= self.segments.len(),
                path@ == (PathModel {
                    leading_colon: root_table@.leading_colon,
                    segments: root_table@.segments + relation_segments(self@.subrange(0, i as int)),
                }),
            decreases self.segments.len() - i,
        {
            let ghost before = path@.segments;
            path.segments.push(call_site_segment("relations"));
            path.segments.push(PathSegment { ident: self.segments[i].duplicate(), args: None });
            path.segments.push(call_site_segment("target_table"));
            let ghost added = seq![
                plain_segment("relations"@),
                SegmentModel { ident: self@[i as int], args: None },
                plain_segment("target_table"@),
            ];
            assert(path@.segments =~= before + added);
            assert(self@.subrange(0, i + 1).drop_last() =~= self@.subrange(0, i as int));
            assert(self@.subrange(0, i + 1).last() == self@[i as int]);
            assert(relation_segments(self@.subrange(0, i + 1)) == relation_segments(self@.subrange(0, i as int)) + added);
            assert(path@.segments =~= root_table@.segments + relation_segments(self@.subrange(0, i + 1)));
            i += 1;
        }
        assert(self@.subrange(0, self.segments.len() as int) =~= self@);
        path
    }
}

/// The relation names leading to a relation of a query.
#[derive(Debug)]
pub struct RelationPath {
    segments: Vec<Ident>,
}

impl View for RelationPath {
    type V = Seq<IdentModel>;

    closed spec fn view(&self) -> Seq<IdentModel> {
        idents_view(self.segments@)
    }
}

impl RelationPath {
    pub fn new() -> (path: RelationPath)
        ensures
            path@ == Seq::<IdentModel>::empty(),
    {
        let path = RelationPath { segments: Vec::new() };
        assert(path@ =~= Seq::<IdentModel>::empty());
        path
    }

    pub fn append(&mut self, segment: Ident)
        ensures
            final(self)@ == old(self)@.push(segment@),
    {
        let ghost m = segment@;
        self.segments.push(segment);
        assert(self@ =~= old(self)@.push(m));
    }

    pub fn segments(&self) -> (segments: &Vec<Ident>)
        ensures
            idents_view(segments@) == self@,
    {
        &self.segments
    }

    pub fn is_empty(&self) -> (empty: bool)
        ensures
            empty == (self@.len() == 0),
    {
        self.segments.len() == 0
    }

    /// `prefix` followed by each segment in Pascal case.
    pub fn to_struct_name(&self, prefix: &str) -> (name: Ident)
        ensures
            name@ == (IdentModel { name: struct_name(prefix@, self@), span: call_site() }),
    {
        let mut text = String::from_str(prefix);
        let mut i: usize = 0;
        while i < self.segments.len()
            invariant
                i <= self.segments.len(),
                text@ == struct_name(prefix@, self@.subrange(0, i as int)),
            decreases self.segments.len() - i,
        {
            let part = to_pascal_case(self.segments[i].name.as_str());
            text.append(part.as_str());
            assert(self@.subrange(0, i + 1).drop_last() =~= self@.subrange(0, i as int));
            i += 1;
        }
        assert(self@.subrange(0, self.segments.len() as int) =~= self@);
        Ident::new(text, call_site_span())
    }

    /// `prefix` followed by `_` and each segment.
    pub fn to_module_name(&self, prefix: &str) -> (name: Ident)
        ensures
            name@ == (IdentModel { name: module_name(prefix@, self@), span: call_site() }),
    {
        let mut text = String::from_str(prefix);
        let mut i: usize = 0;
        while i < self.segments.len()
            invariant
                i <= self.segments.len(),
                text@ == module_name(prefix@, self@.subrange(0, i as int)),
            decreases self.segments.len() - i,
        {
            text.append("_");
            text.append(self.segments[i].name.as_str());
            assert(self@.subrange(0, i + 1).drop_last() =~= self@.subrange(0, i as int));
            i += 1;
        }
        assert(self@.subrange(0, self.segments.len() as int) =~= self@);
        Ident::new(text, call_site_span())
    }
}

} // verus!

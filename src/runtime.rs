use vstd::prelude::*;

use crate::query::{LabelId, NameOrId};
use crate::store::{StoreLabelId, ID};

verus! {

/// What the store reports of a vertex.
#[derive(Clone, Copy, Debug, PartialEq, Eq, Structural)]
pub struct VertexRecord {
    pub id: i64,
    pub label_id: StoreLabelId,
}

/// What the store reports of an edge.
#[derive(Clone, Copy, Debug, PartialEq, Eq, Structural)]
pub struct EdgeRecord {
    pub edge_id: i64,
    pub label_id: StoreLabelId,
    pub src_id: i64,
    pub dst_id: i64,
    pub src_label_id: StoreLabelId,
    pub dst_label_id: StoreLabelId,
}

/// How the properties of a runtime element are reached.
#[derive(Clone, Debug)]
pub enum Details {
    /// No properties.
    Empty,
    /// Properties fetched from the store on first read: `None` for none,
    /// `Some` of an empty list for all, or the listed ones.
    Lazy(Option<Vec<NameOrId>>),
}

/// A vertex of the query engine.
#[derive(Clone, Debug)]
pub struct Vertex {
    pub id: ID,
    pub label: Option<LabelId>,
    pub details: Details,
}

/// An edge of the query engine; `from_src` tells whether it was reached
/// from its source vertex.
#[derive(Clone, Debug)]
pub struct Edge {
    pub id: ID,
    pub label: Option<LabelId>,
    pub src_id: ID,
    pub dst_id: ID,
    pub from_src: bool,
    pub src_label: Option<LabelId>,
    pub dst_label: Option<LabelId>,
    pub details: Details,
}

fn encode_runtime_v_label(v: &VertexRecord) -> (r: LabelId)
    ensures
        r == v.label_id,
{
    v.label_id
}

fn encode_runtime_e_label(e: &EdgeRecord) -> (r: LabelId)
    ensures
        r == e.label_id,
{
    e.label_id
}

/// A store vertex as a runtime vertex whose properties load lazily.
pub fn to_runtime_vertex(v: VertexRecord, prop_keys: Option<Vec<NameOrId>>) -> (r: Vertex)
    ensures
        r.id == v.id,
        r.label == Some(v.label_id),
        r.details == Details::Lazy(prop_keys),
{
    let id = v.id;
    let label = encode_runtime_v_label(&v);
    Vertex { id, label: Some(label), details: Details::Lazy(prop_keys) }
}

/// A store vertex as a runtime vertex without properties.
pub fn to_empty_vertex(v: &VertexRecord) -> (r: Vertex)
    ensures
        r.id == v.id,
        r.label == Some(v.label_id),
        r.details == Details::Empty,
{
    let id = v.id;
    let label = encode_runtime_v_label(v);
    Vertex { id, label: Some(label), details: Details::Empty }
}

/// A store edge as a runtime edge whose properties load lazily.
pub fn to_runtime_edge(e: EdgeRecord, prop_keys: Option<Vec<NameOrId>>, from_src: bool) -> (r: Edge)
    ensures
        r.id == e.edge_id,
        r.label == Some(e.label_id),
        r.src_id == e.src_id,
        r.dst_id == e.dst_id,
        r.from_src == from_src,
        r.src_label == Some(e.src_label_id),
        r.dst_label == Some(e.dst_label_id),
        r.details == Details::Lazy(prop_keys),
{
    let label = encode_runtime_e_label(&e);
    Edge {
        id: e.edge_id,
        label: Some(label),
        src_id: e.src_id,
        dst_id: e.dst_id,
        from_src,
        src_label: Some(e.src_label_id),
        dst_label: Some(e.dst_label_id),
        details: Details::Lazy(prop_keys),
    }
}

/// Store edges handed out one by one as runtime edges, all reached from the
/// same end.
pub struct RuntimeEdgeIter {
    iter: Vec<EdgeRecord>,
    pos: usize,
    from_src: bool,
    prop_keys: Option<Vec<NameOrId>>,
}

impl RuntimeEdgeIter {
    /// The edges not handed out yet.
    pub closed spec fn rest(&self) -> Seq<EdgeRecord> {
        self.iter@.subrange(self.pos as int, self.iter@.len() as int)
    }

    pub closed spec fn from_src_spec(&self) -> bool {
        self.from_src
    }

    pub closed spec fn wf(&self) -> bool {
        self.pos <= self.iter@.len()
    }

    pub fn new(iter: Vec<EdgeRecord>, from_src: bool, prop_keys: Option<Vec<NameOrId>>) -> (r: Self)
        ensures
            r.wf(),
            r.rest() == iter@,
            r.from_src_spec() == from_src,
    {
        let r = RuntimeEdgeIter { iter, pos: 0, from_src, prop_keys };
        assert(r.rest() =~= r.iter@);
        r
    }

    /// The next edge, or `None` once all were handed out.
    pub fn next(&mut self) -> (r: Option<Edge>)
        requires
            old(self).wf(),
        ensures
            final(self).wf(),
            final(self).from_src_spec() == old(self).from_src_spec(),
            old(self).rest().len() == 0 ==> r is None && final(self).rest() == old(self).rest(),
            old(self).rest().len() > 0 ==> (r matches Some(e) && e.id == old(self).rest()[0].edge_id
                && e.src_id == old(self).rest()[0].src_id && e.dst_id == old(self).rest()[0].dst_id
                && e.label == Some(old(self).rest()[0].label_id) && e.from_src
                == old(self).from_src_spec()) && final(self).rest() == old(self).rest().drop_first(),
    {
        if self.pos < self.iter.len() {
            let next = self.iter[self.pos];
            let ghost before = self.rest();
            self.pos = self.pos + 1;
            assert(self.rest() =~= before.drop_first());
            Some(to_runtime_edge(next, self.prop_keys.clone(), self.from_src))
        } else {
            None
        }
    }
}

} // verus!

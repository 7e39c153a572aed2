//! The conversion layer: the lossless, pairwise mapping between the wire
//! shapes and the internal model. Every internal variant has exactly one
//! wire encoding and vice versa; translation is a pure, structural
//! transformation and raises only client-fault-shaped errors.

use vstd::prelude::*;

use crate::artifact::ComputeGraphCode;
use crate::errors::SchemaError;
use crate::model;
use crate::version::GraphVersion;
use crate::wire;

verus! {

/// The internal form of a wire compute step.
pub open spec fn compute_from_wire(c: wire::ComputeFn) -> model::ComputeFn {
    model::ComputeFn {
        name: c.name,
        function_name: c.fn_name,
        description: c.description,
        is_reducer: c.reducer,
    }
}

/// The wire form of an internal compute step.
pub open spec fn compute_to_wire(c: model::ComputeFn) -> wire::ComputeFn {
    wire::ComputeFn {
        name: c.name,
        fn_name: c.function_name,
        description: c.description,
        reducer: c.is_reducer,
    }
}

/// The internal form of a wire dynamic router.
pub open spec fn router_from_wire(d: wire::DynamicRouter) -> model::DynamicEdgeRouter {
    model::DynamicEdgeRouter {
        name: d.name,
        source_step: d.source_fn,
        description: d.description,
        target_steps: d.target_fns,
    }
}

/// The wire form of an internal dynamic router.
pub open spec fn router_to_wire(d: model::DynamicEdgeRouter) -> wire::DynamicRouter {
    wire::DynamicRouter {
        name: d.name,
        source_fn: d.source_step,
        description: d.description,
        target_fns: d.target_steps,
    }
}

/// The internal form of a wire node; the sum is mapped variant to variant.
pub open spec fn node_from_wire(n: wire::Node) -> model::Node {
    match n {
        wire::Node::DynamicRouter(d) => model::Node::Router(router_from_wire(d)),
        wire::Node::ComputeFn(c) => model::Node::Compute(compute_from_wire(c)),
    }
}

/// The wire form of an internal node.
pub open spec fn node_to_wire(n: model::Node) -> wire::Node {
    match n {
        model::Node::Router(d) => wire::Node::DynamicRouter(router_to_wire(d)),
        model::Node::Compute(c) => wire::Node::ComputeFn(compute_to_wire(c)),
    }
}

/// One node-map entry, translated to the internal model.
pub open spec fn entry_from_wire(p: (String, wire::Node)) -> (String, model::Node) {
    (p.0, node_from_wire(p.1))
}

/// One node-map entry, translated to the wire.
pub open spec fn entry_to_wire(p: (String, model::Node)) -> (String, wire::Node) {
    (p.0, node_to_wire(p.1))
}

/// Translation keeps each node's declared name.
pub proof fn lemma_node_name_preserved(n: wire::Node)
    ensures
        node_from_wire(n).name_spec() == n.name_spec(),
{
}

/// Translation to the wire keeps each node's declared name.
pub proof fn lemma_node_name_preserved_to_wire(n: model::Node)
    ensures
        node_to_wire(n).name_spec() == n.name_spec(),
{
}

/// Node-level round trip: wire to internal back to wire is the identity.
pub proof fn lemma_wire_node_round_trip(n: wire::Node)
    ensures
        node_to_wire(node_from_wire(n)) == n,
{
}

/// Node-level round trip: internal to wire back to internal is the
/// identity.
pub proof fn lemma_node_round_trip(n: model::Node)
    ensures
        node_from_wire(node_to_wire(n)) == n,
{
}

/// Every node of the wire submission is stored under the name it
/// declares.
pub open spec fn wire_names_consistent(w: wire::ComputeGraph) -> bool {
    forall|i: int|
        0 <= i < w.nodes@.len() ==> (#[trigger] w.nodes@[i]).0@ == w.nodes@[i].1.name_spec()@
}

/// Content translation of a whole graph: `m` is the internal form of the
/// wire submission `w` bound to the artifact `code`. Version and creation
/// time are outside this relation; the internal side populates them.
pub open spec fn translates(
    w: wire::ComputeGraph,
    code: ComputeGraphCode,
    m: model::ComputeGraph,
) -> bool {
    &&& m.name == w.name
    &&& m.namespace == w.namespace
    &&& m.description == w.description
    &&& m.start_node == node_from_wire(w.start_node)
    &&& m.nodes@ == w.nodes@.map_values(|p: (String, wire::Node)| entry_from_wire(p))
    &&& m.edges == w.edges
    &&& m.code == code
}

/// The wire form of a whole internal graph, as `to_wire` produces it.
pub open spec fn wire_form_of(m: model::ComputeGraph, w: wire::ComputeGraph) -> bool {
    &&& w.name == m.name
    &&& w.namespace == m.namespace
    &&& w.description == m.description
    &&& w.start_node == node_to_wire(m.start_node)
    &&& w.nodes@ == m.nodes@.map_values(|p: (String, model::Node)| entry_to_wire(p))
    &&& w.edges == m.edges
    &&& w.created_at == m.created_at
}

/// A rejected submission: some node sits under a key other than its
/// declared name, and the error names one such key. The submission is
/// rejected, never silently renamed.
pub open spec fn rejects_name_mismatch(w: wire::ComputeGraph, e: SchemaError) -> bool {
    &&& !wire_names_consistent(w)
    &&& e matches SchemaError::NodeNameMismatch(k) && (exists|i: int|
        0 <= i < w.nodes@.len() && (#[trigger] w.nodes@[i]).0@ == k@ && w.nodes@[i].0@
            != w.nodes@[i].1.name_spec()@)
}

/// Translate one wire node into the internal model.
pub fn node_into_data_model(node: wire::Node) -> (r: model::Node)
    ensures
        r == node_from_wire(node),
{
    match node {
        wire::Node::DynamicRouter(d) => model::Node::Router(
            model::DynamicEdgeRouter {
                name: d.name,
                source_step: d.source_fn,
                description: d.description,
                target_steps: d.target_fns,
            },
        ),
        wire::Node::ComputeFn(c) => model::Node::Compute(
            model::ComputeFn {
                name: c.name,
                function_name: c.fn_name,
                description: c.description,
                is_reducer: c.reducer,
            },
        ),
    }
}

/// Translate one internal node into its wire form.
pub fn node_into_wire(node: model::Node) -> (r: wire::Node)
    ensures
        r == node_to_wire(node),
{
    match node {
        model::Node::Router(d) => wire::Node::DynamicRouter(
            wire::DynamicRouter {
                name: d.name,
                source_fn: d.source_step,
                description: d.description,
                target_fns: d.target_steps,
            },
        ),
        model::Node::Compute(c) => wire::Node::ComputeFn(
            wire::ComputeFn {
                name: c.name,
                fn_name: c.function_name,
                description: c.description,
                reducer: c.is_reducer,
            },
        ),
    }
}

impl model::ComputeGraph {
    /// Translate a wire submission into the internal model, bound to the
    /// artifact descriptor resolved by the code-store collaborator.
    ///
    /// A structural translation only: each node-map entry is checked to
    /// sit under its declared name and rejected otherwise; edge and
    /// start-node referential integrity is left to later stages. On
    /// success the version is the initial (unassigned) one and the
    /// creation time is left for the internal side to populate.
    #[verifier::loop_isolation(false)]
    pub fn from_wire(wire_graph: wire::ComputeGraph, code: ComputeGraphCode) -> (r: Result<
        model::ComputeGraph,
        SchemaError,
    >)
        ensures
            match r {
                Ok(m) => {
                    &&& wire_names_consistent(wire_graph)
                    &&& translates(wire_graph, code, m)
                    &&& m.version == GraphVersion::initial_spec()
                    &&& m.created_at == 0
                    &&& m.wf()
                },
                Err(e) => rejects_name_mismatch(wire_graph, e),
            },
    {
        let ghost wg = wire_graph;
        let wire::ComputeGraph {
            name,
            namespace,
            description,
            start_node,
            nodes,
            edges,
            created_at: _,
        } = wire_graph;
        let mut rest = nodes;
        let ghost orig = rest@;
        let mut out: Vec<(String, model::Node)> = Vec::new();
        while rest.len() > 0
            invariant
                orig == wg.nodes@,
                out@.len() + rest@.len() == orig.len(),
                rest@ == orig.subrange(out@.len() as int, orig.len() as int),
                forall|j: int| 0 <= j < out@.len() ==> #[trigger] out@[j] == entry_from_wire(
                    orig[j],
                ),
                forall|j: int|
                    0 <= j < out@.len() ==> (#[trigger] orig[j]).0@ == orig[j].1.name_spec()@,
            decreases rest@.len(),
        {
            let ghost j0 = out@.len() as int;
            proof {
                assert(rest@[0] == orig[j0]);
            }
            let (key, node) = rest.remove(0);
            let node_name = node.name();
            if !crate::text::str_equal(key.as_str(), node_name.as_str()) {
                proof {
                    assert(key == wg.nodes@[j0].0);
                    assert(node == wg.nodes@[j0].1);
                    assert(node_name@ == node.name_spec()@);
                    assert(wg.nodes@[j0].0@ != wg.nodes@[j0].1.name_spec()@);
                    assert(!wire_names_consistent(wg));
                    assert(exists|i: int|
                        0 <= i < wg.nodes@.len() && (#[trigger] wg.nodes@[i]).0@ == key@
                            && wg.nodes@[i].0@ != wg.nodes@[i].1.name_spec()@) by {
                        assert(0 <= j0 < wg.nodes@.len() && wg.nodes@[j0].0@ == key@
                            && wg.nodes@[j0].0@ != wg.nodes@[j0].1.name_spec()@);
                    }
                }
                return Err(SchemaError::NodeNameMismatch(key));
            }
            out.push((key, node_into_data_model(node)));
            proof {
                assert(rest@ =~= orig.subrange(out@.len() as int, orig.len() as int));
            }
        }
        let m = model::ComputeGraph {
            name,
            namespace,
            description,
            start_node: node_into_data_model(start_node),
            version: GraphVersion(0),
            code,
            nodes: out,
            edges,
            created_at: 0,
        };
        proof {
            assert(m.nodes@ =~= wg.nodes@.map_values(
                |p: (String, wire::Node)| entry_from_wire(p),
            ));
            assert forall|i: int| 0 <= i < m.nodes@.len() implies (#[trigger] m.nodes@[i]).0@
                == m.nodes@[i].1.name_spec()@ by {
                lemma_node_name_preserved(wg.nodes@[i].1);
            }
        }
        Ok(m)
    }

    /// Produce the wire form of this internal graph, for read and listing
    /// surfaces: the exact inverse of `from_wire` on every field except
    /// version and creation time, which only the internal side carries.
    #[verifier::loop_isolation(false)]
    pub fn to_wire(self) -> (r: wire::ComputeGraph)
        ensures
            wire_form_of(self, r),
    {
        let ghost mg = self;
        let model::ComputeGraph {
            name,
            namespace,
            description,
            start_node,
            version: _,
            code: _,
            nodes,
            edges,
            created_at,
        } = self;
        let mut rest = nodes;
        let ghost orig = rest@;
        let mut out: Vec<(String, wire::Node)> = Vec::new();
        while rest.len() > 0
            invariant
                orig == mg.nodes@,
                out@.len() + rest@.len() == orig.len(),
                rest@ == orig.subrange(out@.len() as int, orig.len() as int),
                forall|j: int| 0 <= j < out@.len() ==> #[trigger] out@[j] == entry_to_wire(
                    orig[j],
                ),
            decreases rest@.len(),
        {
            let ghost j0 = out@.len() as int;
            proof {
                assert(rest@[0] == orig[j0]);
            }
            let (key, node) = rest.remove(0);
            out.push((key, node_into_wire(node)));
            proof {
                assert(rest@ =~= orig.subrange(out@.len() as int, orig.len() as int));
            }
        }
        let w = wire::ComputeGraph {
            name,
            namespace,
            description,
            start_node: node_into_wire(start_node),
            nodes: out,
            edges,
            created_at,
        };
        proof {
            assert(w.nodes@ =~= mg.nodes@.map_values(
                |p: (String, model::Node)| entry_to_wire(p),
            ));
        }
        w
    }
}

impl wire::ComputeGraph {
    /// Translate this wire submission into the internal model against the
    /// code bundle stored at `code_path` with the given content hash and
    /// size.
    pub fn into_data_model(self, code_path: &str, sha256_hash: &str, size: u64) -> (r: Result<
        model::ComputeGraph,
        SchemaError,
    >)
        ensures
            match r {
                Ok(m) => {
                    &&& wire_names_consistent(self)
                    &&& translates(self, m.code, m)
                    &&& m.code.sha256_hash@ == sha256_hash@
                    &&& m.code.size == size
                    &&& m.code.path@ == code_path@
                    &&& m.version == GraphVersion::initial_spec()
                    &&& m.created_at == 0
                    &&& m.wf()
                },
                Err(e) => rejects_name_mismatch(self, e),
            },
    {
        let code = ComputeGraphCode {
            sha256_hash: sha256_hash.to_owned(),
            size,
            path: code_path.to_owned(),
        };
        model::ComputeGraph::from_wire(self, code)
    }
}

impl wire::Namespace {
    /// Reshape an internal namespace for the wire, field for field.
    pub fn from_data_model(namespace: model::Namespace) -> (r: wire::Namespace)
        ensures
            r.name == namespace.name,
            r.created_at == namespace.created_at,
    {
        wire::Namespace { name: namespace.name, created_at: namespace.created_at }
    }
}

/// Round-trip law: for an internal graph whose node keys match the
/// declared names, translating to the wire and back succeeds and restores
/// the graph field for field, with version and creation time held fixed
/// (they are populated by the internal side, not carried by the wire).
pub proof fn lemma_round_trip(
    m: model::ComputeGraph,
    w: wire::ComputeGraph,
    m2: model::ComputeGraph,
    code: ComputeGraphCode,
)
    requires
        m.wf(),
        wire_form_of(m, w),
        translates(w, code, m2),
    ensures
        wire_names_consistent(w),
        m2.name == m.name,
        m2.namespace == m.namespace,
        m2.description == m.description,
        m2.start_node == m.start_node,
        m2.nodes@ == m.nodes@,
        m2.edges == m.edges,
        m2.code == code,
{
    assert forall|i: int| 0 <= i < w.nodes@.len() implies (#[trigger] w.nodes@[i]).0@
        == w.nodes@[i].1.name_spec()@ by {
        assert(w.nodes@[i] == entry_to_wire(m.nodes@[i]));
        lemma_node_name_preserved_to_wire(m.nodes@[i].1);
    }
    lemma_node_round_trip(m.start_node);
    assert forall|i: int| 0 <= i < m2.nodes@.len() implies #[trigger] m2.nodes@[i]
        == m.nodes@[i] by {
        assert(w.nodes@[i] == entry_to_wire(m.nodes@[i]));
        assert(m2.nodes@[i] == entry_from_wire(w.nodes@[i]));
        lemma_node_round_trip(m.nodes@[i].1);
    }
    assert(m2.nodes@ =~= m.nodes@);
}

} // verus!

//! The internal, execution-ready model: what storage and execution
//! collaborators consume. A graph is created from a validated wire
//! submission, is immutable once stored under a version, and is superseded
//! (never mutated) by later versions.

use vstd::prelude::*;

use crate::artifact::ComputeGraphCode;
use crate::version::GraphVersion;

verus! {

/// A plain compute step, internal form.
#[derive(Clone, Debug, PartialEq, Eq)]
pub struct ComputeFn {
    /// Unique key of the step within its graph.
    pub name: String,
    /// Implementation entry point.
    pub function_name: String,
    pub description: String,
    /// When set, repeated invocations fold into one accumulated result.
    pub is_reducer: bool,
}

/// A dynamic-routing step, internal form: routes the output of
/// `source_step` to one of `target_steps`, chosen at runtime.
#[derive(Clone, Debug, PartialEq, Eq)]
pub struct DynamicEdgeRouter {
    /// Unique key of the router within its graph.
    pub name: String,
    /// The step whose output this router routes.
    pub source_step: String,
    pub description: String,
    /// Ordered candidate next steps; the authoritative source of this
    /// router's possible destinations.
    pub target_steps: Vec<String>,
}

/// One pipeline step of the internal model: a closed sum over the two
/// known variants, handled exhaustively wherever a node is consumed.
#[derive(Clone, Debug, PartialEq, Eq)]
pub enum Node {
    Router(DynamicEdgeRouter),
    Compute(ComputeFn),
}

impl Node {
    /// The node's declared name, uniform over the variants.
    pub open spec fn name_spec(self) -> String {
        match self {
            Node::Router(d) => d.name,
            Node::Compute(c) => c.name,
        }
    }

    /// Read-only projection of the declared name.
    pub fn name(&self) -> (r: String)
        ensures
            r == self.name_spec(),
    {
        match self {
            Node::Router(d) => d.name.clone(),
            Node::Compute(c) => c.name.clone(),
        }
    }
}

/// The internal pipeline definition. `nodes` is an association list from
/// node name to node (unique keys, each equal to the declared name of the
/// node under it — see [`ComputeGraph::wf`]); `edges` maps a source node
/// name to its ordered static destinations.
#[derive(Clone, Debug, PartialEq, Eq)]
pub struct ComputeGraph {
    pub name: String,
    /// Isolation scope; opaque to the schema core.
    pub namespace: String,
    pub description: String,
    /// The pipeline entry point.
    pub start_node: Node,
    /// Version assigned at the storage boundary, strictly increasing per
    /// `(namespace, name)`.
    pub version: GraphVersion,
    /// The code artifact implementing the graph's functions.
    pub code: ComputeGraphCode,
    pub nodes: Vec<(String, Node)>,
    pub edges: Vec<(String, Vec<String>)>,
    /// Creation time, epoch milliseconds; assigned by the internal side.
    pub created_at: u64,
}

impl ComputeGraph {
    /// Name consistency: every node stored under key `k` declares `k` as
    /// its own name.
    pub open spec fn wf(self) -> bool {
        forall|i: int|
            0 <= i < self.nodes@.len() ==> (#[trigger] self.nodes@[i]).0@
                == self.nodes@[i].1.name_spec()@
    }
}

/// A namespace, internal form.
#[derive(Clone, Debug, PartialEq, Eq)]
pub struct Namespace {
    pub name: String,
    /// Creation time, epoch milliseconds.
    pub created_at: u64,
}

/// Outcome of one executed task, as execution state reports it.
#[derive(Clone, Copy, Debug, PartialEq, Eq, Structural)]
pub enum TaskOutcome {
    Unknown,
    Success,
    Failure,
}

/// A task read-model over execution state owned elsewhere.
#[derive(Clone, Debug, PartialEq, Eq)]
pub struct Task {
    pub id: String,
    pub namespace: String,
    pub compute_fn_name: String,
    pub compute_graph_name: String,
    pub invocation_id: String,
    pub input_node_output_key: String,
    pub outcome: TaskOutcome,
    pub reducer_output_id: Option<String>,
    /// The graph version the task ran against.
    pub graph_version: GraphVersion,
}

/// An output produced by one node invocation.
#[derive(Clone, Debug, PartialEq, Eq)]
pub struct NodeOutput {
    pub id: String,
    pub compute_fn_name: String,
}

} // verus!

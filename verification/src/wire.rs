//! Wire-transmissible shapes: what clients submit and read back. Field
//! names are the cross-language contract; node variant tags are never
//! renamed and unknown tags are rejected, not ignored.

use vstd::prelude::*;

use crate::errors::SchemaError;

verus! {

/// A plain compute step of a pipeline.
#[derive(Clone, Debug, PartialEq, Eq)]
pub struct ComputeFn {
    /// Unique key of the step within its graph.
    pub name: String,
    /// Entry point implementing the step.
    pub fn_name: String,
    pub description: String,
    /// When set, repeated invocations fold into one accumulated result
    /// instead of fanning out.
    pub reducer: bool,
}

/// A dynamic-routing step: at runtime it forwards the output of
/// `source_fn` to one of the candidate steps in `target_fns`.
#[derive(Clone, Debug, PartialEq, Eq)]
pub struct DynamicRouter {
    /// Unique key of the router within its graph.
    pub name: String,
    /// The step whose output this router routes.
    pub source_fn: String,
    pub description: String,
    /// Ordered candidate next steps, chosen among at runtime.
    pub target_fns: Vec<String>,
}

/// One pipeline step: a closed sum over the two known variants. On the
/// wire a node is a single-key tagged object; the key is the sole variant
/// discriminator (see [`kind_for_tag`]).
#[derive(Clone, Debug, PartialEq, Eq)]
pub enum Node {
    DynamicRouter(DynamicRouter),
    ComputeFn(ComputeFn),
}

/// The two node variants, as the tag layer discriminates them.
#[derive(Clone, Copy, Debug, PartialEq, Eq, Structural)]
pub enum NodeKind {
    Compute,
    Router,
}

impl Node {
    /// The node's declared name, uniform over the variants.
    pub open spec fn name_spec(self) -> String {
        match self {
            Node::DynamicRouter(d) => d.name,
            Node::ComputeFn(c) => c.name,
        }
    }

    /// The variant of this node.
    pub open spec fn kind_spec(self) -> NodeKind {
        match self {
            Node::DynamicRouter(_) => NodeKind::Router,
            Node::ComputeFn(_) => NodeKind::Compute,
        }
    }

    /// Read-only projection of the declared name; no caller needs to
    /// discriminate the variant first.
    pub fn name(&self) -> (r: String)
        ensures
            r == self.name_spec(),
    {
        match self {
            Node::DynamicRouter(d) => d.name.clone(),
            Node::ComputeFn(c) => c.name.clone(),
        }
    }

    /// The tag under which this node is encoded on the wire. Inverse of
    /// [`kind_for_tag`]: the tag of a node classifies back to the node's
    /// own variant.
    pub fn wire_tag(&self) -> (r: &'static str)
        ensures
            kind_for_tag(r@) == Some(self.kind_spec()),
    {
        proof {
            reveal_strlit("compute_fn");
            reveal_strlit("dynamic_router");
            assert("compute_fn"@.len() != "dynamic_router"@.len());
        }
        match self {
            Node::DynamicRouter(_) => "dynamic_router",
            Node::ComputeFn(_) => "compute_fn",
        }
    }
}

/// The variant a wire tag selects, if any: `"compute_fn"` and
/// `"dynamic_router"` are the only tags ever accepted.
pub open spec fn kind_for_tag(tag: Seq<char>) -> Option<NodeKind> {
    if tag == "compute_fn"@ {
        Some(NodeKind::Compute)
    } else if tag == "dynamic_router"@ {
        Some(NodeKind::Router)
    } else {
        None
    }
}

/// Classify the single-key tag of a wire node object. An unknown tag is a
/// client fault ([`SchemaError::MalformedNode`] carrying the tag), never a
/// crash and never a silent drop.
pub fn classify_tag(tag: &str) -> (r: Result<NodeKind, SchemaError>)
    ensures
        match r {
            Ok(k) => kind_for_tag(tag@) == Some(k),
            Err(e) => {
                &&& kind_for_tag(tag@) is None
                &&& e matches SchemaError::MalformedNode(t) && t@ == tag@
            },
        },
{
    if crate::text::str_equal(tag, "compute_fn") {
        Ok(NodeKind::Compute)
    } else if crate::text::str_equal(tag, "dynamic_router") {
        Ok(NodeKind::Router)
    } else {
        Err(SchemaError::MalformedNode(tag.to_owned()))
    }
}

/// Variant exhaustiveness law: an accepted tag is one of the two known
/// ones, and an accepted tag determines the variant uniquely — two tags
/// that classify to the same variant are the same tag.
pub proof fn lemma_variant_exhaustive(t1: Seq<char>, t2: Seq<char>)
    ensures
        kind_for_tag(t1) is Some ==> t1 == "compute_fn"@ || t1 == "dynamic_router"@,
        kind_for_tag(t1) is Some && kind_for_tag(t1) == kind_for_tag(t2) ==> t1 == t2,
        kind_for_tag("compute_fn"@) == Some(NodeKind::Compute),
        kind_for_tag("dynamic_router"@) == Some(NodeKind::Router),
{
    reveal_strlit("compute_fn");
    reveal_strlit("dynamic_router");
    assert("compute_fn"@.len() != "dynamic_router"@.len());
}

/// The full pipeline definition as submitted and read back. `nodes` and
/// `edges` are association lists with unique keys; `edges[a] = [b, c]`
/// means `a`'s static output fans out to `b` and `c`. `created_at` is
/// optional on input (the boundary fills in the current time) and always
/// present on output.
#[derive(Clone, Debug, PartialEq, Eq)]
pub struct ComputeGraph {
    pub name: String,
    /// Isolation scope; opaque to the schema core.
    pub namespace: String,
    pub description: String,
    /// The pipeline entry point.
    pub start_node: Node,
    /// Mapping from node name to node; each key must equal the declared
    /// name of the node stored under it.
    pub nodes: Vec<(String, Node)>,
    /// Mapping from source node name to its ordered destinations.
    pub edges: Vec<(String, Vec<String>)>,
    /// Creation time, epoch milliseconds.
    pub created_at: u64,
}

/// A namespace: an isolation scope for graphs.
#[derive(Clone, Debug, PartialEq, Eq)]
pub struct Namespace {
    pub name: String,
    pub created_at: u64,
}

#[derive(Clone, Debug, PartialEq, Eq)]
pub struct NamespaceList {
    pub namespaces: Vec<Namespace>,
}

#[derive(Clone, Debug, PartialEq, Eq)]
pub struct CreateNamespace {
    pub name: String,
}

#[derive(Clone, Debug, PartialEq, Eq)]
pub struct CreateNamespaceResponse {
    pub name: Namespace,
}

/// Paging parameters for listing calls.
#[derive(Clone, Debug, PartialEq, Eq)]
pub struct ListParams {
    pub limit: Option<usize>,
    pub cursor: Option<Vec<u8>>,
}

#[derive(Clone, Debug, PartialEq, Eq)]
pub struct ComputeGraphsList {
    pub compute_graphs: Vec<ComputeGraph>,
    pub cursor: Option<Vec<u8>>,
}

/// A stored payload, content-addressed like a code artifact.
#[derive(Clone, Debug, PartialEq, Eq)]
pub struct DataObject {
    pub id: String,
    pub payload_size: u64,
    pub payload_sha_256: String,
}

#[derive(Clone, Debug, PartialEq, Eq)]
pub struct QueryParams {
    pub input_id: Option<String>,
    pub on_graph_end: bool,
}

#[derive(Clone, Debug, PartialEq, Eq)]
pub struct GraphOutputNotification {
    pub output_id: String,
    pub compute_graph: String,
    pub fn_name: String,
}

#[derive(Clone, Debug, PartialEq, Eq)]
pub struct GraphInvocations {
    pub invocations: Vec<DataObject>,
    pub cursor: Option<Vec<u8>>,
}

/// Outputs of one invocation, keyed by the function that produced them.
#[derive(Clone, Debug, PartialEq, Eq)]
pub struct InvocationResult {
    pub outputs: Vec<(String, Vec<DataObject>)>,
    pub cursor: Option<String>,
}

#[derive(Clone, Debug, PartialEq, Eq)]
pub struct InvocationId {
    pub id: String,
}

#[derive(Clone, Debug, PartialEq, Eq)]
pub struct InvocationQueryParams {
    pub block_until_finish: Option<bool>,
}

} // verus!

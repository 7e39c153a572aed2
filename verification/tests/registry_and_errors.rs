use graph_schema::artifact::ComputeGraphCode;
use graph_schema::errors::{
    IndexifyAPIError, SchemaError, STATUS_BAD_REQUEST, STATUS_INTERNAL_ERROR, STATUS_NOT_FOUND,
};
use graph_schema::model;
use graph_schema::registry::GraphRegistry;
use graph_schema::tasks::{FnOutput, Task, TaskOutcome};
use graph_schema::version::GraphVersion;
use graph_schema::wire;

fn compute(name: &str) -> wire::Node {
    wire::Node::ComputeFn(wire::ComputeFn {
        name: name.to_string(),
        fn_name: name.to_string(),
        description: String::new(),
        reducer: false,
    })
}

fn submission(namespace: &str, name: &str, description: &str) -> wire::ComputeGraph {
    wire::ComputeGraph {
        name: name.to_string(),
        namespace: namespace.to_string(),
        description: description.to_string(),
        start_node: compute("a"),
        nodes: vec![("a".to_string(), compute("a"))],
        edges: vec![],
        created_at: 0,
    }
}

fn code(hash: &str) -> ComputeGraphCode {
    ComputeGraphCode {
        sha256_hash: hash.to_string(),
        size: 1,
        path: "p".to_string(),
    }
}

#[test]
fn resubmission_mints_strictly_greater_version() {
    let mut reg = GraphRegistry::new();
    let v1 = reg
        .submit(submission("ns", "g", "first body"), code("h1"))
        .unwrap();
    let v2 = reg
        .submit(submission("ns", "g", "second body"), code("h2"))
        .unwrap();
    assert_eq!(v1, GraphVersion(1));
    assert_eq!(v2, GraphVersion(2));
    assert!(v2 > v1);
    // Both versions stay retrievable: superseded, never overwritten.
    let first = reg.get("ns", "g", v1).expect("first version kept");
    let second = reg.get("ns", "g", v2).expect("second version kept");
    assert_eq!(first.description, "first body");
    assert_eq!(second.description, "second body");
    assert_eq!(reg.len(), 2);
}

#[test]
fn versions_are_scoped_per_namespace_and_name() {
    let mut reg = GraphRegistry::new();
    let a1 = reg.submit(submission("ns", "a", ""), code("h")).unwrap();
    let b1 = reg.submit(submission("ns", "b", ""), code("h")).unwrap();
    let other = reg.submit(submission("other", "a", ""), code("h")).unwrap();
    let a2 = reg.submit(submission("ns", "a", "v2"), code("h")).unwrap();
    assert_eq!(a1, GraphVersion(1));
    assert_eq!(b1, GraphVersion(1));
    assert_eq!(other, GraphVersion(1));
    assert_eq!(a2, GraphVersion(2));
}

#[test]
fn rejected_submission_stores_nothing() {
    let mut reg = GraphRegistry::new();
    let mut bad = submission("ns", "g", "");
    bad.nodes[0].0 = "wrong_key".to_string();
    match reg.submit(bad, code("h")) {
        Err(SchemaError::NodeNameMismatch(key)) => assert_eq!(key, "wrong_key"),
        other => panic!("expected a rejection, got {:?}", other),
    }
    assert_eq!(reg.len(), 0);
    assert!(reg.get("ns", "g", GraphVersion(1)).is_none());
}

#[test]
fn get_misses_on_wrong_key_or_version() {
    let mut reg = GraphRegistry::new();
    let v = reg.submit(submission("ns", "g", ""), code("h")).unwrap();
    assert!(reg.get("ns", "g", v).is_some());
    assert!(reg.get("ns", "g", GraphVersion(2)).is_none());
    assert!(reg.get("ns", "other", v).is_none());
    assert!(reg.get("other", "g", v).is_none());
}

#[test]
fn api_error_kinds_stay_apart() {
    let bad = IndexifyAPIError::bad_request("malformed node");
    assert_eq!(bad.status_code(), STATUS_BAD_REQUEST);
    assert_eq!(bad.message().as_str(), "malformed node");
    let missing = IndexifyAPIError::not_found("no such graph");
    assert_eq!(missing.status_code(), STATUS_NOT_FOUND);
    assert_eq!(missing.message().as_str(), "no such graph");
    let internal = IndexifyAPIError::internal_error_str("storage unavailable");
    assert_eq!(internal.status_code(), STATUS_INTERNAL_ERROR);
    assert_eq!(internal.message().as_str(), "storage unavailable");
    let custom = IndexifyAPIError::new(418, "teapot");
    assert_eq!(custom.status_code(), 418);
}

#[test]
fn schema_errors_surface_as_client_faults() {
    let malformed = SchemaError::MalformedNode("unknown_kind".to_string());
    let api = malformed.to_api_error();
    assert_eq!(api.status_code(), STATUS_BAD_REQUEST);
    assert_eq!(api.message().as_str(), "unknown_kind");
    let mismatch = SchemaError::NodeNameMismatch("b".to_string());
    assert_eq!(mismatch.to_api_error().status_code(), STATUS_BAD_REQUEST);
}

#[test]
fn task_reshaped_field_for_field() {
    let internal = model::Task {
        id: "t1".to_string(),
        namespace: "ns".to_string(),
        compute_fn_name: "fn_a".to_string(),
        compute_graph_name: "g".to_string(),
        invocation_id: "inv".to_string(),
        input_node_output_key: "key".to_string(),
        outcome: model::TaskOutcome::Success,
        reducer_output_id: Some("red".to_string()),
        graph_version: GraphVersion(3),
    };
    let t = Task::from_data_model(internal);
    assert_eq!(t.id, "t1");
    assert_eq!(t.namespace, "ns");
    assert_eq!(t.compute_fn, "fn_a");
    assert_eq!(t.compute_graph, "g");
    assert_eq!(t.invocation_id, "inv");
    assert_eq!(t.input_key, "key");
    assert_eq!(t.outcome, TaskOutcome::Success);
    assert_eq!(t.reducer_output_id, Some("red".to_string()));
    assert_eq!(t.graph_version, GraphVersion(3));
}

#[test]
fn every_outcome_has_one_wire_form() {
    assert_eq!(
        TaskOutcome::from_data_model(model::TaskOutcome::Unknown),
        TaskOutcome::Unknown
    );
    assert_eq!(
        TaskOutcome::from_data_model(model::TaskOutcome::Success),
        TaskOutcome::Success
    );
    assert_eq!(
        TaskOutcome::from_data_model(model::TaskOutcome::Failure),
        TaskOutcome::Failure
    );
}

#[test]
fn outputs_and_namespaces_reshape() {
    let out = FnOutput::from_data_model(model::NodeOutput {
        id: "o1".to_string(),
        compute_fn_name: "fn_a".to_string(),
    });
    assert_eq!(out.id, "o1");
    assert_eq!(out.compute_fn, "fn_a");
    let ns = wire::Namespace::from_data_model(model::Namespace {
        name: "ns".to_string(),
        created_at: 99,
    });
    assert_eq!(ns.name, "ns");
    assert_eq!(ns.created_at, 99);
}

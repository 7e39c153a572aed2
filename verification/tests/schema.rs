use graph_schema::artifact::ComputeGraphCode;
use graph_schema::convert;
use graph_schema::errors::SchemaError;
use graph_schema::model;
use graph_schema::version::GraphVersion;
use graph_schema::wire;

fn compute(name: &str) -> wire::Node {
    wire::Node::ComputeFn(wire::ComputeFn {
        name: name.to_string(),
        fn_name: name.to_string(),
        description: format!("step {}", name),
        reducer: false,
    })
}

fn entry(name: &str) -> (String, wire::Node) {
    (name.to_string(), compute(name))
}

fn code(hash: &str) -> ComputeGraphCode {
    ComputeGraphCode {
        sha256_hash: hash.to_string(),
        size: 42,
        path: format!("store/{}", hash),
    }
}

fn linear_graph() -> wire::ComputeGraph {
    wire::ComputeGraph {
        name: "pipeline".to_string(),
        namespace: "test".to_string(),
        description: "three steps in a row".to_string(),
        start_node: compute("a"),
        nodes: vec![entry("a"), entry("b"), entry("c")],
        edges: vec![
            ("a".to_string(), vec!["b".to_string()]),
            ("b".to_string(), vec!["c".to_string()]),
        ],
        created_at: 1000,
    }
}

#[test]
fn linear_pipeline_preserved() {
    let g = linear_graph();
    let m = model::ComputeGraph::from_wire(g, code("h1")).unwrap();
    assert_eq!(m.name, "pipeline");
    assert_eq!(m.namespace, "test");
    assert_eq!(m.start_node.name(), "a");
    assert_eq!(m.nodes.len(), 3);
    assert_eq!(m.nodes[0].0, "a");
    assert_eq!(m.nodes[1].0, "b");
    assert_eq!(m.nodes[2].0, "c");
    assert_eq!(m.version, GraphVersion(0));
    assert_eq!(m.created_at, 0);
    assert_eq!(
        m.edges,
        vec![
            ("a".to_string(), vec!["b".to_string()]),
            ("b".to_string(), vec!["c".to_string()]),
        ]
    );
    let w = m.to_wire();
    assert_eq!(w.name, "pipeline");
    assert_eq!(w.namespace, "test");
    assert_eq!(w.start_node.name(), "a");
    assert_eq!(
        w.edges,
        vec![
            ("a".to_string(), vec!["b".to_string()]),
            ("b".to_string(), vec!["c".to_string()]),
        ]
    );
    assert_eq!(w.created_at, 0);
}

#[test]
fn wire_round_trip_field_for_field() {
    let g = linear_graph();
    let g_copy = linear_graph();
    let m = model::ComputeGraph::from_wire(g, code("h1")).unwrap();
    let w = m.to_wire();
    // Every wire field except created_at (populated by the internal side)
    // comes back exactly as submitted.
    assert_eq!(w.name, g_copy.name);
    assert_eq!(w.namespace, g_copy.namespace);
    assert_eq!(w.description, g_copy.description);
    assert_eq!(w.start_node, g_copy.start_node);
    assert_eq!(w.nodes, g_copy.nodes);
    assert_eq!(w.edges, g_copy.edges);
}

#[test]
fn router_pipeline_preserved() {
    let router = wire::Node::DynamicRouter(wire::DynamicRouter {
        name: "router_x".to_string(),
        source_fn: "a".to_string(),
        description: String::new(),
        target_fns: vec!["y".to_string(), "z".to_string()],
    });
    let g = wire::ComputeGraph {
        name: "routed".to_string(),
        namespace: "test".to_string(),
        description: String::new(),
        start_node: compute("a"),
        nodes: vec![
            entry("a"),
            ("router_x".to_string(), router.clone()),
            entry("y"),
            entry("z"),
            entry("c"),
        ],
        edges: vec![
            ("a".to_string(), vec!["router_x".to_string()]),
            ("y".to_string(), vec!["c".to_string()]),
            ("z".to_string(), vec!["c".to_string()]),
        ],
        created_at: 0,
    };
    assert_eq!(router.name(), "router_x");
    let m = model::ComputeGraph::from_wire(g, code("h2")).unwrap();
    match &m.nodes[1].1 {
        model::Node::Router(r) => {
            assert_eq!(r.name, "router_x");
            assert_eq!(r.source_step, "a");
            assert_eq!(r.target_steps, vec!["y".to_string(), "z".to_string()]);
        }
        model::Node::Compute(_) => panic!("router variant lost in translation"),
    }
    assert_eq!(
        m.edges,
        vec![
            ("a".to_string(), vec!["router_x".to_string()]),
            ("y".to_string(), vec!["c".to_string()]),
            ("z".to_string(), vec!["c".to_string()]),
        ]
    );
    let w = m.to_wire();
    assert_eq!(w.nodes[1].1, router);
}

#[test]
fn unknown_tag_rejected() {
    match wire::classify_tag("unknown_kind") {
        Err(SchemaError::MalformedNode(tag)) => assert_eq!(tag, "unknown_kind"),
        other => panic!("unknown tag must be a client fault, got {:?}", other),
    }
}

#[test]
fn known_tags_classify() {
    assert_eq!(wire::classify_tag("compute_fn").unwrap(), wire::NodeKind::Compute);
    assert_eq!(wire::classify_tag("dynamic_router").unwrap(), wire::NodeKind::Router);
    assert!(wire::classify_tag("compute_fn ").is_err());
    assert!(wire::classify_tag("").is_err());
}

#[test]
fn wire_tag_matches_variant() {
    let c = compute("a");
    let r = wire::Node::DynamicRouter(wire::DynamicRouter {
        name: "r".to_string(),
        source_fn: "a".to_string(),
        description: String::new(),
        target_fns: vec![],
    });
    assert_eq!(c.wire_tag(), "compute_fn");
    assert_eq!(r.wire_tag(), "dynamic_router");
    assert_eq!(wire::classify_tag(c.wire_tag()).unwrap(), wire::NodeKind::Compute);
    assert_eq!(wire::classify_tag(r.wire_tag()).unwrap(), wire::NodeKind::Router);
}

#[test]
fn node_name_uniform() {
    let c = compute("alpha");
    assert_eq!(c.name(), "alpha");
    let r = wire::Node::DynamicRouter(wire::DynamicRouter {
        name: "beta".to_string(),
        source_fn: "alpha".to_string(),
        description: String::new(),
        target_fns: vec![],
    });
    assert_eq!(r.name(), "beta");
}

#[test]
fn name_mismatch_rejected_not_renamed() {
    let mut g = linear_graph();
    // Store the node declared "a" under the key "b".
    g.nodes[0].0 = "b".to_string();
    match model::ComputeGraph::from_wire(g, code("h1")) {
        Err(SchemaError::NodeNameMismatch(key)) => assert_eq!(key, "b"),
        other => panic!("mismatched key must be rejected, got {:?}", other),
    }
}

#[test]
fn into_data_model_binds_artifact() {
    let g = linear_graph();
    let m = g.into_data_model("store/bundle", "abc123", 7).unwrap();
    assert_eq!(m.code.path, "store/bundle");
    assert_eq!(m.code.sha256_hash, "abc123");
    assert_eq!(m.code.size, 7);
    assert_eq!(m.version, GraphVersion(0));
}

#[test]
fn node_conversions_invert() {
    let c = compute("a");
    let back = convert::node_into_wire(convert::node_into_data_model(c.clone()));
    assert_eq!(back, c);
}

#[test]
fn artifact_identity_is_the_hash() {
    let a = ComputeGraphCode {
        sha256_hash: "same".to_string(),
        size: 1,
        path: "one/place".to_string(),
    };
    let b = ComputeGraphCode {
        sha256_hash: "same".to_string(),
        size: 2,
        path: "another/place".to_string(),
    };
    let c = ComputeGraphCode {
        sha256_hash: "other".to_string(),
        size: 1,
        path: "one/place".to_string(),
    };
    assert!(a.same_code(&b));
    assert!(b.same_code(&a));
    assert!(!a.same_code(&c));
}

#[test]
fn empty_graph_translates() {
    let g = wire::ComputeGraph {
        name: "empty".to_string(),
        namespace: "test".to_string(),
        description: String::new(),
        start_node: compute("a"),
        nodes: vec![],
        edges: vec![],
        created_at: 5,
    };
    let m = model::ComputeGraph::from_wire(g, code("h")).unwrap();
    assert!(m.nodes.is_empty());
    assert!(m.edges.is_empty());
    let w = m.to_wire();
    assert!(w.nodes.is_empty());
    assert_eq!(w.name, "empty");
}

#[test]
fn version_near_the_top_still_steps() {
    let v = GraphVersion(u64::MAX - 1).next();
    assert_eq!(v, GraphVersion(u64::MAX));
}

#[test]
fn version_steps_strictly() {
    assert_eq!(GraphVersion::default(), GraphVersion(0));
    assert_eq!(GraphVersion(0).next(), GraphVersion(1));
    assert_eq!(GraphVersion(41).next(), GraphVersion(42));
    assert!(GraphVersion(41).next() > GraphVersion(41));
}

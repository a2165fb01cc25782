use sentinel::knowledge::{
    select_strategy, Edge, KnowledgeGraph, Node, Property, PropertyValue, QuantumKnowledge,
};

fn prop(key: &str, rendered: &str, billionths: Option<i64>) -> Property {
    Property {
        key: key.to_string(),
        value: PropertyValue { rendered: rendered.to_string(), billionths },
    }
}

fn node(id: &str, node_type: &str, label: &str, properties: Vec<Property>) -> Node {
    Node {
        id: id.to_string(),
        node_type: node_type.to_string(),
        label: label.to_string(),
        properties,
    }
}

fn edge(source: &str, target: &str, relationship: &str) -> Edge {
    Edge {
        source: source.to_string(),
        target: target.to_string(),
        relationship: relationship.to_string(),
        properties: Vec::new(),
    }
}

fn graph_with_metric(metric: Option<Property>) -> QuantumKnowledge {
    let props = metric.into_iter().collect();
    QuantumKnowledge::new(KnowledgeGraph {
        nodes: vec![node("hw-ibm-heron", "Hardware", "IBM Heron", props)],
        edges: Vec::new(),
    })
}

#[test]
fn strategy_thresholds() {
    assert_eq!(select_strategy(500_000), ("Deep / High-Fidelity".to_string(), 4));
    assert_eq!(select_strategy(3_000_000), ("Balanced".to_string(), 2));
    assert_eq!(select_strategy(10_000_000), ("Shallow / Conservative".to_string(), 1));
}

#[test]
fn strategy_threshold_edges() {
    assert_eq!(select_strategy(999_999).1, 4);
    assert_eq!(select_strategy(1_000_000).1, 2);
    assert_eq!(select_strategy(4_999_999).1, 2);
    assert_eq!(select_strategy(5_000_000).1, 1);
    assert_eq!(select_strategy(-1).1, 4);
}

#[test]
fn inference_from_graph() {
    let kb = graph_with_metric(Some(prop("eplg", "\"3.7E-3\"", Some(3_700_000))));
    assert_eq!(kb.infer_optimal_strategy("hw-ibm-heron"), ("Balanced".to_string(), 2));
    let kb = graph_with_metric(Some(prop("eplg", "0.0005", Some(500_000))));
    assert_eq!(kb.infer_optimal_strategy("hw-ibm-heron"), ("Deep / High-Fidelity".to_string(), 4));
}

#[test]
fn inference_defaults() {
    let kb = graph_with_metric(None);
    assert_eq!(kb.infer_optimal_strategy("hw-ibm-heron"), ("Standard".to_string(), 1));
    assert_eq!(kb.infer_optimal_strategy("hw-other"), ("Standard".to_string(), 1));
    let kb = graph_with_metric(Some(prop("eplg", "\"n/a\"", None)));
    assert_eq!(kb.infer_optimal_strategy("hw-ibm-heron"), ("Shallow / Conservative".to_string(), 1));
}

#[test]
fn later_node_with_same_id_wins() {
    let kb = QuantumKnowledge::new(KnowledgeGraph {
        nodes: vec![
            node("a", "Algorithm", "First", Vec::new()),
            node("b", "Algorithm", "Other", Vec::new()),
            node("a", "Algorithm", "Second", Vec::new()),
        ],
        edges: Vec::new(),
    });
    assert_eq!(kb.get_node("a").map(|n| n.label.clone()), Some("Second".to_string()));
    assert!(kb.get_node("c").is_none());
    assert!(kb.get_device_specs("c").is_none());
    assert_eq!(kb.get_device_specs("b").map(|p| p.len()), Some(0));
}

fn sample_graph() -> QuantumKnowledge {
    QuantumKnowledge::new(KnowledgeGraph {
        nodes: vec![
            node(
                "algo-qaoa",
                "Algorithm",
                "QAOA",
                vec![
                    prop("description", "\"Approximate optimisation\"", None),
                    prop("speedup", "\"Heuristic\"", None),
                ],
            ),
            node("prob-maxcut", "Problem", "MaxCut", Vec::new()),
            node("hw-ibm-heron", "Hardware", "IBM Heron", Vec::new()),
        ],
        edges: vec![
            edge("algo-qaoa", "prob-maxcut", "SOLVES"),
            edge("prob-maxcut", "algo-qaoa", "SOLVED_BY"),
            edge("algo-qaoa", "missing", "MENTIONS"),
            edge("algo-qaoa", "hw-ibm-heron", "RUNS_ON"),
        ],
    })
}

#[test]
fn related_edges_keep_order() {
    let kb = sample_graph();
    let rel: Vec<String> = kb.get_related("algo-qaoa").iter().map(|e| e.relationship.clone()).collect();
    assert_eq!(rel, vec!["SOLVES", "MENTIONS", "RUNS_ON"]);
    assert!(kb.get_related("hw-ibm-heron").is_empty());
}

#[test]
fn describe_known_node() {
    let kb = sample_graph();
    assert_eq!(
        kb.describe_algorithm("algo-qaoa"),
        "Algorithm: QAOA (Algorithm)\n  Description: \"Approximate optimisation\"\n  Speedup: \"Heuristic\"\n  Context:\n    --[SOLVES]--> MaxCut (Problem)\n    --[RUNS_ON]--> IBM Heron (Hardware)\n"
    );
    assert_eq!(kb.describe_algorithm("hw-ibm-heron"), "Algorithm: IBM Heron (Hardware)\n");
}

#[test]
fn describe_missing_node() {
    let kb = sample_graph();
    assert_eq!(kb.describe_algorithm("nope"), "Algorithm nope not found in Knowledge Graph.");
}

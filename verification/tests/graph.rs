use rooc::primitives::graph::{edge_text, graph_text, node_text};
use rooc::primitives::graph::{Graph, GraphEdge, GraphNode};
use rooc::primitives::primitive::PrimitiveKind;
use rooc::primitives::primitive_traits::ApplyOp;
use rooc::math::operators::{BinOp, UnOp};
use rooc::parser::model_transformer::transform_error::TransformError;

fn edge(from: &str, to: &str, w: Option<f64>) -> GraphEdge {
    GraphEdge::new(from.to_string(), to.to_string(), w.map(f64::to_bits))
}

fn describe(edges: &[GraphEdge]) -> Vec<String> {
    edges
        .iter()
        .map(|e| match e.weight {
            Some(w) => format!("{}->{}:{}", e.from, e.to, f64::from_bits(w)),
            None => format!("{}->{}", e.from, e.to),
        })
        .collect()
}

fn sample() -> Graph {
    Graph::new(vec![
        GraphNode::new("A".to_string(), vec![edge("A", "B", Some(2.5)), edge("A", "C", None)]),
        GraphNode::new("B".to_string(), vec![edge("B", "C", Some(1.0))]),
        GraphNode::new("C".to_string(), vec![]),
    ])
}

#[test]
fn node_keeps_its_edges_in_order() {
    let n = GraphNode::new("A".to_string(), vec![edge("A", "B", None), edge("A", "C", Some(3.0))]);
    assert_eq!(n.name(), "A");
    assert_eq!(describe(&n.to_edges()), vec!["A->B", "A->C:3"]);
}

#[test]
fn law_one_edge_per_target_the_last_one() {
    let n = GraphNode::new(
        "A".to_string(),
        vec![
            edge("A", "B", Some(1.0)),
            edge("A", "C", None),
            edge("A", "B", Some(7.0)),
            edge("A", "D", None),
            edge("A", "C", Some(2.0)),
        ],
    );
    // targets in order of first appearance, each with its last edge
    assert_eq!(describe(&n.to_edges()), vec!["A->B:7", "A->C:2", "A->D"]);
}

#[test]
fn graph_edges_and_nodes() {
    let g = sample();
    assert_eq!(g.nodes().len(), 3);
    assert_eq!(g.vertices()[1].name(), "B");
    assert_eq!(describe(&sample().to_edges()), vec!["A->B:2.5", "A->C", "B->C:1"]);
    let names: Vec<String> = sample().to_nodes().iter().map(|n| n.name().clone()).collect();
    assert_eq!(names, vec!["A", "B", "C"]);
}

#[test]
fn neighbours_of_a_node() {
    let g = sample();
    let n = g.neighbour_of("A").ok().unwrap();
    let owned: Vec<GraphEdge> = n.iter().map(|e| GraphEdge::new(e.from.clone(), e.to.clone(), e.weight)).collect();
    assert_eq!(describe(&owned), vec!["A->B:2.5", "A->C"]);
    assert!(g.neighbour_of("C").ok().unwrap().is_empty());
    assert_eq!(describe(&sample().into_neighbours_of("B").ok().unwrap()), vec!["B->C:1"]);
}

#[test]
fn missing_node_is_an_error() {
    match sample().neighbour_of("Z") {
        Err(TransformError::Other(m)) => assert_eq!(m, "node Z not found in graph"),
        _ => panic!("expected an error"),
    }
    match sample().into_neighbours_of("a") {
        Err(e) => assert_eq!(e.to_string(), "[Other] node a not found in graph"),
        Ok(_) => panic!("expected an error"),
    }
}

#[test]
fn first_node_of_a_name_answers() {
    let g = Graph::new(vec![
        GraphNode::new("A".to_string(), vec![edge("A", "B", None)]),
        GraphNode::new("A".to_string(), vec![edge("A", "C", None)]),
    ]);
    assert_eq!(describe(&g.into_neighbours_of("A").ok().unwrap()), vec!["A->B"]);
}

#[test]
fn graphs_take_no_operators() {
    assert!(!<Graph as ApplyOp>::can_apply_binary_op(BinOp::Add, PrimitiveKind::Graph));
    assert!(!<GraphNode as ApplyOp>::can_apply_unary_op(UnOp::Neg));
    assert!(!<GraphEdge as ApplyOp>::can_apply_binary_op(BinOp::Iff, PrimitiveKind::Any));
}

#[test]
fn texts_of_nodes_and_graphs() {
    assert_eq!(edge_text("b", Some("2.5")), "b:2.5");
    assert_eq!(edge_text("b", None), "b");
    assert_eq!(node_text("a", &vec![]), "a");
    assert_eq!(node_text("a", &vec!["b:2".to_string(), "c".to_string()]), "a -> [ b:2, c ]");
    assert_eq!(graph_text(&vec![]), "Graph { }");
    assert_eq!(graph_text(&vec!["a -> [ b ]".to_string(), "b".to_string()]), "Graph {\n    a -> [ b ],\n    b\n}");
}

use graphs::errors::GraphError;
use graphs::Edge;
use graphs::Graph;
use graphs::Node;

#[test]
fn test_creating_nodes_and_edges() {
    let mut node_10 = Node::<(), f32>::new(10);
    let node_20 = Node::<(), f32>::new(20);
    let node_30 = Node::<(), f32>::new(30);
    let node_40 = Node::<(), f32>::new(40);

    node_10.add_edge(40, 2024.0);
    node_10.add_edge(20, 24.33);
    node_10.add_edge(30, 8902.0);

    assert!(node_10.number_of_edges() == 3);
    let edge = node_10.get_edge(20).unwrap();
    assert_eq!(edge.from_node, 10);
    assert_eq!(edge.to_node, 20);
    assert_eq!(edge.weight, 24.33);
    let _ = (node_20, node_30, node_40);
}

#[test]
fn test_creating_labelled_nodes() {
    let n10_label = String::from("Furniture");
    let node_10: Node<String, f32> = Node::with_label(10, n10_label);
    assert_eq!(node_10.label.unwrap(), String::from("Furniture"));
}

#[test]
fn test_creating_graph_objects_with_non_labelled_nodes() {
    let graph: Graph<(), f32> = Graph::new(5, false);
    assert_eq!(graph.capacity, 5);
}

#[test]
fn test_creating_graph_objects_with_labelled_nodes() {
    let graph: Graph<String, f32> = Graph::new(5, false);
    assert_eq!(graph.capacity, 5);

    let node_20: Node<String, f32> = Node::with_label(20, String::from("Furniture"));
    let node_30: Node<String, f32> = Node::with_label(30, String::from("Laptop"));
    let node_40: Node<String, f32> = Node::with_label(40, String::from("Clock"));
    let _ = (graph, node_20, node_30, node_40);
}

#[test]
fn test_creating_edges_in_graph() {
    let mut graph: Graph<String, f32> = Graph::new(5, false);
    assert_eq!(graph.capacity, 5);

    let node_20: Node<String, f32> = Node::with_label(20, String::from("Furniture"));
    let node_30: Node<String, f32> = Node::with_label(30, String::from("Laptop"));
    let node_40: Node<String, f32> = Node::with_label(40, String::from("Clock"));

    graph.insert_node(node_20);
    graph.insert_node(node_30);
    graph.insert_node(node_40);

    let edge = graph.insert_edge(40, 20, 1012.10);
    assert!(edge.unwrap().is_none());
    assert_eq!(graph.nodes.len(), 3);

    // Let's test the inserted edge
    let inserted = graph.get_edge(40, 20).unwrap();
    assert_eq!(inserted.from_node, 40);
    assert_eq!(inserted.to_node, 20);
    assert_eq!(inserted.weight, 1012.10);
}

#[test]
fn test_has_node() {
    let mut graph: Graph<String, f32> = Graph::new(5, false);
    assert_eq!(graph.capacity, 5);

    let node_20: Node<String, f32> = Node::with_label(20, String::from("Furniture"));
    let node_30: Node<String, f32> = Node::with_label(30, String::from("Laptop"));
    let node_40: Node<String, f32> = Node::with_label(40, String::from("Clock"));

    graph.insert_node(node_20);
    graph.insert_node(node_30);
    graph.insert_node(node_40);

    assert!(graph.has_node(30));
    assert!(!graph.has_node(400));
}

#[test]
fn test_edge_new_keeps_fields() {
    let edge: Edge<f32> = Edge::new(7, 9, 3.5);
    assert_eq!(edge.from_node, 7);
    assert_eq!(edge.to_node, 9);
    assert_eq!(edge.weight, 3.5);
}

#[test]
fn test_new_node_is_empty_and_unlabelled() {
    let node = Node::<String, f32>::new(10);
    assert_eq!(node.number_of_edges(), 0);
    assert!(node.label.is_none());
    let labelled = Node::<String, f32>::with_label(10, String::from("Furniture"));
    assert_eq!(labelled.number_of_edges(), 0);
    assert_eq!(labelled.label.unwrap(), String::from("Furniture"));
}

#[test]
fn test_add_edge_new_neighbor_increases_count() {
    let mut node = Node::<(), f32>::new(10);
    assert_eq!(node.number_of_edges(), 0);
    let prev = node.add_edge(20, 1.25);
    assert!(prev.is_none());
    assert_eq!(node.number_of_edges(), 1);
}

#[test]
fn test_readding_edge_keeps_count_and_returns_prior() {
    let mut node = Node::<(), f32>::new(10);
    node.add_edge(20, 1.25);
    assert_eq!(node.number_of_edges(), 1);
    let prev = node.add_edge(20, 2.5);
    match prev {
        Some(prior) => {
            assert_eq!(prior.from_node, 10);
            assert_eq!(prior.to_node, 20);
            assert_eq!(prior.weight, 1.25);
        }
        None => panic!("re-adding an existing edge must return the prior value"),
    }
    assert_eq!(node.number_of_edges(), 1);
    assert_eq!(node.get_edge(20).unwrap().weight, 2.5);
}

#[test]
fn test_remove_edge_idempotent() {
    let mut node = Node::<(), f32>::new(10);
    node.add_edge(20, 1.25);
    let removed = node.remove_edge(20);
    match removed {
        Some((neighbor, edge)) => {
            assert_eq!(neighbor, 20);
            assert_eq!(edge.from_node, 10);
            assert_eq!(edge.to_node, 20);
            assert_eq!(edge.weight, 1.25);
        }
        None => panic!("removing an existing edge must return it"),
    }
    assert_eq!(node.number_of_edges(), 0);
    assert!(node.get_edge(20).is_none());
    let removed_again = node.remove_edge(20);
    assert!(removed_again.is_none());
    assert_eq!(node.number_of_edges(), 0);
}

#[test]
fn test_insert_node_respects_capacity() {
    let mut graph: Graph<(), f32> = Graph::new(5, false);
    for idx in 0..5u32 {
        assert!(graph.insert_node(Node::new(idx)));
    }
    assert!(!graph.insert_node(Node::new(5)));
    assert_eq!(graph.nodes.len(), 5);
}

#[test]
fn test_insert_edge_missing_source_node() {
    let mut graph: Graph<(), f32> = Graph::new(5, false);
    graph.insert_node(Node::new(20));
    match graph.insert_edge(400, 20, 1.0) {
        Err(err) => assert_eq!(err, GraphError::MissingNode),
        Ok(_) => panic!("inserting from a missing node must fail"),
    }
    // The target index is never checked: an edge may point at a node that
    // is not in the graph.
    let dangling = graph.insert_edge(20, 999, 1.0);
    assert!(dangling.unwrap().is_none());
    assert!(graph.has_edge(20, 999));
}

#[test]
fn test_graph_edge_insert_and_lookup() {
    let mut graph: Graph<(), f32> = Graph::new(5, false);
    graph.insert_node(Node::new(20));
    graph.insert_node(Node::new(30));
    graph.insert_node(Node::new(40));

    let edge = graph.insert_edge(40, 20, 1012.10);
    assert!(edge.unwrap().is_none());
    let inserted = graph.get_edge(40, 20).unwrap();
    assert_eq!(inserted.from_node, 40);
    assert_eq!(inserted.to_node, 20);
    assert_eq!(inserted.weight, 1012.10);
    assert!(graph.has_node(30));
    assert!(!graph.has_node(400));

    let updated = graph.insert_edge(40, 20, 2.0);
    match updated {
        Ok(Some(prior)) => assert_eq!(prior.weight, 1012.10),
        _ => panic!("updating an existing edge must return the prior value"),
    }
    assert_eq!(graph.get_edge(40, 20).unwrap().weight, 2.0);
}

#[test]
fn test_edge_lookup_on_missing_source_is_absent() {
    let mut graph: Graph<(), f32> = Graph::new(5, false);
    graph.insert_node(Node::new(20));
    // Unlike insert_edge, graph-level lookup treats a missing source node
    // as "no such edge" rather than an error.
    assert!(graph.get_edge(400, 20).is_none());
    assert!(!graph.has_edge(400, 20));
    assert!(!graph.has_edge(20, 30));
}

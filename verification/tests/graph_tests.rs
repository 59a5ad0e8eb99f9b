use c2m_core::graph::{Edge, Graph, Node, NO_PREDECESSOR};

fn bits(x: f32) -> u32 {
    x.to_bits()
}

#[test]
fn new_graph_is_empty() {
    let g = Graph::new();
    assert_eq!(g.node_count(), 0);
    assert_eq!(g.edge_count(), 0);
}

#[test]
fn add_node_returns_consecutive_ids() {
    let mut g = Graph::new();
    assert_eq!(g.add_node(bits(f32::INFINITY)), 0);
    assert_eq!(g.add_node(bits(0.0)), 1);
    assert_eq!(g.add_node(bits(2.5)), 2);
    assert_eq!(g.node_count(), 3);
    assert_eq!(g.edge_count(), 0);
    assert_eq!(
        g.nodes[2],
        Node { id: 2, edge_start: 0, edge_count: 0, distance_bits: bits(2.5), predecessor: NO_PREDECESSOR, visited: 0 }
    );
    assert_eq!(f32::from_bits(g.nodes[0].distance_bits), f32::INFINITY);
}

#[test]
fn add_edge_grows_the_source_range() {
    let mut g = Graph::new();
    for _ in 0..3 {
        g.add_node(bits(0.0));
    }
    g.add_edge(0, 1, bits(0.5));
    g.add_edge(0, 2, bits(1.2));
    g.add_edge(2, 0, bits(0.3));
    assert_eq!(g.edge_count(), 3);
    assert_eq!(g.node_count(), 3);
    assert_eq!((g.nodes[0].edge_start, g.nodes[0].edge_count), (0, 2));
    assert_eq!((g.nodes[1].edge_start, g.nodes[1].edge_count), (0, 0));
    assert_eq!((g.nodes[2].edge_start, g.nodes[2].edge_count), (2, 1));
    assert_eq!(g.edges[1], Edge { target_node: 2, weight_bits: bits(1.2) });
    assert_eq!(f32::from_bits(g.edges[2].weight_bits), 0.3);
}

#[test]
fn grouped_edges_form_disjoint_ranges() {
    // The README example graph, edges added grouped by source.
    let row_ptr = [0u32, 2, 5, 7, 9, 10];
    let col_idx = [1u32, 4, 0, 2, 3, 1, 4, 2, 1, 3];
    let mut g = Graph::new();
    for _ in 0..5 {
        g.add_node(bits(f32::INFINITY));
    }
    for src in 0..5usize {
        for e in row_ptr[src]..row_ptr[src + 1] {
            g.add_edge(src as u32, col_idx[e as usize], bits(1.0));
        }
    }
    for src in 0..5usize {
        assert_eq!(g.nodes[src].edge_start, row_ptr[src]);
        assert_eq!(g.nodes[src].edge_count, row_ptr[src + 1] - row_ptr[src]);
    }
}

#[test]
fn interleaved_edges_break_contiguity() {
    // Adding to node 0 after node 1 got an edge makes the ranges overlap.
    let mut g = Graph::new();
    g.add_node(bits(0.0));
    g.add_node(bits(0.0));
    g.add_edge(0, 1, bits(1.0));
    g.add_edge(1, 0, bits(1.0));
    g.add_edge(0, 1, bits(2.0));
    assert_eq!((g.nodes[0].edge_start, g.nodes[0].edge_count), (0, 2));
    assert_eq!((g.nodes[1].edge_start, g.nodes[1].edge_count), (1, 1));
}

#[test]
fn ranges_hold_each_sources_edges_in_order() {
    // Nodes added between edge calls; sources non-decreasing.
    let mut g = Graph::new();
    g.add_node(bits(0.0));
    g.add_node(bits(0.0));
    g.add_edge(0, 1, bits(0.1));
    g.add_edge(0, 0, bits(0.2));
    g.add_node(bits(0.0));
    g.add_edge(2, 1, bits(0.3));
    g.add_edge(2, 0, bits(0.4));
    g.add_edge(2, 2, bits(0.5));
    let range = |n: usize| {
        let s = g.nodes[n].edge_start as usize;
        g.edges[s..s + g.nodes[n].edge_count as usize].to_vec()
    };
    assert_eq!(
        range(0),
        vec![Edge { target_node: 1, weight_bits: bits(0.1) }, Edge { target_node: 0, weight_bits: bits(0.2) }]
    );
    assert_eq!(range(1), vec![]);
    assert_eq!(
        range(2),
        vec![
            Edge { target_node: 1, weight_bits: bits(0.3) },
            Edge { target_node: 0, weight_bits: bits(0.4) },
            Edge { target_node: 2, weight_bits: bits(0.5) },
        ]
    );
}

//! Unit tests for the coordinate arithmetic and the derived node radius.

use fsm_editor::coords::{label_pos, sat_add_i64, sat_sub_i64};
use fsm_editor::graph::{radius_of_len, Graph};

#[test]
fn radius_formula_values() {
    // max(10, 2 * len + 5) with the floor of 10 up to two characters
    assert_eq!(radius_of_len(0), 10);
    assert_eq!(radius_of_len(1), 10);
    assert_eq!(radius_of_len(2), 10);
    assert_eq!(radius_of_len(3), 11);
    assert_eq!(radius_of_len(4), 13);
    assert_eq!(radius_of_len(10), 25);
}

#[test]
fn radius_is_monotone_in_name_length() {
    let mut prev: usize = 0;
    for len in 0..64usize {
        let r = radius_of_len(len);
        assert!(r >= prev);
        prev = r;
    }
}

#[test]
fn saturating_coordinate_steps() {
    assert_eq!(sat_add_i64(200, 5), 205);
    assert_eq!(sat_sub_i64(200, 5), 195);
    assert_eq!(sat_add_i64(i64::MAX, 1), i64::MAX);
    assert_eq!(sat_add_i64(i64::MIN, -1), i64::MIN);
    assert_eq!(sat_sub_i64(i64::MIN, 1), i64::MIN);
    assert_eq!(sat_sub_i64(i64::MAX, -1), i64::MAX);
}

#[test]
fn label_anchor_offsets() {
    // offset by (-(name length) + 1, -5) from the node position
    assert_eq!(label_pos(200, 200, 4), (197, 195));
    assert_eq!(label_pos(200, 200, 0), (201, 195));
    assert_eq!(label_pos(0, 0, 1), (0, -5));
}

#[test]
fn graph_edges_toggle_by_identity() {
    let mut g = Graph::new();
    let a = g.add_node(vec!['A'], 0, 0);
    let b = g.add_node(vec!['B'], 50, 50);
    g.toggle_edge(a, b);
    let ia = g.find_index(a).unwrap();
    assert_eq!(g.nodes[ia].outgoing, vec![b]);
    g.toggle_edge(a, b);
    let ia = g.find_index(a).unwrap();
    assert!(g.nodes[ia].outgoing.is_empty());
}

#[test]
fn removal_prunes_every_edge_to_the_gone_node() {
    let mut g = Graph::new();
    let a = g.add_node(vec!['A'], 0, 0);
    let b = g.add_node(vec!['B'], 50, 50);
    let c = g.add_node(vec!['C'], 100, 100);
    g.toggle_edge(b, a);
    g.toggle_edge(c, a);
    g.toggle_edge(b, c);
    g.remove_node(a);
    assert_eq!(g.len(), 2);
    assert!(g.find_index(a).is_none());
    let ib = g.find_index(b).unwrap();
    let ic = g.find_index(c).unwrap();
    assert_eq!(g.nodes[ib].outgoing, vec![c]);
    assert!(g.nodes[ic].outgoing.is_empty());
}

#[test]
fn self_edges_are_allowed_and_toggle() {
    let mut g = Graph::new();
    let a = g.add_node(vec!['A'], 0, 0);
    g.toggle_edge(a, a);
    let ia = g.find_index(a).unwrap();
    assert_eq!(g.nodes[ia].outgoing, vec![a]);
    g.toggle_edge(a, a);
    let ia = g.find_index(a).unwrap();
    assert!(g.nodes[ia].outgoing.is_empty());
}

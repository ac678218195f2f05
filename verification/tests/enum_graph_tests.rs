//! Tests for the bitset-backed directed graph engine.

use lv2se::bundle_model::constants::{PluginType, PortDesignation, Unit};
use lv2se::bundle_model::implications::{
    plugin_type_direct_implications, plugin_type_implies, plugin_types_implied,
    unit_implied_by_designation,
};
use lv2se::enum_graph::EnumSetDiGraph;

#[test]
fn empty_graph_has_no_edges() {
    let g = EnumSetDiGraph::new();
    for a in 0..64 {
        for b in 0..64 {
            assert!(!g.has_edge(a, b));
        }
    }
    assert_eq!(g, EnumSetDiGraph::default());
}

#[test]
fn insert_and_query_edges() {
    let mut g = EnumSetDiGraph::new();
    g.insert_edge(3, 5);
    g.insert_edge(5, 7);
    assert!(g.has_edge(3, 5));
    assert!(g.has_edge(5, 7));
    assert!(!g.has_edge(5, 3));
    assert!(!g.has_edge(3, 7));
    // Inserting an existing edge is a no-op observable-state-wise.
    let before = g.clone();
    g.insert_edge(3, 5);
    assert_eq!(g, before);
}

#[test]
fn adjacent_nodes_bitset() {
    let mut g = EnumSetDiGraph::new();
    g.insert_edge(2, 0);
    g.insert_edge(2, 63);
    let adj = g.adjacent_nodes(2);
    assert_eq!(adj, (1u64 << 0) | (1u64 << 63));
    assert_eq!(g.adjacent_nodes(0), 0);
}

#[test]
fn reachability_is_reflexive() {
    let mut g = EnumSetDiGraph::new();
    g.insert_edge(1, 2);
    for n in 0..64 {
        assert!(g.has_path(n, n));
        let reach = g.reachable_nodes(n);
        assert!(reach & (1u64 << n) != 0);
    }
}

#[test]
fn reachability_follows_paths() {
    let mut g = EnumSetDiGraph::new();
    g.insert_edge(0, 1);
    g.insert_edge(1, 2);
    g.insert_edge(2, 0);
    g.insert_edge(3, 3);
    assert!(g.has_path(0, 2));
    assert!(g.has_path(2, 1));
    assert!(!g.has_path(0, 3));
    assert!(!g.has_path(3, 0));
    assert_eq!(g.reachable_nodes(0), 0b111);
    assert_eq!(g.reachable_nodes(3), 0b1000);
}

#[test]
fn reachable_from_multiple_start_nodes() {
    let mut g = EnumSetDiGraph::new();
    g.insert_edge(0, 1);
    g.insert_edge(2, 3);
    let multi = g.reachable_nodes_from_multi((1u64 << 0) | (1u64 << 2));
    assert_eq!(multi, 0b1111);
    assert_eq!(g.reachable_nodes_from_multi(0), 0);
}

#[test]
fn transitive_closure_adds_paths_and_self_loops() {
    let mut g = EnumSetDiGraph::new();
    g.insert_edge(0, 1);
    g.insert_edge(1, 2);
    let tc = g.transitive_closure();
    assert!(tc.has_edge(0, 1));
    assert!(tc.has_edge(0, 2));
    assert!(tc.has_edge(1, 2));
    assert!(!tc.has_edge(2, 0));
    for n in 0..64 {
        assert!(tc.has_edge(n, n));
    }
}

#[test]
fn transitive_closure_is_idempotent() {
    let mut g = EnumSetDiGraph::new();
    g.insert_edge(0, 1);
    g.insert_edge(1, 2);
    g.insert_edge(2, 0);
    g.insert_edge(5, 6);
    let once = g.transitive_closure();
    let twice = once.transitive_closure();
    assert_eq!(once, twice);
}

#[test]
fn closure_is_transitive() {
    let mut g = EnumSetDiGraph::new();
    g.insert_edge(0, 1);
    g.insert_edge(1, 2);
    let tc = g.transitive_closure();
    for a in 0..64 {
        for b in 0..64 {
            for c in 0..64 {
                if g.has_edge(a, b) && tc.has_edge(b, c) {
                    assert!(tc.has_edge(a, c));
                }
            }
        }
    }
}

#[test]
fn reverse_flips_edges_and_is_involutive() {
    let mut g = EnumSetDiGraph::new();
    g.insert_edge(0, 1);
    g.insert_edge(1, 2);
    g.insert_edge(7, 7);
    let rev = g.reverse();
    assert!(rev.has_edge(1, 0));
    assert!(rev.has_edge(2, 1));
    assert!(rev.has_edge(7, 7));
    assert!(!rev.has_edge(0, 1));
    assert_eq!(rev.reverse(), g);
}

#[test]
fn union_laws() {
    let mut g = EnumSetDiGraph::new();
    g.insert_edge(0, 1);
    let mut h = EnumSetDiGraph::new();
    h.insert_edge(2, 3);
    let mut k = EnumSetDiGraph::new();
    k.insert_edge(0, 1);
    k.insert_edge(4, 5);

    assert_eq!(g.union(&h), h.union(&g));
    assert_eq!(g.union(&h).union(&k), g.union(&h.union(&k)));
    assert_eq!(g.union(&EnumSetDiGraph::new()), g);
    let u = g.union(&h);
    assert!(u.has_edge(0, 1));
    assert!(u.has_edge(2, 3));
    assert!(!u.has_edge(0, 3));
}

#[test]
fn edge_list_builds_are_order_independent() {
    let edges = vec![(0usize, 1usize), (2usize, 3usize)];
    let sequential = EnumSetDiGraph::from_edge_list(&edges);

    // Every permutation of the list gives the same graph.
    let permuted = EnumSetDiGraph::from_edge_list(&vec![(2usize, 3usize), (0usize, 1usize)]);
    assert_eq!(sequential, permuted);

    // Union of singleton-edge graphs rebuilds the same graph, however the
    // pairs are grouped.
    let s0 = EnumSetDiGraph::from_edge_list(&vec![(0usize, 1usize)]);
    let s1 = EnumSetDiGraph::from_edge_list(&vec![(2usize, 3usize)]);
    assert_eq!(s0.union(&s1), sequential);
    assert_eq!(s1.union(&s0), sequential);
    assert_eq!(EnumSetDiGraph::new().union(&s1).union(&s0), sequential);

    // Duplicated pairs change nothing.
    let dup = EnumSetDiGraph::from_edge_list(&vec![
        (0usize, 1usize),
        (2usize, 3usize),
        (0usize, 1usize),
    ]);
    assert_eq!(dup, sequential);
}

#[test]
fn graph_ordering_is_lexicographic() {
    let empty = EnumSetDiGraph::new();
    let mut small = EnumSetDiGraph::new();
    small.insert_edge(63, 0);
    let mut big = EnumSetDiGraph::new();
    big.insert_edge(0, 0);
    assert!(empty < small);
    assert!(small < big);
    assert!(empty < big);
    assert_eq!(empty.partial_cmp(&empty), Some(std::cmp::Ordering::Equal));
}

#[test]
fn plugin_type_implications_follow_the_hierarchy() {
    assert!(plugin_type_implies(PluginType::Reverb, PluginType::Delay));
    assert!(plugin_type_implies(PluginType::Reverb, PluginType::Simulator));
    assert!(plugin_type_implies(PluginType::Reverb, PluginType::Reverb));
    assert!(!plugin_type_implies(PluginType::Delay, PluginType::Reverb));
    assert!(plugin_type_implies(PluginType::MultiEQ, PluginType::Filter));
    assert!(plugin_type_implies(PluginType::MultiEQ, PluginType::EQ));
    assert!(!plugin_type_implies(PluginType::Filter, PluginType::EQ));
    assert!(!plugin_type_implies(PluginType::Midi, PluginType::Utility));
}

#[test]
fn plugin_type_implication_table_is_a_closure() {
    let direct = plugin_type_direct_implications();
    let table = plugin_types_implied();
    assert_eq!(direct.transitive_closure(), table);
    assert_eq!(table.transitive_closure(), table);
    assert!(table.has_edge(
        PluginType::Reverb.index(),
        PluginType::Delay.index()
    ));
    assert!(!table.has_edge(
        PluginType::Delay.index(),
        PluginType::Reverb.index()
    ));
    assert!(table.has_edge(
        PluginType::Reverb.index(),
        PluginType::Reverb.index()
    ));
}

#[test]
fn units_implied_by_designations() {
    assert_eq!(unit_implied_by_designation(PortDesignation::Gain), Some(Unit::Decibel));
    assert_eq!(unit_implied_by_designation(PortDesignation::Amplitude), None);
    assert_eq!(unit_implied_by_designation(PortDesignation::Frequency), None);
}

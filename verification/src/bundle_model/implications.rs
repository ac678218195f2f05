//! Representation of implications in which the presence of one LV2 feature,
//! property, etc. can imply the presence of others.

use vstd::prelude::*;
use crate::bundle_model::constants::{
    lemma_plugin_type_from_index, lemma_plugin_type_index, PluginType, PortDesignation, Unit,
};
use crate::enum_graph::{is_chain, lemma_chain_edge, reachable, EnumSetDiGraph};

verus! {

/// The direct implication facts among plugin types stated by the LV2
/// specification: if `plugin_direct_implies(a, b)`, then every plugin of
/// type `a` must also be considered of type `b`.
pub open spec fn plugin_direct_implies(a: PluginType, b: PluginType) -> bool {
    ||| (a == PluginType::Reverb && b == PluginType::Delay)
    ||| (a == PluginType::Reverb && b == PluginType::Simulator)
    ||| (a == PluginType::Waveshaper && b == PluginType::Distortion)
    ||| (a == PluginType::Amplifier && b == PluginType::Dynamics)
    ||| (a == PluginType::Compressor && b == PluginType::Dynamics)
    ||| (a == PluginType::Envelope && b == PluginType::Dynamics)
    ||| (a == PluginType::Expander && b == PluginType::Dynamics)
    ||| (a == PluginType::Gate && b == PluginType::Dynamics)
    ||| (a == PluginType::Limiter && b == PluginType::Dynamics)
    ||| (a == PluginType::Allpass && b == PluginType::Filter)
    ||| (a == PluginType::Bandpass && b == PluginType::Filter)
    ||| (a == PluginType::Comb && b == PluginType::Filter)
    ||| (a == PluginType::EQ && b == PluginType::Filter)
    ||| (a == PluginType::MultiEQ && b == PluginType::Filter)
    ||| (a == PluginType::ParaEQ && b == PluginType::Filter)
    ||| (a == PluginType::Highpass && b == PluginType::Filter)
    ||| (a == PluginType::Lowpass && b == PluginType::Filter)
    ||| (a == PluginType::MultiEQ && b == PluginType::EQ)
    ||| (a == PluginType::ParaEQ && b == PluginType::EQ)
    ||| (a == PluginType::Constant && b == PluginType::Generator)
    ||| (a == PluginType::Instrument && b == PluginType::Generator)
    ||| (a == PluginType::Oscillator && b == PluginType::Generator)
    ||| (a == PluginType::Chorus && b == PluginType::Modulator)
    ||| (a == PluginType::Flanger && b == PluginType::Modulator)
    ||| (a == PluginType::Phaser && b == PluginType::Modulator)
    ||| (a == PluginType::Pitch && b == PluginType::Spectral)
    ||| (a == PluginType::Analyser && b == PluginType::Utility)
    ||| (a == PluginType::Converter && b == PluginType::Utility)
    ||| (a == PluginType::Function && b == PluginType::Utility)
    ||| (a == PluginType::Mixer && b == PluginType::Utility)
}

/// Chains of direct implications among plugin types.
pub open spec fn is_implication_chain(c: Seq<PluginType>) -> bool {
    forall|i: int| 0 < i < c.len() ==> #[trigger] plugin_direct_implies(c[i - 1], c[i])
}

/// Plugin type `a` implies plugin type `b` when a chain of zero or more
/// direct implications joins them; in particular every plugin type implies
/// itself.
pub open spec fn plugin_type_implies_spec(a: PluginType, b: PluginType) -> bool {
    exists|c: Seq<PluginType>|
        #[trigger] is_implication_chain(c) && c.len() >= 1 && c.first() == a && c.last() == b
}

/// Extracts one link of an implication chain.
proof fn lemma_implication_chain_edge(c: Seq<PluginType>, i: int)
    requires
        is_implication_chain(c),
        0 < i < c.len(),
    ensures
        plugin_direct_implies(c[i - 1], c[i]),
{
}

/// The direct implication facts, stated over the plugin types' graph slots.
spec fn plugin_index_pair(i: int, j: int) -> bool {
    ||| (i == 1 && j == 0)  // Reverb implies Delay
    ||| (i == 1 && j == 29)  // Reverb implies Simulator
    ||| (i == 3 && j == 2)  // Waveshaper implies Distortion
    ||| (i == 5 && j == 4)  // Amplifier implies Dynamics
    ||| (i == 6 && j == 4)  // Compressor implies Dynamics
    ||| (i == 7 && j == 4)  // Envelope implies Dynamics
    ||| (i == 8 && j == 4)  // Expander implies Dynamics
    ||| (i == 9 && j == 4)  // Gate implies Dynamics
    ||| (i == 10 && j == 4)  // Limiter implies Dynamics
    ||| (i == 12 && j == 11)  // Allpass implies Filter
    ||| (i == 13 && j == 11)  // Bandpass implies Filter
    ||| (i == 14 && j == 11)  // Comb implies Filter
    ||| (i == 15 && j == 11)  // EQ implies Filter
    ||| (i == 16 && j == 11)  // MultiEQ implies Filter
    ||| (i == 17 && j == 11)  // ParaEQ implies Filter
    ||| (i == 18 && j == 11)  // Highpass implies Filter
    ||| (i == 19 && j == 11)  // Lowpass implies Filter
    ||| (i == 16 && j == 15)  // MultiEQ implies EQ
    ||| (i == 17 && j == 15)  // ParaEQ implies EQ
    ||| (i == 21 && j == 20)  // Constant implies Generator
    ||| (i == 22 && j == 20)  // Instrument implies Generator
    ||| (i == 23 && j == 20)  // Oscillator implies Generator
    ||| (i == 26 && j == 25)  // Chorus implies Modulator
    ||| (i == 27 && j == 25)  // Flanger implies Modulator
    ||| (i == 28 && j == 25)  // Phaser implies Modulator
    ||| (i == 32 && j == 31)  // Pitch implies Spectral
    ||| (i == 34 && j == 33)  // Analyser implies Utility
    ||| (i == 35 && j == 33)  // Converter implies Utility
    ||| (i == 36 && j == 33)  // Function implies Utility
    ||| (i == 37 && j == 33)  // Mixer implies Utility
}

/// Slot pairs of direct implications come from implied plugin types.
proof fn lemma_pair_to_types(x: PluginType, y: PluginType)
    requires
        plugin_index_pair(x.index_spec(), y.index_spec()),
    ensures
        plugin_direct_implies(x, y),
{
    lemma_plugin_type_index(x);
    lemma_plugin_type_index(y);
}

/// Implied plugin types sit at the slot pairs of direct implications.
proof fn lemma_types_to_pair(x: PluginType, y: PluginType)
    requires
        plugin_direct_implies(x, y),
    ensures
        plugin_index_pair(x.index_spec(), y.index_spec()),
{
}

/// Builds the graph of direct implications among plugin types, one edge per
/// implication fact, over the plugin types' graph slots.
#[verifier::rlimit(100)]
#[verifier::spinoff_prover]
pub fn plugin_type_direct_implications() -> (g: EnumSetDiGraph)
    ensures
        g.wf(),
        forall|x: PluginType, y: PluginType|
            g.spec_edge(x.index_spec(), y.index_spec()) == plugin_direct_implies(x, y),
        forall|i: int, j: int| #[trigger] g.spec_edge(i, j) ==> i < 38 && j < 38,
{
    let mut g = EnumSetDiGraph::new();
    g.insert_edge(PluginType::Reverb.index(), PluginType::Delay.index());
    g.insert_edge(PluginType::Reverb.index(), PluginType::Simulator.index());
    g.insert_edge(PluginType::Waveshaper.index(), PluginType::Distortion.index());
    g.insert_edge(PluginType::Amplifier.index(), PluginType::Dynamics.index());
    g.insert_edge(PluginType::Compressor.index(), PluginType::Dynamics.index());
    g.insert_edge(PluginType::Envelope.index(), PluginType::Dynamics.index());
    g.insert_edge(PluginType::Expander.index(), PluginType::Dynamics.index());
    g.insert_edge(PluginType::Gate.index(), PluginType::Dynamics.index());
    g.insert_edge(PluginType::Limiter.index(), PluginType::Dynamics.index());
    g.insert_edge(PluginType::Allpass.index(), PluginType::Filter.index());
    g.insert_edge(PluginType::Bandpass.index(), PluginType::Filter.index());
    g.insert_edge(PluginType::Comb.index(), PluginType::Filter.index());
    g.insert_edge(PluginType::EQ.index(), PluginType::Filter.index());
    g.insert_edge(PluginType::MultiEQ.index(), PluginType::Filter.index());
    g.insert_edge(PluginType::ParaEQ.index(), PluginType::Filter.index());
    g.insert_edge(PluginType::Highpass.index(), PluginType::Filter.index());
    g.insert_edge(PluginType::Lowpass.index(), PluginType::Filter.index());
    g.insert_edge(PluginType::MultiEQ.index(), PluginType::EQ.index());
    g.insert_edge(PluginType::ParaEQ.index(), PluginType::EQ.index());
    g.insert_edge(PluginType::Constant.index(), PluginType::Generator.index());
    g.insert_edge(PluginType::Instrument.index(), PluginType::Generator.index());
    g.insert_edge(PluginType::Oscillator.index(), PluginType::Generator.index());
    g.insert_edge(PluginType::Chorus.index(), PluginType::Modulator.index());
    g.insert_edge(PluginType::Flanger.index(), PluginType::Modulator.index());
    g.insert_edge(PluginType::Phaser.index(), PluginType::Modulator.index());
    g.insert_edge(PluginType::Pitch.index(), PluginType::Spectral.index());
    g.insert_edge(PluginType::Analyser.index(), PluginType::Utility.index());
    g.insert_edge(PluginType::Converter.index(), PluginType::Utility.index());
    g.insert_edge(PluginType::Function.index(), PluginType::Utility.index());
    g.insert_edge(PluginType::Mixer.index(), PluginType::Utility.index());
    proof {
        assert forall|i: int, j: int| #[trigger] g.spec_edge(i, j) implies plugin_index_pair(
            i,
            j,
        ) by {}
        assert forall|i: int, j: int| #[trigger] plugin_index_pair(i, j) implies g.spec_edge(
            i,
            j,
        ) by {}
        assert forall|x: PluginType, y: PluginType|
            g.spec_edge(x.index_spec(), y.index_spec()) == plugin_direct_implies(x, y) by {
            lemma_plugin_type_index(x);
            lemma_plugin_type_index(y);
            if g.spec_edge(x.index_spec(), y.index_spec()) {
                lemma_pair_to_types(x, y);
            }
            if plugin_direct_implies(x, y) {
                lemma_types_to_pair(x, y);
            }
        }
    }
    g
}

/// Reachability over the direct-implication graph coincides with the chains
/// of direct implications at the typed level.
proof fn lemma_implication_reach_transport(d: EnumSetDiGraph, x: PluginType, y: PluginType)
    requires
        d.wf(),
        forall|a: PluginType, b: PluginType|
            d.spec_edge(a.index_spec(), b.index_spec()) == plugin_direct_implies(a, b),
        forall|i: int, j: int| #[trigger] d.spec_edge(i, j) ==> i < 38 && j < 38,
    ensures
        reachable(d, x.index_spec(), y.index_spec()) == plugin_type_implies_spec(x, y),
{
    lemma_plugin_type_index(x);
    lemma_plugin_type_index(y);
    if plugin_type_implies_spec(x, y) {
        let tc = choose|tc: Seq<PluginType>|
            #[trigger] is_implication_chain(tc) && tc.len() >= 1 && tc.first() == x
                && tc.last() == y;
        let c = Seq::new(tc.len(), |k: int| tc[k].index_spec());
        assert forall|i: int| 0 < i < c.len() implies #[trigger] d.spec_edge(c[i - 1], c[i]) by {
            lemma_implication_chain_edge(tc, i);
            assert(d.spec_edge(tc[i - 1].index_spec(), tc[i].index_spec()));
        }
        assert(is_chain(d, c));
        assert(c.first() == x.index_spec() && c.last() == y.index_spec());
        assert(reachable(d, x.index_spec(), y.index_spec()));
    }
    if reachable(d, x.index_spec(), y.index_spec()) {
        let c = choose|c: Seq<int>|
            #[trigger] is_chain(d, c) && c.len() >= 1 && c.first() == x.index_spec()
                && c.last() == y.index_spec();
        let tc = Seq::new(c.len(), |k: int| PluginType::from_index_spec(c[k]));
        assert forall|i: int| 0 < i < tc.len() implies #[trigger] plugin_direct_implies(
            tc[i - 1],
            tc[i],
        ) by {
            lemma_chain_edge(d, c, i);
            lemma_plugin_type_from_index(c[i - 1]);
            lemma_plugin_type_from_index(c[i]);
            assert(d.spec_edge(tc[i - 1].index_spec(), tc[i].index_spec()));
        }
        assert(is_implication_chain(tc));
        assert(tc.first() == x && tc.last() == y);
        assert(plugin_type_implies_spec(x, y));
    }
}

/// Builds the directed graph defining the implications among plugin types.
/// If an edge `(p0, p1)` exists in the graph, then all plugins of type `p0`
/// must also be of type `p1`.  The graph is its own transitive closure, so
/// there is no need to consider indirect paths when finding the implied
/// plugin types.
pub fn plugin_types_implied() -> (g: EnumSetDiGraph)
    ensures
        g.wf(),
        forall|x: PluginType, y: PluginType|
            g.spec_edge(x.index_spec(), y.index_spec()) == plugin_type_implies_spec(x, y),
{
    let d = plugin_type_direct_implications();
    let g = d.transitive_closure();
    proof {
        assert forall|x: PluginType, y: PluginType|
            g.spec_edge(x.index_spec(), y.index_spec()) == plugin_type_implies_spec(x, y) by {
            lemma_plugin_type_index(x);
            lemma_plugin_type_index(y);
            lemma_implication_reach_transport(d, x, y);
        }
    }
    g
}

/// Checks whether every plugin of type `a` must also be considered of type
/// `b`, directly or through a chain of implications.
pub fn plugin_type_implies(a: PluginType, b: PluginType) -> (r: bool)
    ensures
        r == plugin_type_implies_spec(a, b),
{
    let g = plugin_types_implied();
    proof {
        lemma_plugin_type_index(a);
        lemma_plugin_type_index(b);
    }
    g.has_edge(a.index(), b.index())
}

/// Maps LV2 port designations to the port units that they imply, if any:
/// the gain designation implies the decibel unit, and no other designation
/// implies a unit.
pub fn unit_implied_by_designation(designation: PortDesignation) -> (r: Option<Unit>)
    ensures
        r == if designation == PortDesignation::Gain {
            Some(Unit::Decibel)
        } else {
            None::<Unit>
        },
{
    match designation {
        PortDesignation::Gain => Some(Unit::Decibel),
        _ => None,
    }
}

} // verus!

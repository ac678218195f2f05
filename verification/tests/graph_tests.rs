//! Tests for the parent-finding graph traversals and the class hierarchies.

use std::collections::HashSet;
use std::fmt::Debug;
use std::hash::Hash;

use lv2se::bundle_model::subclasses::{StdAtomType, StdPluginType};
use lv2se::graph::{
    ancestors_and_self, ancestors_and_self_multiple, ClassInHierarchy, TestCycleNode, TestDagNode,
    TestForestNode, TestTreeNode,
};

/// Asserts that a vector holds the same set of elements as another vector,
/// ignoring order and any duplicate elements.
fn assert_set_eq_vec<T>(set: Vec<T>, vector: Vec<T>)
where
    T: Hash + Eq + Debug,
{
    let left: HashSet<T> = set.into_iter().collect();
    let right: HashSet<T> = vector.into_iter().collect();
    assert_eq!(left, right);
}

#[test]
fn tree() {
    assert_set_eq_vec(ancestors_and_self(&TestTreeNode::Root), vec![TestTreeNode::Root]);
    assert_set_eq_vec(
        ancestors_and_self(&TestTreeNode::BranchLeft),
        vec![TestTreeNode::Root, TestTreeNode::BranchLeft],
    );
    assert_set_eq_vec(
        ancestors_and_self(&TestTreeNode::BranchRight),
        vec![TestTreeNode::Root, TestTreeNode::BranchRight],
    );
    assert_set_eq_vec(
        ancestors_and_self(&TestTreeNode::LeafLeft),
        vec![TestTreeNode::Root, TestTreeNode::BranchLeft, TestTreeNode::LeafLeft],
    );
    assert_set_eq_vec(
        ancestors_and_self(&TestTreeNode::LeafRight),
        vec![TestTreeNode::Root, TestTreeNode::BranchRight, TestTreeNode::LeafRight],
    );

    assert_set_eq_vec(ancestors_and_self_multiple::<TestTreeNode>(&vec![]), vec![]);
    assert_set_eq_vec(
        ancestors_and_self_multiple(&vec![TestTreeNode::BranchLeft, TestTreeNode::LeafRight]),
        vec![
            TestTreeNode::Root,
            TestTreeNode::BranchLeft,
            TestTreeNode::BranchRight,
            TestTreeNode::LeafRight,
        ],
    );
    assert_set_eq_vec(
        ancestors_and_self_multiple(&vec![
            TestTreeNode::Root,
            TestTreeNode::Root,
            TestTreeNode::BranchRight,
        ]),
        vec![TestTreeNode::Root, TestTreeNode::BranchRight],
    );
    assert_set_eq_vec(
        ancestors_and_self_multiple(&vec![TestTreeNode::Root]),
        vec![TestTreeNode::Root],
    );
    assert_set_eq_vec(
        ancestors_and_self_multiple(&vec![TestTreeNode::BranchLeft]),
        vec![TestTreeNode::Root, TestTreeNode::BranchLeft],
    );
}

#[test]
fn forest() {
    assert_set_eq_vec(ancestors_and_self(&TestForestNode::Root0), vec![TestForestNode::Root0]);
    assert_set_eq_vec(ancestors_and_self(&TestForestNode::Root1), vec![TestForestNode::Root1]);
    assert_set_eq_vec(ancestors_and_self(&TestForestNode::Root2), vec![TestForestNode::Root2]);
    assert_set_eq_vec(
        ancestors_and_self(&TestForestNode::Leaf0),
        vec![TestForestNode::Root0, TestForestNode::Leaf0],
    );
    assert_set_eq_vec(
        ancestors_and_self(&TestForestNode::Leaf1),
        vec![TestForestNode::Root1, TestForestNode::Leaf1],
    );
    assert_set_eq_vec(
        ancestors_and_self(&TestForestNode::Branch2),
        vec![TestForestNode::Root2, TestForestNode::Branch2],
    );
    assert_set_eq_vec(
        ancestors_and_self(&TestForestNode::Leaf2),
        vec![TestForestNode::Root2, TestForestNode::Branch2, TestForestNode::Leaf2],
    );

    assert_set_eq_vec(ancestors_and_self_multiple::<TestForestNode>(&vec![]), vec![]);
    assert_set_eq_vec(
        ancestors_and_self_multiple(&vec![TestForestNode::Root0]),
        vec![TestForestNode::Root0],
    );
    assert_set_eq_vec(
        ancestors_and_self_multiple(&vec![TestForestNode::Root0, TestForestNode::Root0]),
        vec![TestForestNode::Root0],
    );
    assert_set_eq_vec(
        ancestors_and_self_multiple(&vec![TestForestNode::Root0, TestForestNode::Root1]),
        vec![TestForestNode::Root0, TestForestNode::Root1],
    );
    assert_set_eq_vec(
        ancestors_and_self_multiple(&vec![TestForestNode::Leaf0, TestForestNode::Branch2]),
        vec![
            TestForestNode::Root0,
            TestForestNode::Leaf0,
            TestForestNode::Root2,
            TestForestNode::Branch2,
        ],
    );
}

#[test]
fn dag() {
    assert_set_eq_vec(ancestors_and_self(&TestDagNode::Root), vec![TestDagNode::Root]);
    assert_set_eq_vec(
        ancestors_and_self(&TestDagNode::Branch0),
        vec![TestDagNode::Root, TestDagNode::Branch0],
    );
    assert_set_eq_vec(
        ancestors_and_self(&TestDagNode::Branch1),
        vec![TestDagNode::Root, TestDagNode::Branch1],
    );
    assert_set_eq_vec(
        ancestors_and_self(&TestDagNode::Leaf0),
        vec![TestDagNode::Root, TestDagNode::Branch0, TestDagNode::Leaf0],
    );
    assert_set_eq_vec(
        ancestors_and_self(&TestDagNode::LeafBoth),
        vec![TestDagNode::Root, TestDagNode::Branch0, TestDagNode::Branch1, TestDagNode::LeafBoth],
    );

    assert_set_eq_vec(ancestors_and_self_multiple::<TestDagNode>(&vec![]), vec![]);
    assert_set_eq_vec(
        ancestors_and_self_multiple(&vec![TestDagNode::Root]),
        vec![TestDagNode::Root],
    );
    assert_set_eq_vec(
        ancestors_and_self_multiple(&vec![TestDagNode::Root, TestDagNode::Root]),
        vec![TestDagNode::Root],
    );
    assert_set_eq_vec(
        ancestors_and_self_multiple(&vec![TestDagNode::Branch1, TestDagNode::Leaf0]),
        vec![TestDagNode::Root, TestDagNode::Branch0, TestDagNode::Branch1, TestDagNode::Leaf0],
    );
    assert_set_eq_vec(
        ancestors_and_self_multiple(&vec![TestDagNode::LeafBoth, TestDagNode::Root]),
        vec![TestDagNode::Root, TestDagNode::Branch0, TestDagNode::Branch1, TestDagNode::LeafBoth],
    );
}

#[test]
fn cycle() {
    assert_set_eq_vec(
        ancestors_and_self(&TestCycleNode::Cycle0),
        vec![TestCycleNode::Cycle0, TestCycleNode::Cycle1],
    );
    assert_set_eq_vec(
        ancestors_and_self(&TestCycleNode::Cycle1),
        vec![TestCycleNode::Cycle0, TestCycleNode::Cycle1],
    );
    assert_set_eq_vec(ancestors_and_self(&TestCycleNode::SelfLoop), vec![TestCycleNode::SelfLoop]);

    assert_set_eq_vec(ancestors_and_self_multiple::<TestCycleNode>(&vec![]), vec![]);
    assert_set_eq_vec(
        ancestors_and_self_multiple(&vec![TestCycleNode::Cycle0]),
        vec![TestCycleNode::Cycle0, TestCycleNode::Cycle1],
    );
    assert_set_eq_vec(
        ancestors_and_self_multiple(&vec![TestCycleNode::Cycle0, TestCycleNode::Cycle1]),
        vec![TestCycleNode::Cycle0, TestCycleNode::Cycle1],
    );
    assert_set_eq_vec(
        ancestors_and_self_multiple(&vec![TestCycleNode::SelfLoop]),
        vec![TestCycleNode::SelfLoop],
    );
    assert_set_eq_vec(
        ancestors_and_self_multiple(&vec![TestCycleNode::Cycle0, TestCycleNode::SelfLoop]),
        vec![TestCycleNode::Cycle0, TestCycleNode::Cycle1, TestCycleNode::SelfLoop],
    );
}

#[test]
fn midi_atom_ancestors() {
    assert_set_eq_vec(
        ancestors_and_self(&StdAtomType::MidiNoteOn),
        vec![
            StdAtomType::MidiNoteOn,
            StdAtomType::MidiVoiceMessage,
            StdAtomType::MidiEvent,
            StdAtomType::Atom,
        ],
    );
}

#[test]
fn multiple_with_duplicates_has_no_repeats() {
    let result = ancestors_and_self_multiple(&vec![
        StdAtomType::MidiNoteOn,
        StdAtomType::MidiNoteOff,
        StdAtomType::MidiNoteOn,
    ]);
    let as_set: HashSet<StdAtomType> = result.iter().cloned().collect();
    assert_eq!(as_set.len(), result.len());
    assert_set_eq_vec(
        result,
        vec![
            StdAtomType::MidiNoteOn,
            StdAtomType::MidiNoteOff,
            StdAtomType::MidiVoiceMessage,
            StdAtomType::MidiEvent,
            StdAtomType::Atom,
        ],
    );
}

#[test]
fn subclass_queries() {
    assert!(StdPluginType::ReverbPlugin.is_subclass_of(&StdPluginType::DelayPlugin));
    assert!(StdPluginType::ReverbPlugin.is_subclass_of(&StdPluginType::Plugin));
    assert!(StdPluginType::ReverbPlugin.is_subclass_of(&StdPluginType::ReverbPlugin));
    assert!(!StdPluginType::DelayPlugin.is_subclass_of(&StdPluginType::ReverbPlugin));
    assert!(StdPluginType::Plugin.is_superclass_of(&StdPluginType::MultiEQPlugin));
    assert!(StdPluginType::EQPlugin.is_superclass_of(&StdPluginType::ParaEQPlugin));
    assert!(!StdPluginType::DynamicsPlugin.is_subclass_of(&StdPluginType::FilterPlugin));
    assert!(StdAtomType::Path.is_subclass_of(&StdAtomType::String));
    assert!(StdAtomType::Sound.is_subclass_of(&StdAtomType::Atom));
    assert!(!StdAtomType::Atom.is_subclass_of(&StdAtomType::Number));
}

#[test]
fn cyclic_subclass_queries() {
    assert!(TestCycleNode::Cycle0.is_subclass_of(&TestCycleNode::Cycle1));
    assert!(TestCycleNode::Cycle1.is_subclass_of(&TestCycleNode::Cycle0));
    assert!(TestCycleNode::SelfLoop.is_subclass_of(&TestCycleNode::SelfLoop));
    assert!(!TestCycleNode::SelfLoop.is_subclass_of(&TestCycleNode::Cycle0));
}

#[test]
fn direct_superclasses_match_hierarchy() {
    assert_set_eq_vec(
        StdPluginType::ReverbPlugin.direct_superclasses(),
        vec![StdPluginType::Plugin, StdPluginType::DelayPlugin, StdPluginType::SimulatorPlugin],
    );
    assert_set_eq_vec(StdPluginType::Plugin.direct_superclasses(), vec![]);
    assert_set_eq_vec(StdAtomType::Double.direct_superclasses(), vec![StdAtomType::Number]);
    assert_set_eq_vec(StdAtomType::Atom.direct_superclasses(), vec![]);
}

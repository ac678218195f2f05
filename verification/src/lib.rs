//! Data model for LV2 bundle metadata.
//!
//! The heart of the crate is a pair of reachability utilities used to compute
//! "implies" relationships among the fixed vocabularies that the LV2 standard
//! defines: a bitset-backed directed graph over small enumerations
//! ([`enum_graph::EnumSetDiGraph`]) and a value-based ancestor traversal over
//! class hierarchies whose nodes can report their own parents
//! ([`graph::ParentFindingDigraphNode`]).  Around these sit the vocabulary
//! enumerations, the implication tables derived from the LV2 specification,
//! and wrappers for RDF identifiers (IRIs, language tags, literals, symbols).

pub mod enum_graph;
pub mod graph;
pub mod rdf_util;
pub mod bundle_model;

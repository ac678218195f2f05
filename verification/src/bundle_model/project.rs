//! Representation of LV2 project information.

use vstd::prelude::*;
use crate::bundle_model::OptionallyIdentifiedBy;
use crate::bundle_model::symbol::Symbol;
use crate::rdf_util::{Iri, Literal};

verus! {

/// Information about the project to which a plugin or other LV2 resource
/// belongs.
#[derive(Debug, Clone)]
pub struct ProjectInfo {
    /// The IRI identifying the project, if specified.
    iri: Option<Iri>,
    /// LV2 symbol identifying the project, if specified.
    symbol: Option<Symbol>,
    /// Human-readable names.  Multiple language-tagged literals can be used.
    names: Vec<Literal>,
    /// Short names, up to 16 Unicode grapheme clusters each.  Multiple
    /// language-tagged literals can be used.
    short_names: Vec<Literal>,
}

impl ProjectInfo {
    /// The identifying IRI, if any.
    pub closed spec fn spec_iri(self) -> Option<Iri> {
        self.iri
    }

    /// The identifying symbol, if any.
    pub closed spec fn spec_symbol(self) -> Option<Symbol> {
        self.symbol
    }

    /// The project's names.
    pub closed spec fn spec_names(self) -> Seq<Literal> {
        self.names@
    }

    /// The project's short names.
    pub closed spec fn spec_short_names(self) -> Seq<Literal> {
        self.short_names@
    }

    /// Constructs a description of a project.
    pub fn new(
        iri: Option<Iri>,
        symbol: Option<Symbol>,
        names: Vec<Literal>,
        short_names: Vec<Literal>,
    ) -> (r: ProjectInfo)
        ensures
            r.spec_iri() == iri,
            r.spec_symbol() == symbol,
            r.spec_names() == names@,
            r.spec_short_names() == short_names@,
    {
        ProjectInfo { iri, symbol, names, short_names }
    }

    /// The human-readable name literals for the project.
    pub fn names(&self) -> (r: &Vec<Literal>)
        ensures
            r@ == self.spec_names(),
    {
        &self.names
    }

    /// The short name literals for the project.
    pub fn short_names(&self) -> (r: &Vec<Literal>)
        ensures
            r@ == self.spec_short_names(),
    {
        &self.short_names
    }
}

impl OptionallyIdentifiedBy<Iri> for ProjectInfo {
    fn id(&self) -> (r: Option<&Iri>) {
        self.iri.as_ref()
    }
}

impl OptionallyIdentifiedBy<Symbol> for ProjectInfo {
    fn id(&self) -> (r: Option<&Symbol>) {
        self.symbol.as_ref()
    }
}

} // verus!

//! Representation of LV2 bundle data that isn't understood by this crate, but
//! is deemed important enough to represent.

use vstd::prelude::*;
use crate::bundle_model::{IdentifiedBy, OptionallyIdentifiedBy};
use crate::bundle_model::symbol::Symbol;
use crate::rdf_util::{Iri, Literal};

verus! {

/// Represents a type of LV2 extension data interface that this crate doesn't
/// understand.  Extension data is typically represented by an IRI, so this
/// type is just a wrapper around [`Iri`](crate::rdf_util::Iri).
#[derive(Debug, Clone)]
pub struct UnknownExtensionData {
    /// IRI identifying the extension data interface.
    iri: Iri,
}

impl UnknownExtensionData {
    /// The identifying IRI.
    pub closed spec fn spec_id(self) -> Iri {
        self.iri
    }

    /// Constructs a representation of an unknown extension data interface,
    /// identified by the given IRI.
    pub fn new(iri: Iri) -> (r: UnknownExtensionData)
        ensures
            r.spec_id() == iri,
    {
        UnknownExtensionData { iri }
    }
}

impl IdentifiedBy<Iri> for UnknownExtensionData {
    fn id(&self) -> (r: &Iri) {
        &self.iri
    }
}

/// Represents an LV2 host feature that this crate doesn't understand.  Host
/// features are typically represented by an IRI, so this type is just a
/// wrapper around [`Iri`](crate::rdf_util::Iri).
#[derive(Debug, Clone)]
pub struct UnknownHostFeature {
    /// IRI identifying the host feature.
    iri: Iri,
}

impl UnknownHostFeature {
    /// The identifying IRI.
    pub closed spec fn spec_id(self) -> Iri {
        self.iri
    }

    /// Constructs a representation of an unknown host feature, identified by
    /// the given IRI.
    pub fn new(iri: Iri) -> (r: UnknownHostFeature)
        ensures
            r.spec_id() == iri,
    {
        UnknownHostFeature { iri }
    }
}

impl IdentifiedBy<Iri> for UnknownHostFeature {
    fn id(&self) -> (r: &Iri) {
        &self.iri
    }
}

/// Represents an LV2 option that this crate doesn't understand.  LV2 options
/// are typically represented by an IRI, so this type is just a wrapper around
/// [`Iri`](crate::rdf_util::Iri).
#[derive(Debug, Clone)]
pub struct UnknownOption {
    /// IRI identifying the option.
    iri: Iri,
}

impl UnknownOption {
    /// The identifying IRI.
    pub closed spec fn spec_id(self) -> Iri {
        self.iri
    }

    /// Constructs a representation of an unknown LV2 option, identified by
    /// the given IRI.
    pub fn new(iri: Iri) -> (r: UnknownOption)
        ensures
            r.spec_id() == iri,
    {
        UnknownOption { iri }
    }
}

impl IdentifiedBy<Iri> for UnknownOption {
    fn id(&self) -> (r: &Iri) {
        &self.iri
    }
}

/// Represents an LV2 plugin type that this crate doesn't understand.  LV2
/// plugin types are typically represented by an IRI, so this type is just a
/// wrapper around [`Iri`](crate::rdf_util::Iri).
#[derive(Debug, Clone)]
pub struct UnknownPluginType {
    /// IRI identifying the plugin type.
    iri: Iri,
}

impl UnknownPluginType {
    /// The identifying IRI.
    pub closed spec fn spec_id(self) -> Iri {
        self.iri
    }

    /// Constructs a representation of an unknown LV2 plugin type, identified
    /// by the given IRI.
    pub fn new(iri: Iri) -> (r: UnknownPluginType)
        ensures
            r.spec_id() == iri,
    {
        UnknownPluginType { iri }
    }
}

impl IdentifiedBy<Iri> for UnknownPluginType {
    fn id(&self) -> (r: &Iri) {
        &self.iri
    }
}

/// Represents an LV2 port type that this crate doesn't understand.  LV2 port
/// types are typically represented by an IRI, so this type is just a wrapper
/// around [`Iri`](crate::rdf_util::Iri).
#[derive(Debug, Clone)]
pub struct UnknownPortType {
    /// IRI identifying the port type.
    iri: Iri,
}

impl UnknownPortType {
    /// The identifying IRI.
    pub closed spec fn spec_id(self) -> Iri {
        self.iri
    }

    /// Constructs a representation of an unknown LV2 port type, identified by
    /// the given IRI.
    pub fn new(iri: Iri) -> (r: UnknownPortType)
        ensures
            r.spec_id() == iri,
    {
        UnknownPortType { iri }
    }
}

impl IdentifiedBy<Iri> for UnknownPortType {
    fn id(&self) -> (r: &Iri) {
        &self.iri
    }
}

/// Represents an LV2 port designation that this crate doesn't understand.
/// LV2 port designations are typically represented by an IRI, so this type is
/// just a wrapper around [`Iri`](crate::rdf_util::Iri).
#[derive(Debug, Clone)]
pub struct UnknownPortDesignation {
    /// IRI identifying the port designation.
    iri: Iri,
}

impl UnknownPortDesignation {
    /// The identifying IRI.
    pub closed spec fn spec_id(self) -> Iri {
        self.iri
    }

    /// Constructs a representation of an unknown LV2 port designation,
    /// identified by the given IRI.
    pub fn new(iri: Iri) -> (r: UnknownPortDesignation)
        ensures
            r.spec_id() == iri,
    {
        UnknownPortDesignation { iri }
    }
}

impl IdentifiedBy<Iri> for UnknownPortDesignation {
    fn id(&self) -> (r: &Iri) {
        &self.iri
    }
}

/// Represents an LV2 port property that this crate doesn't understand.  LV2
/// port properties are typically represented by an IRI, so this type is just
/// a wrapper around [`Iri`](crate::rdf_util::Iri).
#[derive(Debug, Clone)]
pub struct UnknownPortProperty {
    /// IRI identifying the port property.
    iri: Iri,
}

impl UnknownPortProperty {
    /// The identifying IRI.
    pub closed spec fn spec_id(self) -> Iri {
        self.iri
    }

    /// Constructs a representation of an unknown LV2 port property,
    /// identified by the given IRI.
    pub fn new(iri: Iri) -> (r: UnknownPortProperty)
        ensures
            r.spec_id() == iri,
    {
        UnknownPortProperty { iri }
    }
}

impl IdentifiedBy<Iri> for UnknownPortProperty {
    fn id(&self) -> (r: &Iri) {
        &self.iri
    }
}

/// Represents an LV2 port unit that this crate doesn't understand.
#[derive(Debug, Clone)]
pub struct UnknownUnit {
    /// LV2 units may be represented by an IRI.
    iri: Option<Iri>,
    /// Labels for the unit.  Potentially multilingual.
    labels: Vec<Literal>,
    /// LV2 symbol for the unit.
    symbol: Option<Symbol>,
    /// Format string for rendering a value in the unit.
    render_str: Option<String>,
}

impl UnknownUnit {
    /// The identifying IRI, if any.
    pub closed spec fn spec_iri(self) -> Option<Iri> {
        self.iri
    }

    /// The identifying symbol, if any.
    pub closed spec fn spec_symbol(self) -> Option<Symbol> {
        self.symbol
    }

    /// The unit's labels.
    pub closed spec fn spec_labels(self) -> Seq<Literal> {
        self.labels@
    }

    /// The unit's render format string, if any.
    pub closed spec fn spec_render_str(self) -> Option<String> {
        self.render_str
    }

    /// Constructs a representation of an unknown LV2 port unit.
    pub fn new(
        iri: Option<Iri>,
        labels: Vec<Literal>,
        symbol: Option<Symbol>,
        render_str: Option<String>,
    ) -> (r: UnknownUnit)
        ensures
            r.spec_iri() == iri,
            r.spec_labels() == labels@,
            r.spec_symbol() == symbol,
            r.spec_render_str() == render_str,
    {
        UnknownUnit { iri, labels, symbol, render_str }
    }

    /// The labels for the unit.
    pub fn labels(&self) -> (r: &Vec<Literal>)
        ensures
            r@ == self.spec_labels(),
    {
        &self.labels
    }

    /// The render format string for the unit, if any.
    pub fn render_str(&self) -> (r: Option<&String>)
        ensures
            r matches Some(s) ==> self.spec_render_str() == Some(*s),
            r is Some == self.spec_render_str() is Some,
    {
        self.render_str.as_ref()
    }
}

impl OptionallyIdentifiedBy<Iri> for UnknownUnit {
    fn id(&self) -> (r: Option<&Iri>) {
        self.iri.as_ref()
    }
}

impl OptionallyIdentifiedBy<Symbol> for UnknownUnit {
    fn id(&self) -> (r: Option<&Symbol>) {
        self.symbol.as_ref()
    }
}

} // verus!

//! Defines data structures representing information available in an LV2
//! bundle's RDF data.

use vstd::prelude::*;
use crate::rdf_util::Iri;

pub mod constants;
pub mod implications;
pub mod project;
pub mod subclasses;
pub mod symbol;
pub mod unknowns;

verus! {

/// Represents a version specification for an LV2 resource, such as a plugin.
/// A resource version consists of a minor version number and a micro version
/// number.  There is no major version number, because LV2 uses the resource's
/// identification IRI instead of a version number to track
/// non-backwards-compatible changes.  A value of zero for the minor version
/// indicates a pre-release.  An odd value for either the minor version or the
/// micro version indicates a development release.
#[derive(Debug, Clone, Copy, PartialEq, Eq, Hash, Structural)]
pub struct ResourceVersion {
    minor_version: u64,
    micro_version: u64,
}

impl ResourceVersion {
    /// The minor version number.
    pub closed spec fn spec_minor(self) -> u64 {
        self.minor_version
    }

    /// The micro version number.
    pub closed spec fn spec_micro(self) -> u64 {
        self.micro_version
    }

    /// Constructs a resource version object.
    pub fn new(minor_version: u64, micro_version: u64) -> (r: Self)
        ensures
            r.spec_minor() == minor_version,
            r.spec_micro() == micro_version,
    {
        ResourceVersion { minor_version, micro_version }
    }

    /// Gets the minor version number.
    pub fn minor_version(&self) -> (r: u64)
        ensures
            r == self.spec_minor(),
    {
        self.minor_version
    }

    /// Gets the micro version number.
    pub fn micro_version(&self) -> (r: u64)
        ensures
            r == self.spec_micro(),
    {
        self.micro_version
    }

    /// Checks if this version represents a pre-release.
    pub fn is_pre_release(&self) -> (r: bool)
        ensures
            r == (self.spec_minor() == 0),
    {
        self.minor_version == 0
    }

    /// Checks if this version represents a development release other than a
    /// pre-release: the minor version or the micro version is odd.
    pub fn is_dev_release(&self) -> (r: bool)
        ensures
            r == (self.spec_minor() % 2 == 1 || self.spec_micro() % 2 == 1),
    {
        self.minor_version % 2 == 1 || self.micro_version % 2 == 1
    }
}

/// Trait for types that are required to have an "identifier" of the specified
/// type.
pub trait IdentifiedBy<T> {
    /// Gets this object's identifier.
    fn id(&self) -> &T;
}

/// Trait for types that may, but are not required to, have an "identifier" of
/// the specified type.
pub trait OptionallyIdentifiedBy<T> {
    /// Gets this object's identifier, if it has one.
    fn id(&self) -> Option<&T>;
}

/// Defines basic behavior for loadable LV2 entities described in an LV2
/// bundle, such as plugins, UIs, and dynamic manifest generators.
pub trait Loadable {
    /// Gets an IRI pointing to the shared library that implements the entity.
    /// If the IRI is relative, it should be interpreted relative to the
    /// bundle path.
    fn binary(&self) -> Option<&Iri>;
}

} // verus!

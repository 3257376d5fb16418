//! The identified, versioned record that embeddings store and pass around.
//!
//! The broker itself never inspects an entity; the type is part of the
//! library's public surface so that an embedding's storage layer and the
//! broker speak about the same record shape.

use vstd::prelude::*;

verus! {

/// A stored record: a payload together with its identifier and version.
#[derive(Debug, Clone)]
pub struct Entity<T> {
    data: T,
    identifiant: String,
    version: u32,
}

impl<T> Entity<T> {
    /// The record's payload.
    pub closed spec fn spec_data(&self) -> T {
        self.data
    }

    /// The record's identifier, as a character sequence.
    pub closed spec fn spec_identifiant(&self) -> Seq<char> {
        self.identifiant@
    }

    /// The record's version.
    pub closed spec fn spec_version(&self) -> u32 {
        self.version
    }

    /// A record built from its three parts, unchanged.
    pub fn new(data: T, identifiant: String, version: u32) -> (e: Entity<T>)
        ensures
            e.spec_data() == data,
            e.spec_identifiant() == identifiant@,
            e.spec_version() == version,
    {
        Entity { data, identifiant, version }
    }

    /// Read access to the payload.
    pub fn data(&self) -> (d: &T)
        ensures
            *d == self.spec_data(),
    {
        &self.data
    }

    /// Read access to the identifier.
    pub fn identifiant(&self) -> (id: &str)
        ensures
            id@ == self.spec_identifiant(),
    {
        self.identifiant.as_str()
    }

    /// The version number.
    pub fn version(&self) -> (v: u32)
        ensures
            v == self.spec_version(),
    {
        self.version
    }
}

} // verus!

//! Artists of the catalog.

use vstd::prelude::*;

verus! {

/// An artist: identifier and name.
#[derive(Debug, PartialEq, Eq)]
pub struct Artist {
    pub id: String,
    pub name: String,
}

impl Artist {
    /// The artist with this identifier and name.
    pub fn new(id: String, name: String) -> (r: Artist)
        ensures
            r.id == id,
            r.name == name,
    {
        Artist { id, name }
    }
}

} // verus!

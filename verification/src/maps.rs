//! The selectable maps listed from the relational store.

use vstd::prelude::*;

verus! {

/// One selectable map: the tag used in the `map` subcommand and its
/// human-readable name.
#[derive(Debug)]
pub struct CodMap {
    /// Tag the game server loads the map by.
    pub tag: String,
    /// Human-readable map name.
    pub name: String,
}

impl CodMap {
    /// A map entry from its tag and name.
    pub fn new(tag: &str, name: &str) -> (map: CodMap)
        ensures
            map.tag@ == tag@,
            map.name@ == name@,
    {
        CodMap { tag: tag.to_owned(), name: name.to_owned() }
    }
}

} // verus!

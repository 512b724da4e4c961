//! The configuration record of a single deck.

use crate::Number;
use vstd::prelude::*;

verus! {

/// A deck's unique identifier and its name.
#[derive(Debug)]
pub struct DeckConfig {
    id: Number,
    name: String,
}

impl DeckConfig {
    /// The deck's identifier.
    pub closed spec fn spec_id(self) -> Number {
        self.id
    }

    /// The deck's name.
    pub closed spec fn spec_name(self) -> String {
        self.name
    }

    /// Assembles a deck configuration record.
    pub fn new(id: Number, name: String) -> (r: DeckConfig)
        ensures
            r.spec_id() == id,
            r.spec_name() == name,
    {
        DeckConfig { id, name }
    }

    /// The deck's identifier.
    pub fn id(&self) -> (r: Number)
        ensures
            r == self.spec_id(),
    {
        self.id
    }

    /// The deck's name.
    pub fn name(&self) -> (r: &String)
        ensures
            *r == self.spec_name(),
    {
        &self.name
    }
}

} // verus!

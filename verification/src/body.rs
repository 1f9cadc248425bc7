use vstd::prelude::*;

use crate::category::InteractionHandler;
use crate::vector::{Colour, Mass, Position, Velocity};

verus! {

/// The mathematical content of an [`Identifier`]: the two character
/// sequences it holds.
pub ghost struct IdentifierView {
    pub id: Seq<char>,
    pub name: Seq<char>,
}

/// The stable identity of a body: a unique machine id and a
/// human-readable name, both immutable after creation.
#[derive(Debug)]
pub struct Identifier {
    id: String,
    name: String,
}

impl View for Identifier {
    type V = IdentifierView;

    closed spec fn view(&self) -> IdentifierView {
        IdentifierView { id: self.id@, name: self.name@ }
    }
}

impl Identifier {
    pub fn new(id: String, name: String) -> (r: Identifier)
        ensures
            r@.id == id@,
            r@.name == name@,
    {
        Identifier { id, name }
    }

    pub fn get_id(&self) -> (r: &str)
        ensures
            r@ == self@.id,
    {
        self.id.as_str()
    }

    pub fn get_name(&self) -> (r: &str)
        ensures
            r@ == self@.name,
    {
        self.name.as_str()
    }

    /// Whether the two identifiers hold the same machine id.
    pub fn same_id(&self, other: &Identifier) -> (r: bool)
        ensures
            r == (self@.id == other@.id),
    {
        self.id == other.id
    }
}

/// A marker for the periodic state logger. The logger walks the live
/// body set between ticks and reports each body's identity, position,
/// velocity and mass; rendering the numbers and carrying the lines to a
/// sink is the host's business, so the marker itself holds no state.
pub struct Printer;

impl Printer {
    pub fn new() -> (r: Printer)
        ensures
            r == (Printer {  }),
    {
        Printer {  }
    }
}

/// One simulated mass: identity, kinematic state, mass, and the
/// configuration gating which other bodies influence it.
#[derive(Debug)]
pub struct Body {
    pub identifier: Identifier,
    pub position: Position,
    pub velocity: Velocity,
    pub mass: Mass,
    pub handler: InteractionHandler,
    pub colour: Colour,
}

} // verus!

use vstd::prelude::*;

use crate::body::Body;
use crate::vector::{Mass, Position, Velocity};

verus! {

/// The error a registry mutation can report.
#[derive(Clone, Copy, PartialEq, Eq, Structural, Debug)]
pub enum RegistryError {
    /// The machine id of the body being added is already live.
    DuplicateIdentifier,
}

/// Whether no two bodies of `s` share a machine id.
pub open spec fn unique_ids(s: Seq<Body>) -> bool {
    forall|i: int, j: int|
        0 <= i < j < s.len() ==> s[i].identifier@.id != s[j].identifier@.id
}

/// The live body set. The body at slot 0 is the anchor (the primary
/// body): it is created once, is never deleted, and survives every
/// scenario load. Slots are stable: the integrator never creates or
/// destroys bodies, and a scenario load replaces every non-anchor body at
/// once.
pub struct Registry {
    pub(crate) bodies: Vec<Body>,
}

impl View for Registry {
    type V = Seq<Body>;

    closed spec fn view(&self) -> Seq<Body> {
        self.bodies@
    }
}

impl Registry {
    /// The registry's invariant: the anchor exists, and machine ids are
    /// unique across the live set.
    pub open spec fn wf(&self) -> bool {
        self@.len() >= 1 && unique_ids(self@)
    }

    /// A registry holding only the anchor body.
    pub fn new(anchor: Body) -> (r: Registry)
        ensures
            r@.len() == 1,
            r@[0] == anchor,
            r.wf(),
    {
        let mut bodies: Vec<Body> = Vec::new();
        bodies.push(anchor);
        Registry { bodies }
    }

    /// The number of live bodies.
    pub fn len(&self) -> (r: usize)
        ensures
            r == self@.len(),
    {
        self.bodies.len()
    }

    /// The body at slot `i`.
    pub fn body(&self, i: usize) -> (r: &Body)
        requires
            i < self@.len(),
        ensures
            *r == self@[i as int],
    {
        &self.bodies[i]
    }

    /// Adds a body at the end of the live set. Fails, leaving the
    /// registry untouched, exactly when the body's machine id is already
    /// live.
    pub fn add_body(&mut self, b: Body) -> (r: Result<(), RegistryError>)
        ensures
            r is Ok <==> (forall|j: int|
                0 <= j < old(self)@.len() ==> old(self)@[j].identifier@.id != b.identifier@.id),
            r is Ok ==> final(self)@ == old(self)@.push(b),
            r is Err ==> *final(self) == *old(self) && r == Err::<(), RegistryError>(
                RegistryError::DuplicateIdentifier,
            ),
            old(self).wf() ==> final(self).wf(),
    {
        let n = self.bodies.len();
        let mut j: usize = 0;
        while j < n
            invariant
                n == self.bodies@.len(),
                j <= n,
                forall|k: int| 0 <= k < j ==> self.bodies@[k].identifier@.id != b.identifier@.id,
            decreases n - j,
        {
            if self.bodies[j].identifier.same_id(&b.identifier) {
                return Err(RegistryError::DuplicateIdentifier);
            }
            j += 1;
        }
        self.bodies.push(b);
        proof {
            if old(self).wf() {
                assert forall|x: int, y: int|
                    0 <= x < y < self.bodies@.len() implies self.bodies@[x].identifier@.id
                    != self.bodies@[y].identifier@.id by {
                    if y < self.bodies@.len() - 1 {
                        assert(unique_ids(old(self)@));
                    }
                }
            }
        }
        Ok(())
    }

    /// Replaces every body but the anchor at once: afterwards the live
    /// set is the old anchor followed by `rest`. The incoming bodies must
    /// carry pairwise distinct machine ids, none of them the anchor's.
    pub fn reset_from_anchor(&mut self, rest: Vec<Body>)
        requires
            old(self).wf(),
            unique_ids(rest@),
            forall|k: int|
                0 <= k < rest@.len() ==> (#[trigger] rest@[k].identifier@.id) != old(
                    self,
                )@[0].identifier@.id,
        ensures
            final(self)@ == seq![old(self)@[0]] + rest@,
            final(self).wf(),
    {
        let mut rest = rest;
        let ghost incoming = rest@;
        self.bodies.truncate(1);
        self.bodies.append(&mut rest);
        proof {
            assert(self.bodies@ =~= seq![old(self)@[0]] + incoming);
            assert forall|x: int, y: int|
                0 <= x < y < self.bodies@.len() implies self.bodies@[x].identifier@.id
                != self.bodies@[y].identifier@.id by {
                if 0 < x {
                    assert(incoming[x - 1].identifier@.id != incoming[y - 1].identifier@.id);
                }
            }
        }
    }

    /// Replaces the velocity of the body at slot `i`, leaving every other
    /// field and every other body unchanged.
    pub fn set_velocity(&mut self, i: usize, v: Velocity)
        requires
            i < old(self)@.len(),
        ensures
            final(self)@ == old(self)@.update(
                i as int,
                (Body { velocity: v, ..old(self)@[i as int] }),
            ),
    {
        self.bodies[i].velocity = v;
    }

    /// Replaces the position of the body at slot `i`, leaving every other
    /// field and every other body unchanged.
    pub fn set_position(&mut self, i: usize, p: Position)
        requires
            i < old(self)@.len(),
        ensures
            final(self)@ == old(self)@.update(
                i as int,
                (Body { position: p, ..old(self)@[i as int] }),
            ),
    {
        self.bodies[i].position = p;
    }

    /// Replaces the mass of the body at slot `i`: the one explicit
    /// external mutation mass admits (the integrator itself never changes
    /// a mass).
    pub fn set_mass(&mut self, i: usize, m: Mass)
        requires
            i < old(self)@.len(),
        ensures
            final(self)@ == old(self)@.update(
                i as int,
                (Body { mass: m, ..old(self)@[i as int] }),
            ),
    {
        self.bodies[i].mass = m;
    }
}

} // verus!

use vstd::prelude::*;

verus! {

/// The closed classification of a body. A body's category never changes
/// its physical behaviour; it is read only to gate interactions.
#[derive(Clone, Copy, PartialEq, Eq, Structural, Debug)]
pub enum BodyType {
    Star,
    Planet,
}

/// The flag bit standing for a category.
pub open spec fn flag_bit(t: BodyType) -> u32 {
    match t {
        BodyType::Star => 1u32,
        BodyType::Planet => 2u32,
    }
}

/// Whether the flag set `flags` holds the bit of category `t`.
pub open spec fn flags_contain(flags: u32, t: BodyType) -> bool {
    flags & flag_bit(t) == flag_bit(t)
}

/// A set of categories, as a bitset: one bit per [`BodyType`]. A body's
/// flags name the categories of *other* bodies it responds to
/// gravitationally.
#[derive(Clone, Copy, PartialEq, Eq, Structural, Debug)]
pub struct InteractionFlags {
    pub bits: u32,
}

impl InteractionFlags {
    /// The empty set: the body responds to nothing.
    pub fn empty() -> (r: InteractionFlags)
        ensures
            r.bits == 0,
            forall|t: BodyType| !flags_contain(r.bits, t),
    {
        let r = InteractionFlags { bits: 0 };
        proof {
            assert forall|t: BodyType| !flags_contain(r.bits, t) by {
                assert(0u32 & 1 == 0) by (bit_vector);
                assert(0u32 & 2 == 0) by (bit_vector);
            }
        }
        r
    }

    /// The full set: the body responds to every category.
    pub fn all() -> (r: InteractionFlags)
        ensures
            r.bits == 3,
            forall|t: BodyType| flags_contain(r.bits, t),
    {
        let r = InteractionFlags { bits: 3 };
        proof {
            assert forall|t: BodyType| flags_contain(r.bits, t) by {
                assert(3u32 & 1 == 1) by (bit_vector);
                assert(3u32 & 2 == 2) by (bit_vector);
            }
        }
        r
    }

    /// The union of two flag sets.
    pub fn union(self, other: InteractionFlags) -> (r: InteractionFlags)
        ensures
            r.bits == self.bits | other.bits,
    {
        InteractionFlags { bits: self.bits | other.bits }
    }

    /// Whether this set holds the bit of category `t`.
    pub fn contains(&self, t: BodyType) -> (r: bool)
        ensures
            r == flags_contain(self.bits, t),
    {
        let flag: u32 = match t {
            BodyType::Star => 1,
            BodyType::Planet => 2,
        };
        self.bits & flag == flag
    }
}

impl From<BodyType> for InteractionFlags {
    /// The singleton set holding only the bit of `t`.
    fn from(t: BodyType) -> (r: InteractionFlags) {
        match t {
            BodyType::Star => InteractionFlags { bits: 1 },
            BodyType::Planet => InteractionFlags { bits: 2 },
        }
    }
}

impl vstd::std_specs::convert::FromSpecImpl<BodyType> for InteractionFlags {
    open spec fn obeys_from_spec() -> bool {
        true
    }

    open spec fn from_spec(t: BodyType) -> InteractionFlags {
        InteractionFlags { bits: flag_bit(t) }
    }
}

/// A body's interaction configuration: the categories it responds to, and
/// the category it belongs to.
#[derive(Clone, Copy, PartialEq, Eq, Structural, Debug)]
pub struct InteractionHandler {
    pub flags: InteractionFlags,
    pub body_type: BodyType,
}

impl InteractionHandler {
    pub fn new(flags: InteractionFlags, body_type: BodyType) -> (r: InteractionHandler)
        ensures
            r == (InteractionHandler { flags, body_type }),
    {
        InteractionHandler { flags, body_type }
    }
}

/// Whether the body at slot `a_index` responds to the gravity of the body
/// at slot `b_index`: never for the body itself, and otherwise exactly
/// when the receiver's flags hold the source's category bit. The relation
/// is deliberately not symmetric — influence is a property of the
/// receiver's flags against the source's category.
pub open spec fn spec_should_interact(
    a_index: int,
    a: InteractionHandler,
    b_index: int,
    b: InteractionHandler,
) -> bool {
    a_index != b_index && flags_contain(a.flags.bits, b.body_type)
}

/// Influence is decided by the receiver's flags against the source's
/// category alone: what the source's own flags hold never matters. A
/// body whose category appears in no other body's flags still exerts
/// gravity on every body whose flags hold its category.
pub proof fn lemma_influence_ignores_source_flags(
    a_index: int,
    a: InteractionHandler,
    b_index: int,
    b: InteractionHandler,
    other_flags: InteractionFlags,
)
    ensures
        spec_should_interact(a_index, a, b_index, b) == spec_should_interact(
            a_index,
            a,
            b_index,
            (InteractionHandler { flags: other_flags, body_type: b.body_type }),
        ),
{
}

/// Decides whether the body `a` (at slot `a_index`) responds to the
/// gravity of body `b` (at slot `b_index`).
pub fn should_interact(
    a_index: usize,
    a: &InteractionHandler,
    b_index: usize,
    b: &InteractionHandler,
) -> (r: bool)
    ensures
        r == spec_should_interact(a_index as int, *a, b_index as int, *b),
{
    a_index != b_index && a.flags.contains(b.body_type)
}

} // verus!

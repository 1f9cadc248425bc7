use vstd::prelude::*;

use crate::scalar::Scalar;

verus! {

/// A three-component vector of simulation scalars.
#[derive(Clone, Copy, PartialEq, Eq, Structural, Debug)]
pub struct Vector3 {
    pub x: Scalar,
    pub y: Scalar,
    pub z: Scalar,
}

impl Vector3 {
    /// Whether all three components are finite.
    pub fn is_finite(&self) -> (r: bool)
        ensures
            r == (crate::scalar::finite_bits(self.x.bits) && crate::scalar::finite_bits(self.y.bits)
                && crate::scalar::finite_bits(self.z.bits)),
    {
        self.x.is_finite() && self.y.is_finite() && self.z.is_finite()
    }
}

/// The position of a body, in meters.
#[derive(Clone, Copy, PartialEq, Eq, Structural, Debug)]
pub struct Position(pub Vector3);

impl From<Vector3> for Position {
    fn from(v: Vector3) -> (r: Position) {
        Position(v)
    }
}

impl vstd::std_specs::convert::FromSpecImpl<Vector3> for Position {
    open spec fn obeys_from_spec() -> bool {
        true
    }

    open spec fn from_spec(v: Vector3) -> Position {
        Position(v)
    }
}

/// The velocity of a body, in meters per second.
#[derive(Clone, Copy, PartialEq, Eq, Structural, Debug)]
pub struct Velocity(pub Vector3);

impl From<Vector3> for Velocity {
    fn from(v: Vector3) -> (r: Velocity) {
        Velocity(v)
    }
}

impl vstd::std_specs::convert::FromSpecImpl<Vector3> for Velocity {
    open spec fn obeys_from_spec() -> bool {
        true
    }

    open spec fn from_spec(v: Vector3) -> Velocity {
        Velocity(v)
    }
}

/// The mass of a body, in kilograms.
#[derive(Clone, Copy, PartialEq, Eq, Structural, Debug)]
pub struct Mass(pub Scalar);

impl From<Scalar> for Mass {
    fn from(m: Scalar) -> (r: Mass) {
        Mass(m)
    }
}

impl vstd::std_specs::convert::FromSpecImpl<Scalar> for Mass {
    open spec fn obeys_from_spec() -> bool {
        true
    }

    open spec fn from_spec(m: Scalar) -> Mass {
        Mass(m)
    }
}

/// The wall-clock frame delta handed to the integrator, in seconds.
#[derive(Clone, Copy, PartialEq, Eq, Structural, Debug)]
pub struct DeltaTime(pub Scalar);

/// The gravitational constant, read-shared during a tick and mutable only
/// between ticks.
#[derive(Clone, Copy, PartialEq, Eq, Structural, Debug)]
pub struct GravitationalConstant(pub Scalar);

/// A display colour, carried as the bit patterns of four 32-bit reals
/// (red, green, blue, alpha). The library never interprets the channels;
/// it only moves them through saves and loads unchanged.
#[derive(Clone, Copy, PartialEq, Eq, Structural, Debug)]
pub struct Colour {
    pub r: u32,
    pub g: u32,
    pub b: u32,
    pub a: u32,
}

} // verus!

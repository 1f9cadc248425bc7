//! A verified core for a real-time N-body gravitational simulator.
//!
//! The library owns the simulation's decisions: which pairs of bodies
//! gravitationally influence one another, the order of the integrator's
//! phases, what a scenario load may and may not replace. It is parametric
//! in the 64-bit machine arithmetic, which the host supplies through the
//! [`scalar::ScalarArith`] trait; everything the library proves holds for
//! any implementation of that trait.

pub mod body;
pub mod calendar;
pub mod category;
pub mod clock;
pub mod kepler;
pub mod registry;
pub mod scalar;
pub mod simulator;
pub mod state;
pub mod vector;

pub use body::{Body, Identifier, Printer};
pub use calendar::{convert_date_to_julian_day, convert_datetime_to_julian_date, convert_julian_date_to_datetime, convert_julian_day_to_date, Date, DateTime};
pub use category::{BodyType, InteractionFlags, InteractionHandler};
pub use clock::{ClockError, TimeScale};
pub use kepler::keplerian_to_cartesian;
pub use registry::{Registry, RegistryError};
pub use simulator::Simulator;
pub use state::{lemma_scenario_round_trip, CameraState, ConstantState, LoadError, PlanetState, SimulationState, TimeState};
pub use scalar::{Scalar, ScalarArith};
pub use vector::{Colour, DeltaTime, GravitationalConstant, Mass, Position, Vector3, Velocity};

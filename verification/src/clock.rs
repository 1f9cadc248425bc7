use vstd::prelude::*;

use crate::scalar::{Scalar, ScalarArith};

verus! {

/// The error the clock can report at construction.
#[derive(Clone, Copy, PartialEq, Eq, Structural, Debug)]
pub enum ClockError {
    /// A clock with zero iterations per tick is degenerate and is
    /// rejected rather than tolerated.
    ZeroIterations,
}

/// The simulation clock: how much simulated time one external tick
/// represents, and over how many integration iterations (sub-steps) the
/// integrator spreads it.
///
/// `time_scale` is the per-iteration scale, `total_time_elapsed` divided
/// by `iterations`. It is recomputed inside every constructor and every
/// setter, never patched by hand, so it can never be stale with respect
/// to the two inputs.
#[derive(Clone, Copy, PartialEq, Eq, Structural, Debug)]
pub struct TimeScale {
    /// Simulated seconds represented by one sub-step of a one-second
    /// tick: `total_time_elapsed / iterations`.
    pub time_scale: Scalar,
    /// Simulated seconds represented by one full external tick.
    pub total_time_elapsed: Scalar,
    /// Integration iterations per external tick; at least 1.
    pub iterations: usize,
}

impl TimeScale {
    /// The clock's invariant: at least one iteration per tick.
    pub open spec fn wf(&self) -> bool {
        self.iterations >= 1
    }

    /// A clock advancing `total_time_elapsed` simulated seconds per tick
    /// across `iterations` sub-steps. A zero `iterations` is rejected.
    pub fn new<A: ScalarArith>(arith: &A, total_time_elapsed: Scalar, iterations: usize) -> (r:
        TimeScale)
        requires
            iterations >= 1,
        ensures
            r.total_time_elapsed == total_time_elapsed,
            r.iterations == iterations,
            r.wf(),
    {
        TimeScale {
            time_scale: arith.div(total_time_elapsed, arith.from_usize(iterations)),
            total_time_elapsed,
            iterations,
        }
    }

    /// As [`TimeScale::new`], but reporting the degenerate configuration
    /// as an error instead of requiring the caller to rule it out.
    pub fn try_new<A: ScalarArith>(arith: &A, total_time_elapsed: Scalar, iterations: usize) -> (r:
        Result<TimeScale, ClockError>)
        ensures
            r is Ok <==> iterations >= 1,
            r matches Ok(c) ==> c.total_time_elapsed == total_time_elapsed && c.iterations
                == iterations,
            r is Err ==> r == Err::<TimeScale, ClockError>(ClockError::ZeroIterations),
    {
        if iterations < 1 {
            Err(ClockError::ZeroIterations)
        } else {
            Ok(Self::new(arith, total_time_elapsed, iterations))
        }
    }

    /// A clock advancing `total_time_elapsed` simulated seconds per tick,
    /// with as many iterations as keep each sub-step at or under
    /// `max_time_per_iteration` simulated seconds — never fewer than one.
    pub fn from_max_time_per_iteration<A: ScalarArith>(
        arith: &A,
        total_time_elapsed: Scalar,
        max_time_per_iteration: Scalar,
    ) -> (r: TimeScale)
        ensures
            r.total_time_elapsed == total_time_elapsed,
            r.iterations >= 1,
            r.wf(),
    {
        let quotient = arith.div(total_time_elapsed, max_time_per_iteration);
        let floor: u32 = arith.to_u32(quotient);
        let rounded: u32 = if floor < 0xffff_ffff && arith.lt(arith.from_u32(floor), quotient) {
            floor + 1
        } else {
            floor
        };
        let iterations: usize = if rounded < 1 {
            1
        } else {
            rounded as usize
        };
        Self::new(arith, total_time_elapsed, iterations)
    }

    /// Replaces the simulated seconds per tick, recomputing the
    /// per-iteration scale.
    pub fn set_total_time_elapsed<A: ScalarArith>(&mut self, arith: &A, total_time_elapsed: Scalar)
        requires
            old(self).wf(),
        ensures
            final(self).wf(),
            final(self).total_time_elapsed == total_time_elapsed,
            final(self).iterations == old(self).iterations,
    {
        *self = Self::new(arith, total_time_elapsed, self.iterations);
    }

    /// Replaces the iteration count, recomputing the per-iteration scale.
    /// A zero count is rejected and leaves the clock unchanged.
    pub fn set_iterations<A: ScalarArith>(&mut self, arith: &A, iterations: usize) -> (r: Result<
        (),
        ClockError,
    >)
        requires
            old(self).wf(),
        ensures
            final(self).wf(),
            r is Ok <==> iterations >= 1,
            r is Ok ==> final(self).total_time_elapsed == old(self).total_time_elapsed,
            r is Ok ==> final(self).iterations == iterations,
            r is Err ==> *final(self) == *old(self),
    {
        if iterations < 1 {
            Err(ClockError::ZeroIterations)
        } else {
            *self = Self::new(arith, self.total_time_elapsed, iterations);
            Ok(())
        }
    }
}

} // verus!

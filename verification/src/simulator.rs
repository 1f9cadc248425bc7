use vstd::prelude::*;

use crate::body::Body;
use crate::category::{should_interact, spec_should_interact};
use crate::clock::TimeScale;
use crate::registry::{unique_ids, Registry};
use crate::scalar::ScalarArith;
use crate::vector::{DeltaTime, GravitationalConstant, Position, Vector3, Velocity};

verus! {

/// Whether some body of `s` exerts gravity on the body at slot `i`: some
/// other slot whose category the receiver's flags hold.
pub open spec fn has_partner(s: Seq<Body>, i: int) -> bool {
    exists|j: int|
        0 <= j < s.len() && spec_should_interact(i, s[i].handler, j, s[j].handler)
}

/// Whether `b` is `a` with, at most, positions and velocities changed:
/// same length, and every body keeps its identity, mass, interaction
/// configuration and colour.
pub open spec fn same_statics(a: Seq<Body>, b: Seq<Body>) -> bool {
    &&& a.len() == b.len()
    &&& forall|i: int|
        0 <= i < a.len() ==> {
            &&& #[trigger] b[i].identifier == a[i].identifier
            &&& b[i].mass == a[i].mass
            &&& b[i].handler == a[i].handler
            &&& b[i].colour == a[i].colour
        }
}

/// Which bodies have a gravitational partner depends only on the
/// interaction configurations, so it is stable across anything the
/// integrator does.
pub proof fn lemma_partner_stable(a: Seq<Body>, b: Seq<Body>)
    requires
        same_statics(a, b),
    ensures
        forall|i: int| 0 <= i < a.len() ==> (has_partner(a, i) <==> has_partner(b, i)),
{
    assert forall|i: int| 0 <= i < a.len() implies (has_partner(a, i) <==> has_partner(b, i)) by {
        if has_partner(a, i) {
            let j = choose|j: int|
                0 <= j < a.len() && spec_should_interact(i, a[i].handler, j, a[j].handler);
            assert(b[i].identifier == a[i].identifier);
            assert(b[j].identifier == a[j].identifier);
            assert(spec_should_interact(i, b[i].handler, j, b[j].handler));
        }
        if has_partner(b, i) {
            let j = choose|j: int|
                0 <= j < b.len() && spec_should_interact(i, b[i].handler, j, b[j].handler);
            assert(b[i].identifier == a[i].identifier);
            assert(b[j].identifier == a[j].identifier);
            assert(spec_should_interact(i, a[i].handler, j, a[j].handler));
        }
    }
}

/// The integrator. Each call advances the whole body set by one external
/// tick: `iterations` sub-steps, each a velocity phase over every body
/// (reading only start-of-sub-step positions) followed by a position
/// phase over every body. The phase barrier is structural: the velocity
/// phase writes into a staging vector that is committed only after every
/// body's resultant has been evaluated.
pub struct Simulator;

impl Simulator {
    pub fn new() -> (r: Simulator)
        ensures
            r == (Simulator {  }),
    {
        Simulator {  }
    }

    /// Advances the registry by one external tick of `dt` seconds.
    ///
    /// The integrator never creates or destroys a body, and never touches
    /// a body's identity, mass, interaction configuration or colour. A
    /// body no other body influences — in particular the only body of a
    /// one-body registry — keeps its velocity bit-for-bit, over any
    /// number of sub-steps.
    pub fn run<A: ScalarArith>(
        &self,
        arith: &A,
        registry: &mut Registry,
        dt: DeltaTime,
        time_scale: &TimeScale,
        gravitational_constant: GravitationalConstant,
    )
        ensures
            same_statics(old(registry)@, final(registry)@),
            forall|i: int|
                0 <= i < old(registry)@.len() && !has_partner(old(registry)@, i)
                    ==> final(registry)@[i].velocity == old(registry)@[i].velocity,
            old(registry).wf() ==> final(registry).wf(),
    {
        let n = registry.len();
        let ghost orig = registry@;
        let mut iter: usize = 0;
        while iter < time_scale.iterations
            invariant
                n == registry@.len(),
                iter <= time_scale.iterations,
                same_statics(orig, registry@),
                forall|i: int|
                    0 <= i < orig.len() && !has_partner(orig, i) ==> registry@[i].velocity
                        == orig[i].velocity,
            decreases time_scale.iterations - iter,
        {
            let ghost snap = registry@;

            // Velocity phase: evaluate every body's resultant
            // acceleration against the sub-step's start positions,
            // staging the new velocities.
            let mut staged: Vec<Velocity> = Vec::new();
            let mut i: usize = 0;
            while i < n
                invariant
                    n == registry@.len(),
                    registry@ == snap,
                    i <= n,
                    staged@.len() == i,
                    forall|k: int|
                        0 <= k < i as int && !has_partner(snap, k) ==> staged@[k]
                            == snap[k].velocity,
                decreases n - i,
            {
                let own_position = registry.body(i).position.0;
                let mut resultant: Option<Vector3> = None;
                let mut j: usize = 0;
                while j < n
                    invariant
                        n == registry@.len(),
                        registry@ == snap,
                        i < n,
                        j <= n,
                        own_position == snap[i as int].position.0,
                        resultant is Some ==> has_partner(snap, i as int),
                        resultant is None ==> forall|jj: int|
                            0 <= jj < j as int ==> !spec_should_interact(
                                i as int,
                                snap[i as int].handler,
                                jj,
                                snap[jj].handler,
                            ),
                    decreases n - j,
                {
                    if should_interact(i, &registry.body(i).handler, j, &registry.body(j).handler) {
                        // Displacement from this body to the other.
                        let other = registry.body(j).position.0;
                        let rx = arith.sub(other.x, own_position.x);
                        let ry = arith.sub(other.y, own_position.y);
                        let rz = arith.sub(other.z, own_position.z);

                        // Newton's law of universal gravitation, divided
                        // through by the receiving mass:
                        // a = G * m_other / |r|^2.
                        let mag2 = arith.add(
                            arith.add(arith.mul(rx, rx), arith.mul(ry, ry)),
                            arith.mul(rz, rz),
                        );
                        let accel = arith.div(
                            arith.mul(gravitational_constant.0, registry.body(j).mass.0),
                            mag2,
                        );

                        // Project the acceleration onto the direction of
                        // the other body.
                        let inv_mag = arith.div(arith.from_u32(1), arith.sqrt(mag2));
                        let cx = arith.mul(accel, arith.mul(rx, inv_mag));
                        let cy = arith.mul(accel, arith.mul(ry, inv_mag));
                        let cz = arith.mul(accel, arith.mul(rz, inv_mag));

                        resultant = match resultant {
                            None => Some(Vector3 { x: cx, y: cy, z: cz }),
                            Some(acc) => Some(
                                Vector3 {
                                    x: arith.add(acc.x, cx),
                                    y: arith.add(acc.y, cy),
                                    z: arith.add(acc.z, cz),
                                },
                            ),
                        };
                        proof {
                            assert(spec_should_interact(
                                i as int,
                                snap[i as int].handler,
                                j as int,
                                snap[j as int].handler,
                            ));
                        }
                    }
                    j += 1;
                }

                match resultant {
                    Some(res) => {
                        // v += a * time_scale * dt, scaling in the same
                        // order on each component.
                        let v = registry.body(i).velocity.0;
                        let nv = Vector3 {
                            x: arith.add(
                                v.x,
                                arith.mul(arith.mul(res.x, time_scale.time_scale), dt.0),
                            ),
                            y: arith.add(
                                v.y,
                                arith.mul(arith.mul(res.y, time_scale.time_scale), dt.0),
                            ),
                            z: arith.add(
                                v.z,
                                arith.mul(arith.mul(res.z, time_scale.time_scale), dt.0),
                            ),
                        };
                        staged.push(Velocity(nv));
                    },
                    None => {
                        // No interacting body: the velocity is left
                        // unchanged, not zeroed.
                        staged.push(registry.body(i).velocity);
                    },
                }
                i += 1;
            }

            // Commit the staged velocities: the barrier between the two
            // phases.
            let mut k: usize = 0;
            while k < n
                invariant
                    n == registry@.len(),
                    n == snap.len(),
                    n == staged@.len(),
                    k <= n,
                    forall|m: int|
                        0 <= m < k as int ==> registry@[m] == (Body {
                            velocity: staged@[m],
                            ..snap[m]
                        }),
                    forall|m: int| k as int <= m < n ==> registry@[m] == snap[m],
                decreases n - k,
            {
                registry.set_velocity(k, staged[k]);
                k += 1;
            }

            let ghost mid = registry@;

            // Position phase: p += v * time_scale * dt, reading the
            // committed velocities.
            let mut m: usize = 0;
            while m < n
                invariant
                    n == registry@.len(),
                    n == mid.len(),
                    m <= n,
                    forall|q: int|
                        0 <= q < m as int ==> registry@[q] == (Body {
                            position: registry@[q].position,
                            ..mid[q]
                        }),
                    forall|q: int| m as int <= q < n ==> registry@[q] == mid[q],
                decreases n - m,
            {
                let p = registry.body(m).position.0;
                let v = registry.body(m).velocity.0;
                let np = Vector3 {
                    x: arith.add(p.x, arith.mul(arith.mul(v.x, time_scale.time_scale), dt.0)),
                    y: arith.add(p.y, arith.mul(arith.mul(v.y, time_scale.time_scale), dt.0)),
                    z: arith.add(p.z, arith.mul(arith.mul(v.z, time_scale.time_scale), dt.0)),
                };
                registry.set_position(m, Position(np));
                m += 1;
            }

            proof {
                lemma_partner_stable(orig, snap);
            }
            iter += 1;
        }
        proof {
            if old(registry).wf() {
                assert forall|x: int, y: int|
                    0 <= x < y < registry@.len() implies registry@[x].identifier@.id
                    != registry@[y].identifier@.id by {
                    assert(unique_ids(orig));
                    assert(registry@[x].identifier == orig[x].identifier);
                    assert(registry@[y].identifier == orig[y].identifier);
                }
            }
        }
    }
}

} // verus!

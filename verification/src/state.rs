use vstd::prelude::*;

use crate::body::{Body, Identifier};
use crate::category::{BodyType, InteractionFlags, InteractionHandler};
use crate::clock::TimeScale;
use crate::registry::{unique_ids, Registry};
use crate::scalar::{positive_bits, Scalar, ScalarArith};
use crate::vector::{Colour, GravitationalConstant, Mass, Position, Vector3, Velocity};

verus! {

/// The error a scenario load can report. Shape-level faults — a missing
/// field, a value of the wrong type, unparseable text — belong to the
/// host's decoder and never reach this library; what is reported here is
/// semantic: the staged document cannot describe a live body set.
#[derive(Clone, Copy, PartialEq, Eq, Structural, Debug)]
pub enum LoadError {
    /// The planet entry at `index` carries a mass that does not compare
    /// strictly greater than zero.
    NonPositiveMass { index: usize },
    /// The planet entry at `index` repeats the machine id of an earlier
    /// entry.
    DuplicateIdentifier { index: usize },
}

/// The time section of a saved scenario: a timestamp rendered by the
/// host, and the simulated seconds one tick represents.
pub struct TimeState {
    pub date_time: String,
    pub time_scale: Scalar,
}

/// The constants section of a saved scenario.
pub struct ConstantState {
    pub gravitational_constant: Scalar,
}

/// The camera section of a saved scenario. The components are the bit
/// patterns of 32-bit reals; the library never interprets them.
pub struct CameraState {
    pub camera_position: [u32; 3],
    pub camera_speed: u32,
}

/// One planet entry of a saved scenario.
pub struct PlanetState {
    pub id: String,
    pub name: String,
    pub position: Vector3,
    pub velocity: Vector3,
    pub mass: Scalar,
    pub colour: Colour,
}

/// A fully staged scenario document: everything a save records and a
/// load consumes. Text encodings of this structure (and their
/// syntax-level errors) are the host's business; the library owns its
/// relation to the live registry.
pub struct SimulationState {
    pub time_state: TimeState,
    pub constant_state: ConstantState,
    pub camera_state: CameraState,
    pub planet_state: Vec<PlanetState>,
}

/// The mathematical content of one planet entry: every field a save
/// records, with the strings as character sequences.
pub ghost struct PlanetRecord {
    pub id: Seq<char>,
    pub name: Seq<char>,
    pub position: Vector3,
    pub velocity: Vector3,
    pub mass: Scalar,
    pub colour: Colour,
}

/// The record a planet entry denotes.
pub open spec fn planet_record(p: PlanetState) -> PlanetRecord {
    PlanetRecord {
        id: p.id@,
        name: p.name@,
        position: p.position,
        velocity: p.velocity,
        mass: p.mass,
        colour: p.colour,
    }
}

/// The record a live body denotes: the fields a save would record of it.
pub open spec fn body_record(b: Body) -> PlanetRecord {
    PlanetRecord {
        id: b.identifier@.id,
        name: b.identifier@.name,
        position: b.position.0,
        velocity: b.velocity.0,
        mass: b.mass.0,
        colour: b.colour,
    }
}

/// The records of a sequence of planet entries, in order.
pub open spec fn records_of_planets(s: Seq<PlanetState>) -> Seq<PlanetRecord> {
    s.map_values(|p: PlanetState| planet_record(p))
}

/// The records of a sequence of live bodies, in order.
pub open spec fn records_of_bodies(s: Seq<Body>) -> Seq<PlanetRecord> {
    s.map_values(|b: Body| body_record(b))
}

/// The records a load keeps from a planet list: every record whose id is
/// not the anchor's, in order. The anchor is pre-existing and is never
/// reconstructed from saved state.
pub open spec fn kept_records(anchor_id: Seq<char>, rs: Seq<PlanetRecord>) -> Seq<PlanetRecord> {
    rs.filter(|r: PlanetRecord| r.id != anchor_id)
}

/// Whether a planet list can be loaded against an anchor with id
/// `anchor_id`: every kept record carries a mass comparing strictly
/// greater than zero, and no two kept records share a machine id.
pub open spec fn loadable(anchor_id: Seq<char>, rs: Seq<PlanetRecord>) -> bool {
    let kept = kept_records(anchor_id, rs);
    &&& forall|i: int| 0 <= i < kept.len() ==> positive_bits(#[trigger] kept[i].mass.bits)
    &&& forall|i: int, j: int| 0 <= i < j < kept.len() ==> kept[i].id != kept[j].id
}

proof fn lemma_filter_push<T>(s: Seq<T>, x: T, pred: spec_fn(T) -> bool)
    ensures
        pred(x) ==> s.push(x).filter(pred) == s.filter(pred).push(x),
        !pred(x) ==> s.push(x).filter(pred) == s.filter(pred),
{
    reveal(Seq::filter);
    assert(s.push(x).drop_last() =~= s);
    assert(s.push(x).last() == x);
}

proof fn lemma_records_of_planets_push(s: Seq<PlanetState>, p: PlanetState)
    ensures
        records_of_planets(s.push(p)) == records_of_planets(s).push(planet_record(p)),
{
    assert(records_of_planets(s.push(p)) =~= records_of_planets(s).push(planet_record(p)));
}

proof fn lemma_records_of_planets_add(a: Seq<PlanetState>, b: Seq<PlanetState>)
    ensures
        records_of_planets(a + b) == records_of_planets(a) + records_of_planets(b),
{
    assert(records_of_planets(a + b) =~= records_of_planets(a) + records_of_planets(b));
}

proof fn lemma_filter_all<T>(s: Seq<T>, pred: spec_fn(T) -> bool)
    requires
        forall|i: int| 0 <= i < s.len() ==> pred(#[trigger] s[i]),
    ensures
        s.filter(pred) == s,
    decreases s.len(),
{
    reveal(Seq::filter);
    if s.len() == 0 {
        assert(s.filter(pred) =~= s);
    } else {
        lemma_filter_all(s.drop_last(), pred);
        assert(pred(s.last()));
        assert(s.drop_last().push(s.last()) =~= s);
        assert(s.filter(pred) =~= s);
    }
}

/// A capture loads back into an equivalent registry.
///
/// For any well-formed body set whose non-anchor bodies all carry a
/// positive mass, the planet list a capture records — the non-anchor
/// bodies, in order ([`SimulationState::serialize_from_world`]) — is
/// loadable against the set's own anchor, and a load of it
/// ([`SimulationState::deserialize_to_world`]) reproduces every recorded
/// field of every body — id, name, position, velocity, mass, colour —
/// bit for bit, the anchor first.
pub proof fn lemma_scenario_round_trip(bodies: Seq<Body>)
    requires
        bodies.len() >= 1,
        unique_ids(bodies),
        forall|i: int| 1 <= i < bodies.len() ==> positive_bits(#[trigger] bodies[i].mass.0.bits),
    ensures
        loadable(bodies[0].identifier@.id, records_of_bodies(bodies.skip(1))),
        seq![body_record(bodies[0])] + kept_records(
            bodies[0].identifier@.id,
            records_of_bodies(bodies.skip(1)),
        ) == records_of_bodies(bodies),
{
    let anchor = bodies[0].identifier@.id;
    let rs = records_of_bodies(bodies.skip(1));
    let keeps = |r: PlanetRecord| r.id != anchor;
    assert forall|i: int| 0 <= i < rs.len() implies keeps(#[trigger] rs[i]) by {
        assert(rs[i] == body_record(bodies.skip(1)[i]));
        assert(bodies.skip(1)[i] == bodies[i + 1]);
        assert(bodies[0].identifier@.id != bodies[i + 1].identifier@.id);
    }
    lemma_filter_all(rs, keeps);
    assert(kept_records(anchor, rs) == rs);
    assert forall|i: int| 0 <= i < rs.len() implies positive_bits(
        #[trigger] rs[i].mass.bits,
    ) by {
        assert(rs[i] == body_record(bodies[i + 1]));
    }
    assert forall|i: int, j: int| 0 <= i < j < rs.len() implies rs[i].id != rs[j].id by {
        assert(rs[i] == body_record(bodies[i + 1]));
        assert(rs[j] == body_record(bodies[j + 1]));
        assert(bodies[i + 1].identifier@.id != bodies[j + 1].identifier@.id);
    }
    assert(seq![body_record(bodies[0])] + rs =~= records_of_bodies(bodies));
}

impl SimulationState {
    /// Captures the live simulation into a staged scenario document.
    ///
    /// The planet list holds every body but the anchor (slot 0), in
    /// registry order, field for field; the anchor is the built-in
    /// primary body and is never recorded. The timestamp and the camera
    /// section are recorded as handed in.
    pub fn serialize_from_world(
        registry: &Registry,
        time_scale: &TimeScale,
        gravitational_constant: GravitationalConstant,
        camera_position: [u32; 3],
        camera_speed: u32,
        date_time: String,
    ) -> (r: SimulationState)
        requires
            registry@.len() >= 1,
        ensures
            records_of_planets(r.planet_state@) == records_of_bodies(registry@.skip(1)),
            r.time_state.date_time == date_time,
            r.time_state.time_scale == time_scale.total_time_elapsed,
            r.constant_state.gravitational_constant == gravitational_constant.0,
            r.camera_state.camera_position == camera_position,
            r.camera_state.camera_speed == camera_speed,
    {
        let n = registry.len();
        let mut planet_state: Vec<PlanetState> = Vec::new();
        let mut i: usize = 1;
        while i < n
            invariant
                1 <= i <= n,
                n == registry@.len(),
                planet_state@.len() == i - 1,
                forall|k: int|
                    0 <= k < i - 1 ==> planet_record(#[trigger] planet_state@[k]) == body_record(
                        registry@[k + 1],
                    ),
            decreases n - i,
        {
            let b = registry.body(i);
            planet_state.push(
                PlanetState {
                    id: b.identifier.get_id().to_owned(),
                    name: b.identifier.get_name().to_owned(),
                    position: b.position.0,
                    velocity: b.velocity.0,
                    mass: b.mass.0,
                    colour: b.colour,
                },
            );
            i += 1;
        }
        proof {
            assert(records_of_planets(planet_state@) =~= records_of_bodies(registry@.skip(1)));
        }
        SimulationState {
            time_state: TimeState { date_time, time_scale: time_scale.total_time_elapsed },
            constant_state: ConstantState {
                gravitational_constant: gravitational_constant.0,
            },
            camera_state: CameraState { camera_position, camera_speed },
            planet_state,
        }
    }

    /// Loads a staged scenario document into the live simulation.
    ///
    /// The document is validated in full before anything is touched: on
    /// an error the registry, the clock and the gravitational constant
    /// are left exactly as they were. On success the registry becomes
    /// the old anchor followed by one body per kept planet entry — every
    /// entry whose id is not the anchor's — each created responding to
    /// every category, in the Planet category; the clock is rebuilt for
    /// the saved seconds-per-tick with at most a day of simulated time
    /// per iteration; and the gravitational constant is replaced.
    pub fn deserialize_to_world<A: ScalarArith>(
        &self,
        arith: &A,
        registry: &mut Registry,
        time_scale: &mut TimeScale,
        gravitational_constant: &mut GravitationalConstant,
    ) -> (r: Result<(), LoadError>)
        requires
            old(registry).wf(),
            old(time_scale).wf(),
        ensures
            final(registry).wf(),
            final(time_scale).wf(),
            r is Ok <==> loadable(
                old(registry)@[0].identifier@.id,
                records_of_planets(self.planet_state@),
            ),
            r is Ok ==> records_of_bodies(final(registry)@) == seq![
                body_record(old(registry)@[0]),
            ] + kept_records(
                old(registry)@[0].identifier@.id,
                records_of_planets(self.planet_state@),
            ),
            r is Ok ==> final(registry)@[0] == old(registry)@[0],
            r is Ok ==> forall|k: int|
                1 <= k < final(registry)@.len() ==> (#[trigger] final(registry)@[k].handler)
                    == (InteractionHandler {
                    flags: InteractionFlags { bits: 3 },
                    body_type: BodyType::Planet,
                }),
            r is Ok ==> final(time_scale).total_time_elapsed == self.time_state.time_scale,
            r is Ok ==> final(gravitational_constant).0
                == self.constant_state.gravitational_constant,
            r is Err ==> *final(registry) == *old(registry) && *final(time_scale) == *old(
                time_scale,
            ) && *final(gravitational_constant) == *old(gravitational_constant),
    {
        let ghost anchor = old(registry)@[0].identifier@.id;
        let ghost all = records_of_planets(self.planet_state@);
        let ghost keeps = |r: PlanetRecord| r.id != anchor;
        let anchor_id: String = registry.body(0).identifier.get_id().to_owned();
        let n = self.planet_state.len();
        let mut staged: Vec<Body> = Vec::new();
        let mut i: usize = 0;
        while i < n
            invariant
                *registry == *old(registry),
                *time_scale == *old(time_scale),
                *gravitational_constant == *old(gravitational_constant),
                old(registry).wf(),
                old(time_scale).wf(),
                anchor == old(registry)@[0].identifier@.id,
                n == self.planet_state@.len(),
                i <= n,
                anchor_id@ == anchor,
                all == records_of_planets(self.planet_state@),
                keeps == (|r: PlanetRecord| r.id != anchor),
                records_of_bodies(staged@) == kept_records(
                    anchor,
                    records_of_planets(self.planet_state@.take(i as int)),
                ),
                forall|x: int|
                    0 <= x < staged@.len() ==> positive_bits(#[trigger] staged@[x].mass.0.bits),
                unique_ids(staged@),
                forall|x: int|
                    0 <= x < staged@.len() ==> (#[trigger] staged@[x].identifier@.id) != anchor,
                forall|x: int|
                    0 <= x < staged@.len() ==> (#[trigger] staged@[x].handler)
                        == (InteractionHandler {
                        flags: InteractionFlags { bits: 3 },
                        body_type: BodyType::Planet,
                    }),
            decreases n - i,
        {
            let p = &self.planet_state[i];
            let ghost rec = planet_record(self.planet_state@[i as int]);
            proof {
                lemma_records_of_planets_push(
                    self.planet_state@.take(i as int),
                    self.planet_state@[i as int],
                );
                assert(self.planet_state@.take(i as int).push(self.planet_state@[i as int]) =~= self
                    .planet_state@.take(i as int + 1));
                lemma_filter_push(
                    records_of_planets(self.planet_state@.take(i as int)),
                    rec,
                    keeps,
                );
            }
            if !(p.id == anchor_id) {
                if !p.mass.is_positive() {
                    proof {
                        let prefix = records_of_planets(self.planet_state@.take(i as int + 1));
                        let suffix = records_of_planets(self.planet_state@.skip(i as int + 1));
                        lemma_records_of_planets_add(
                            self.planet_state@.take(i as int + 1),
                            self.planet_state@.skip(i as int + 1),
                        );
                        assert(self.planet_state@.take(i as int + 1) + self.planet_state@.skip(
                            i as int + 1,
                        ) =~= self.planet_state@);
                        Seq::filter_distributes_over_add(prefix, suffix, keeps);
                        let bad = records_of_bodies(staged@).len() as int;
                        assert(kept_records(anchor, all)[bad] == rec);
                        assert(!positive_bits(kept_records(anchor, all)[bad].mass.bits));
                    }
                    return Err(LoadError::NonPositiveMass { index: i });
                }
                let ident = Identifier::new(p.id.clone(), p.name.clone());
                let mut j: usize = 0;
                let staged_len = staged.len();
                while j < staged_len
                    invariant
                        *registry == *old(registry),
                        *time_scale == *old(time_scale),
                        *gravitational_constant == *old(gravitational_constant),
                        old(registry).wf(),
                        old(time_scale).wf(),
                        anchor == old(registry)@[0].identifier@.id,
                        n == self.planet_state@.len(),
                        i < n,
                        all == records_of_planets(self.planet_state@),
                        keeps == (|r: PlanetRecord| r.id != anchor),
                        rec == planet_record(self.planet_state@[i as int]),
                        rec.id != anchor,
                        records_of_bodies(staged@) == kept_records(
                            anchor,
                            records_of_planets(self.planet_state@.take(i as int)),
                        ),
                        staged_len == staged@.len(),
                        j <= staged_len,
                        ident@.id == rec.id,
                        forall|x: int|
                            0 <= x < j as int ==> (#[trigger] staged@[x].identifier@.id) != rec.id,
                    decreases staged_len - j,
                {
                    if staged[j].identifier.same_id(&ident) {
                        proof {
                            lemma_records_of_planets_push(
                                self.planet_state@.take(i as int),
                                self.planet_state@[i as int],
                            );
                            assert(self.planet_state@.take(i as int).push(
                                self.planet_state@[i as int],
                            ) =~= self.planet_state@.take(i as int + 1));
                            lemma_filter_push(
                                records_of_planets(self.planet_state@.take(i as int)),
                                rec,
                                keeps,
                            );
                            let prefix = records_of_planets(
                                self.planet_state@.take(i as int + 1),
                            );
                            let suffix = records_of_planets(
                                self.planet_state@.skip(i as int + 1),
                            );
                            lemma_records_of_planets_add(
                                self.planet_state@.take(i as int + 1),
                                self.planet_state@.skip(i as int + 1),
                            );
                            assert(self.planet_state@.take(i as int + 1) + self.planet_state@.skip(
                                i as int + 1,
                            ) =~= self.planet_state@);
                            Seq::filter_distributes_over_add(prefix, suffix, keeps);
                            let late = records_of_bodies(staged@).len() as int;
                            assert(kept_records(anchor, all)[late] == rec);
                            assert(kept_records(anchor, all)[j as int].id == rec.id);
                        }
                        return Err(LoadError::DuplicateIdentifier { index: i });
                    }
                    j += 1;
                }
                let body = Body {
                    identifier: ident,
                    position: Position(p.position),
                    velocity: Velocity(p.velocity),
                    mass: Mass(p.mass),
                    handler: InteractionHandler::new(InteractionFlags::all(), BodyType::Planet),
                    colour: p.colour,
                };
                staged.push(body);
                proof {
                    assert(records_of_bodies(staged@) =~= kept_records(
                        anchor,
                        records_of_planets(self.planet_state@.take(i as int + 1)),
                    ));
                }
            }
            i += 1;
        }

        proof {
            assert(self.planet_state@.take(n as int) =~= self.planet_state@);
            assert(records_of_bodies(staged@) == kept_records(anchor, all));
            assert forall|x: int, y: int|
                0 <= x < y < kept_records(anchor, all).len() implies kept_records(anchor, all)[x].id
                != kept_records(anchor, all)[y].id by {
                assert(kept_records(anchor, all)[x] == records_of_bodies(staged@)[x]);
                assert(kept_records(anchor, all)[y] == records_of_bodies(staged@)[y]);
            }
            assert(loadable(anchor, all));
        }

        let ghost staged_view = staged@;
        registry.reset_from_anchor(staged);
        *time_scale = TimeScale::from_max_time_per_iteration(
            arith,
            self.time_state.time_scale,
            arith.from_u32(86400),
        );
        *gravitational_constant = GravitationalConstant(self.constant_state.gravitational_constant);
        proof {
            assert(records_of_bodies(registry@) =~= seq![body_record(old(registry)@[0])]
                + records_of_bodies(staged_view));
        }
        Ok(())
    }
}

} // verus!

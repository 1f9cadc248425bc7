use gravsim::{
    convert_date_to_julian_day, convert_datetime_to_julian_date, convert_julian_date_to_datetime,
    convert_julian_day_to_date, keplerian_to_cartesian, Body, BodyType, ClockError, Colour, Date,
    DateTime, DeltaTime, GravitationalConstant, Identifier, InteractionFlags, InteractionHandler,
    LoadError, Mass, Position, Registry, RegistryError, Scalar, ScalarArith, SimulationState,
    Simulator, TimeScale, Vector3, Velocity,
};

const BIG_G: f64 = 6.6743015e-11;

/// The hardware 64-bit arithmetic the library is parametric over.
struct HostArith;

fn s(x: f64) -> Scalar {
    Scalar { bits: x.to_bits() }
}

fn f(x: Scalar) -> f64 {
    f64::from_bits(x.bits)
}

impl ScalarArith for HostArith {
    fn add(&self, a: Scalar, b: Scalar) -> Scalar {
        s(f(a) + f(b))
    }
    fn sub(&self, a: Scalar, b: Scalar) -> Scalar {
        s(f(a) - f(b))
    }
    fn mul(&self, a: Scalar, b: Scalar) -> Scalar {
        s(f(a) * f(b))
    }
    fn div(&self, a: Scalar, b: Scalar) -> Scalar {
        s(f(a) / f(b))
    }
    fn neg(&self, a: Scalar) -> Scalar {
        s(-f(a))
    }
    fn sqrt(&self, a: Scalar) -> Scalar {
        s(f(a).sqrt())
    }
    fn sin(&self, a: Scalar) -> Scalar {
        s(f(a).sin())
    }
    fn cos(&self, a: Scalar) -> Scalar {
        s(f(a).cos())
    }
    fn atan2(&self, y: Scalar, x: Scalar) -> Scalar {
        s(f(y).atan2(f(x)))
    }
    fn floor(&self, a: Scalar) -> Scalar {
        s(f(a).floor())
    }
    fn round(&self, a: Scalar) -> Scalar {
        s(f(a).round())
    }
    fn eq(&self, a: Scalar, b: Scalar) -> bool {
        f(a) == f(b)
    }
    fn lt(&self, a: Scalar, b: Scalar) -> bool {
        f(a) < f(b)
    }
    fn from_u32(&self, n: u32) -> Scalar {
        s(n as f64)
    }
    fn from_usize(&self, n: usize) -> Scalar {
        s(n as f64)
    }
    fn to_u32(&self, a: Scalar) -> u32 {
        f(a) as u32
    }
}

fn v3(x: f64, y: f64, z: f64) -> Vector3 {
    Vector3 { x: s(x), y: s(y), z: s(z) }
}

fn magnitude(v: Vector3) -> f64 {
    (f(v.x) * f(v.x) + f(v.y) * f(v.y) + f(v.z) * f(v.z)).sqrt()
}

fn grey() -> Colour {
    Colour {
        r: 0.5f32.to_bits(),
        g: 0.5f32.to_bits(),
        b: 0.5f32.to_bits(),
        a: 1.0f32.to_bits(),
    }
}

fn body(
    id: &str,
    name: &str,
    position: Vector3,
    velocity: Vector3,
    mass: f64,
    body_type: BodyType,
    flags: InteractionFlags,
) -> Body {
    Body {
        identifier: Identifier::new(id.to_string(), name.to_string()),
        position: Position(position),
        velocity: Velocity(velocity),
        mass: Mass(s(mass)),
        handler: InteractionHandler::new(flags, body_type),
        colour: grey(),
    }
}

fn sun() -> Body {
    body(
        "sun",
        "Sun",
        v3(0.0, 0.0, 0.0),
        v3(0.0, 0.0, 0.0),
        1.989e30,
        BodyType::Star,
        InteractionFlags::all(),
    )
}

fn earth() -> Body {
    body(
        "earth",
        "Earth",
        v3(149.596e9, 0.0, 0.0),
        v3(0.0, 29.78e3, 0.0),
        5.9724e24,
        BodyType::Planet,
        InteractionFlags::all(),
    )
}

#[test]
fn test_keplerian_conversion_earth() {
    // Values from the real orbit of the Earth.
    let (earth_pos, earth_vel) = keplerian_to_cartesian(
        &HostArith,
        s(149.60e9),               // Semi-major axis
        s(0.0167086),              // Eccentricity
        s(288.1_f64.to_radians()), // Argument of periapsis
        s(174.9_f64.to_radians()), // Longitude of ascending node
        s(7.155_f64.to_radians()), // inclination of orbit
        s(2000.0),                 // Epoch
        s(2000.0),
        s(171.1_f64.to_radians()), // Mean anomaly
        s(BIG_G * 1.9885e30),      // Standard gravitational parameter
    );

    // The distance of the Earth from the Sun is within 30 Gm
    assert!(
        (magnitude(earth_pos) - 152.098_455e9).abs() < 30e6,
        "Expected a distance of {}m but got {}m",
        152.098_455e9,
        magnitude(earth_pos) - 152.098_455e9,
    );

    // The speed is earth is within 10 meters of their actual value (at epoch 2000)
    assert!(
        (magnitude(earth_vel) - 29.29e3).abs() < 10.0,
        "Expected a speed of {}ms^-1 but got {}ms^-1",
        29.29e3,
        magnitude(earth_vel),
    );
}

#[test]
fn test_keplerian_conversion_moon() {
    // Values from the real orbit of the Moon.
    let (moon_pos, moon_vel) = keplerian_to_cartesian(
        &HostArith,
        s(384.748e6),               // Semi-major axis
        s(0.0549006),               // Eccentricity
        s(318.15_f64.to_radians()), // Argument of periapsis
        s(125.08_f64.to_radians()), // Longitude of ascending node
        s(6.4_f64.to_radians()),    // inclination of orbit
        s(2000.0),                  // Epoch
        s(2000.0),
        s(135.27_f64.to_radians()), // Mean anomaly
        s(BIG_G * 5.972e24),        // Standard gravitational parameter
    );

    // The distance of the Moon from the Earth is within 4 Mm
    assert!(
        (magnitude(moon_pos) - 404.132e6).abs() < 4e6,
        "Expected a distance of {}m but got {}m",
        404.132e6,
        magnitude(moon_pos),
    );

    // The speed of the Moon is within 10 meters of their actual value (at epoch 2000)
    assert!(
        (magnitude(moon_vel) - 0.970e3).abs() < 10.0,
        "Expected a speed of {}ms^-1 but got {}ms^-1",
        1.022e3,
        magnitude(moon_vel),
    );
}

#[test]
fn momentum_is_approximately_conserved() {
    let mut registry = Registry::new(sun());
    registry.add_body(earth()).unwrap();

    let arith = HostArith;
    let clock = TimeScale::new(&arith, s(86400.0), 10);
    let g = GravitationalConstant(s(BIG_G));
    let sim = Simulator::new();

    let total_momentum = |r: &Registry| -> [f64; 3] {
        let mut p = [0.0f64; 3];
        for i in 0..r.len() {
            let b = r.body(i);
            let m = f(b.mass.0);
            p[0] += m * f(b.velocity.0.x);
            p[1] += m * f(b.velocity.0.y);
            p[2] += m * f(b.velocity.0.z);
        }
        p
    };

    let before = total_momentum(&registry);
    let before_mag = (before[0] * before[0] + before[1] * before[1] + before[2] * before[2]).sqrt();

    for _ in 0..100 {
        sim.run(&arith, &mut registry, DeltaTime(s(1.0)), &clock, g);
    }

    let after = total_momentum(&registry);
    let drift = ((after[0] - before[0]).powi(2) + (after[1] - before[1]).powi(2)
        + (after[2] - before[2]).powi(2))
    .sqrt();
    assert!(
        drift < 1e-6 * before_mag,
        "momentum drifted by {} out of {}",
        drift,
        before_mag
    );
}

#[test]
fn interaction_is_asymmetric() {
    // The planet responds to the star; the star's flags exclude planets.
    let star = body(
        "sun",
        "Sun",
        v3(0.0, 0.0, 0.0),
        v3(0.0, 0.0, 0.0),
        1.989e30,
        BodyType::Star,
        InteractionFlags::empty(),
    );
    let mut registry = Registry::new(star);
    registry.add_body(earth()).unwrap();

    let arith = HostArith;
    let clock = TimeScale::new(&arith, s(86400.0), 1);
    let star_vel_before = registry.body(0).velocity.0;
    let planet_vel_before = registry.body(1).velocity.0;

    Simulator::new().run(
        &arith,
        &mut registry,
        DeltaTime(s(1.0)),
        &clock,
        GravitationalConstant(s(BIG_G)),
    );

    let star_vel_after = registry.body(0).velocity.0;
    let planet_vel_after = registry.body(1).velocity.0;

    // The planet's velocity changed under the star's gravity.
    assert!(planet_vel_after != planet_vel_before);
    // The star's velocity is bit-for-bit untouched.
    assert_eq!(star_vel_after, star_vel_before);
}

#[test]
fn substep_count_preserves_total_time() {
    // The intended simulated time per tick is the same whether it is
    // spread over 1 or 10 sub-steps, exactly.
    let arith = HostArith;
    let dt = 0.5f64;

    let coarse = TimeScale::new(&arith, s(10.0), 1);
    let fine = TimeScale::new(&arith, s(10.0), 10);

    let mut coarse_total = 0.0f64;
    for _ in 0..coarse.iterations {
        coarse_total += f(coarse.time_scale) * dt;
    }
    let mut fine_total = 0.0f64;
    for _ in 0..fine.iterations {
        fine_total += f(fine.time_scale) * dt;
    }

    assert_eq!(coarse_total, 10.0 * dt);
    assert_eq!(fine_total, 10.0 * dt);
}

#[test]
fn anchor_only_registry_keeps_velocity() {
    let mut registry = Registry::new(sun());
    let arith = HostArith;
    let clock = TimeScale::new(&arith, s(86400.0), 7);
    let before = registry.body(0).velocity.0;

    for _ in 0..25 {
        Simulator::new().run(
            &arith,
            &mut registry,
            DeltaTime(s(1.0)),
            &clock,
            GravitationalConstant(s(BIG_G)),
        );
    }

    assert_eq!(registry.body(0).velocity.0, before);
}

#[test]
fn state_stays_finite_under_stress() {
    let mut registry = Registry::new(sun());
    registry.add_body(earth()).unwrap();
    registry
        .add_body(body(
            "mercury",
            "Mercury",
            v3(57.909e9, 0.0, 0.0),
            v3(0.0, 47.36e3, 0.0),
            0.33011e24,
            BodyType::Planet,
            InteractionFlags::all(),
        ))
        .unwrap();

    let arith = HostArith;
    let clock = TimeScale::new(&arith, s(86400.0), 100);
    for _ in 0..50 {
        Simulator::new().run(
            &arith,
            &mut registry,
            DeltaTime(s(1.0)),
            &clock,
            GravitationalConstant(s(BIG_G)),
        );
    }

    for i in 0..registry.len() {
        let b = registry.body(i);
        assert!(b.position.0.is_finite());
        assert!(b.velocity.0.is_finite());
    }
}

#[test]
fn scenario_round_trip_reproduces_every_field() {
    let mut registry = Registry::new(sun());
    registry.add_body(earth()).unwrap();
    registry
        .add_body(body(
            "venus",
            "Venus",
            v3(108.209e9, 0.0, 0.0),
            v3(0.0, 35.02e3, 0.0),
            4.8675e24,
            BodyType::Planet,
            InteractionFlags::all(),
        ))
        .unwrap();

    let arith = HostArith;
    let clock = TimeScale::new(&arith, s(86400.0), 10);
    let g = GravitationalConstant(s(BIG_G));
    let camera = [1.0f32.to_bits(), 2.0f32.to_bits(), 3.0f32.to_bits()];

    let state = SimulationState::serialize_from_world(
        &registry,
        &clock,
        g,
        camera,
        4.0f32.to_bits(),
        "2000-01-01T12:00:00+00:00".to_string(),
    );

    assert_eq!(state.planet_state.len(), 2);
    assert_eq!(state.time_state.time_scale.bits, 86400.0f64.to_bits());
    assert_eq!(state.constant_state.gravitational_constant.bits, BIG_G.to_bits());
    assert_eq!(state.camera_state.camera_position, camera);

    let mut restored = Registry::new(sun());
    let mut restored_clock = TimeScale::new(&arith, s(1.0), 1);
    let mut restored_g = GravitationalConstant(s(1.0));
    state
        .deserialize_to_world(&arith, &mut restored, &mut restored_clock, &mut restored_g)
        .unwrap();

    assert_eq!(restored.len(), registry.len());
    for i in 0..registry.len() {
        let a = registry.body(i);
        let b = restored.body(i);
        assert_eq!(a.identifier.get_id(), b.identifier.get_id());
        assert_eq!(a.identifier.get_name(), b.identifier.get_name());
        assert_eq!(a.position.0, b.position.0);
        assert_eq!(a.velocity.0, b.velocity.0);
        assert_eq!(a.mass.0, b.mass.0);
        assert_eq!(a.colour, b.colour);
    }
    assert_eq!(f(restored_clock.total_time_elapsed), 86400.0);
    assert_eq!(f(restored_g.0), BIG_G);
}

#[test]
fn load_never_reconstructs_the_anchor() {
    let arith = HostArith;
    let mut registry = Registry::new(sun());
    let clock = TimeScale::new(&arith, s(86400.0), 10);
    let g = GravitationalConstant(s(BIG_G));

    let mut state = SimulationState::serialize_from_world(
        &registry,
        &clock,
        g,
        [0; 3],
        0,
        String::new(),
    );
    // A document that tries to smuggle in a second sun: the entry is
    // ignored, the built-in anchor stays.
    state.planet_state.push(gravsim::PlanetState {
        id: "sun".to_string(),
        name: "Impostor".to_string(),
        position: v3(1.0, 2.0, 3.0),
        velocity: v3(0.0, 0.0, 0.0),
        mass: s(1.0),
        colour: grey(),
    });

    let mut restored_clock = clock;
    let mut restored_g = g;
    state
        .deserialize_to_world(&arith, &mut registry, &mut restored_clock, &mut restored_g)
        .unwrap();

    assert_eq!(registry.len(), 1);
    assert_eq!(registry.body(0).identifier.get_name(), "Sun");
}

#[test]
fn failed_load_leaves_the_simulation_intact() {
    let arith = HostArith;
    let mut registry = Registry::new(sun());
    registry.add_body(earth()).unwrap();
    let mut clock = TimeScale::new(&arith, s(86400.0), 10);
    let mut g = GravitationalConstant(s(BIG_G));

    let bad_mass = SimulationState {
        time_state: gravsim::TimeState { date_time: String::new(), time_scale: s(1.0) },
        constant_state: gravsim::ConstantState { gravitational_constant: s(2.0) },
        camera_state: gravsim::CameraState { camera_position: [0; 3], camera_speed: 0 },
        planet_state: vec![gravsim::PlanetState {
            id: "pluto".to_string(),
            name: "Pluto".to_string(),
            position: v3(0.0, 0.0, 0.0),
            velocity: v3(0.0, 0.0, 0.0),
            mass: s(-1.0),
            colour: grey(),
        }],
    };

    let err = bad_mass
        .deserialize_to_world(&arith, &mut registry, &mut clock, &mut g)
        .unwrap_err();
    assert_eq!(err, LoadError::NonPositiveMass { index: 0 });

    // The running simulation is untouched: both bodies, old clock, old G.
    assert_eq!(registry.len(), 2);
    assert_eq!(registry.body(1).identifier.get_id(), "earth");
    assert_eq!(f(clock.total_time_elapsed), 86400.0);
    assert_eq!(f(g.0), BIG_G);

    let duplicate = SimulationState {
        time_state: gravsim::TimeState { date_time: String::new(), time_scale: s(1.0) },
        constant_state: gravsim::ConstantState { gravitational_constant: s(2.0) },
        camera_state: gravsim::CameraState { camera_position: [0; 3], camera_speed: 0 },
        planet_state: vec![
            gravsim::PlanetState {
                id: "x".to_string(),
                name: "X".to_string(),
                position: v3(0.0, 0.0, 0.0),
                velocity: v3(0.0, 0.0, 0.0),
                mass: s(1.0),
                colour: grey(),
            },
            gravsim::PlanetState {
                id: "x".to_string(),
                name: "X again".to_string(),
                position: v3(1.0, 0.0, 0.0),
                velocity: v3(0.0, 0.0, 0.0),
                mass: s(1.0),
                colour: grey(),
            },
        ],
    };
    let err = duplicate
        .deserialize_to_world(&arith, &mut registry, &mut clock, &mut g)
        .unwrap_err();
    assert_eq!(err, LoadError::DuplicateIdentifier { index: 1 });
    assert_eq!(registry.len(), 2);
}

#[test]
fn clock_rejects_zero_iterations() {
    let arith = HostArith;
    assert_eq!(
        TimeScale::try_new(&arith, s(86400.0), 0).unwrap_err(),
        ClockError::ZeroIterations
    );
    let clock = TimeScale::try_new(&arith, s(86400.0), 10).unwrap();
    assert_eq!(f(clock.time_scale), 8640.0);
}

#[test]
fn clock_scale_is_never_stale() {
    let arith = HostArith;
    let mut clock = TimeScale::new(&arith, s(100.0), 4);
    assert_eq!(f(clock.time_scale), 25.0);

    clock.set_total_time_elapsed(&arith, s(200.0));
    assert_eq!(f(clock.time_scale), 50.0);

    clock.set_iterations(&arith, 8).unwrap();
    assert_eq!(f(clock.time_scale), 25.0);

    assert_eq!(
        clock.set_iterations(&arith, 0).unwrap_err(),
        ClockError::ZeroIterations
    );
    assert_eq!(clock.iterations, 8);
}

#[test]
fn clock_from_max_time_per_iteration_rounds_up() {
    let arith = HostArith;
    let clock = TimeScale::from_max_time_per_iteration(&arith, s(250.0), s(100.0));
    assert_eq!(clock.iterations, 3);
    let exact = TimeScale::from_max_time_per_iteration(&arith, s(300.0), s(100.0));
    assert_eq!(exact.iterations, 3);
    let tiny = TimeScale::from_max_time_per_iteration(&arith, s(1.0), s(100.0));
    assert_eq!(tiny.iterations, 1);
}

#[test]
fn registry_rejects_duplicate_ids() {
    let mut registry = Registry::new(sun());
    registry.add_body(earth()).unwrap();
    let err = registry.add_body(earth()).unwrap_err();
    assert_eq!(err, RegistryError::DuplicateIdentifier);
    assert_eq!(registry.len(), 2);
}

#[test]
fn influence_follows_receiver_flags_only() {
    // A body whose own category appears in nobody's flags still pulls on
    // bodies whose flags include its category; self-interaction is never
    // allowed, whatever the flags say.
    let star_handler = InteractionHandler::new(InteractionFlags::all(), BodyType::Star);
    let planet_handler =
        InteractionHandler::new(InteractionFlags::from(BodyType::Star), BodyType::Planet);

    // The planet responds to the star...
    assert!(gravsim::category::should_interact(1, &planet_handler, 0, &star_handler));
    // ...the star would respond to planets, but nothing makes the
    // planet's own flags matter for that.
    assert!(gravsim::category::should_interact(0, &star_handler, 1, &planet_handler));
    // A body never responds to itself, even with full flags.
    assert!(!gravsim::category::should_interact(0, &star_handler, 0, &star_handler));

    let empty = InteractionHandler::new(InteractionFlags::empty(), BodyType::Planet);
    assert!(!gravsim::category::should_interact(1, &empty, 0, &star_handler));
}

#[test]
fn flags_hold_exactly_their_categories() {
    let star_only = InteractionFlags::from(BodyType::Star);
    assert!(star_only.contains(BodyType::Star));
    assert!(!star_only.contains(BodyType::Planet));

    let both = star_only.union(InteractionFlags::from(BodyType::Planet));
    assert!(both.contains(BodyType::Star));
    assert!(both.contains(BodyType::Planet));
    assert_eq!(both, InteractionFlags::all());

    assert!(!InteractionFlags::empty().contains(BodyType::Star));
}

#[test]
fn test_julian_day_conversion() {
    let date = Date { year: 2022, month: 10, day: 15 };
    let julian_day = convert_date_to_julian_day(&date);
    assert_eq!(2459868, julian_day);
    assert_eq!(date, convert_julian_day_to_date(julian_day));
}

#[test]
fn test_julian_date_conversion() {
    let arith = HostArith;

    let datetime = DateTime {
        date: Date { year: 2000, month: 01, day: 01 },
        hour: 18,
        minute: 0,
        second: 0,
    };
    let julian_datetime = convert_datetime_to_julian_date(&arith, &datetime);
    assert_eq!(2451545.25, f(julian_datetime));
    assert_eq!(datetime, convert_julian_date_to_datetime(&arith, julian_datetime));

    let datetime = DateTime {
        date: Date { year: 2022, month: 10, day: 15 },
        hour: 15,
        minute: 05,
        second: 28,
    };
    let julian_datetime = convert_datetime_to_julian_date(&arith, &datetime);
    assert_eq!(2459868.128796296, f(julian_datetime));
    assert_eq!(datetime, convert_julian_date_to_datetime(&arith, julian_datetime));
}

#[test]
fn scalar_classification_matches_the_hardware() {
    for value in [0.0f64, -0.0, 1.5, -2.25, f64::INFINITY, f64::NEG_INFINITY, f64::NAN, 5e-324] {
        let sc = s(value);
        assert_eq!(sc.is_finite(), value.is_finite());
        assert_eq!(sc.is_nan(), value.is_nan());
        assert_eq!(sc.is_positive(), value > 0.0);
    }
}

//! The body registry: construction, validation errors, derived periods and
//! position evaluation.

use orbit_core::fixed::SCALE;
use orbit_core::planet::Planet;
use orbit_core::planets::{self, RegistryError};
use orbit_core::vec2::Vec2;

#[test]
fn gamma_builds_into_a_registry() {
    let bodies = planets::gamma();
    assert_eq!(bodies.len(), 11);
    let registry = planets::init(&bodies).expect("the gamma galaxy is a valid registry");
    assert_eq!(registry.len(), 11);
    // The root keeps its given period; every orbiting body gets the
    // Keplerian one, derived from the root's (or its parent's) mass.
    assert_eq!(registry[0].orbit_speed, 0);
    assert_eq!(
        registry[1].orbit_speed,
        planets::orbital_period(10 * SCALE, 1500 * SCALE)
    );
    assert_eq!(
        registry[8].orbit_speed,
        planets::orbital_period(registry[7].mass, 2500 * SCALE)
    );
    // Positions are already evaluated for time zero: phase zero puts a
    // body at (orbit_radius, 0).
    assert_eq!(registry[0].pos, Vec2::new(0, 0));
    assert_eq!(registry[1].pos, Vec2::new(1500 * SCALE, 0));
}

#[test]
fn orbital_period_has_the_keplerian_shape() {
    // period = factor * r * sqrt(r / M), evaluated exactly in fixed point.
    assert_eq!(planets::orbital_period(10 * SCALE, 1500 * SCALE), 60683938055241);
    // A heavier central mass means a shorter period.
    assert!(
        planets::orbital_period(40 * SCALE, 1500 * SCALE)
            < planets::orbital_period(10 * SCALE, 1500 * SCALE)
    );
    // A degenerate central mass yields a zero (never a crashing) period.
    assert_eq!(planets::orbital_period(0, 1500 * SCALE), 0);
}

#[test]
fn parented_zero_radius_orbit_is_rejected() {
    let bodies = vec![
        Planet::base().with_mass(SCALE),
        Planet::base().moon_of(0).with_orbit(0, 0).with_mass(SCALE),
    ];
    assert_eq!(
        planets::init(&bodies),
        Err(RegistryError::DegenerateOrbit { index: 1 })
    );
}

#[test]
fn forward_and_self_parents_are_rejected() {
    let bodies = vec![
        Planet::base().with_mass(SCALE),
        Planet::base().moon_of(1).with_orbit(100 * SCALE, 0),
    ];
    assert_eq!(
        planets::init(&bodies),
        Err(RegistryError::ForwardParent { index: 1 })
    );

    let bodies = vec![
        Planet::base().with_mass(SCALE),
        Planet::base().moon_of(2).with_orbit(100 * SCALE, 0),
        Planet::base().with_orbit(200 * SCALE, 0),
    ];
    assert_eq!(
        planets::init(&bodies),
        Err(RegistryError::ForwardParent { index: 1 })
    );
}

#[test]
fn negative_parameters_are_rejected() {
    let bodies = vec![Planet::base().with_mass(-1)];
    assert_eq!(
        planets::init(&bodies),
        Err(RegistryError::NegativeParameter { index: 0 })
    );
}

#[test]
fn an_empty_registry_is_valid() {
    let registry = planets::init(&Vec::new()).expect("an empty registry is valid");
    assert!(registry.is_empty());
}

#[test]
fn positions_follow_the_orbit_angle() {
    // A hand-built registry entry with a period of four time units: a
    // quarter period later the body has swung a quarter turn.
    let body = Planet {
        pos: Vec2::new(0, 0),
        orbit_radius: 100 * SCALE,
        orbit_speed: 4 * SCALE,
        orbit_phase: 0,
        radius: SCALE,
        mass: SCALE,
        color: 1,
        parent: None,
    };
    let registry = vec![body];
    assert_eq!(planets::position_at(0, &registry, 0), Vec2::new(100 * SCALE, 0));
    assert_eq!(planets::position_at(SCALE, &registry, 0), Vec2::new(0, 100 * SCALE));
    assert_eq!(planets::position_at(2 * SCALE, &registry, 0), Vec2::new(-100 * SCALE, 0));
}

#[test]
fn moons_ride_on_their_parents() {
    let parent = Planet {
        pos: Vec2::new(0, 0),
        orbit_radius: 1000 * SCALE,
        orbit_speed: 8 * SCALE,
        orbit_phase: 0,
        radius: SCALE,
        mass: SCALE,
        color: 1,
        parent: None,
    };
    let moon = Planet {
        pos: Vec2::new(0, 0),
        orbit_radius: 50 * SCALE,
        orbit_speed: 4 * SCALE,
        orbit_phase: 0,
        radius: SCALE,
        mass: SCALE,
        color: 2,
        parent: Some(0),
    };
    let registry = vec![parent, moon];
    let parent_pos = planets::position_at(SCALE, &registry, 0);
    let moon_pos = planets::position_at(SCALE, &registry, 1);
    assert_eq!(moon_pos, parent_pos.add(Vec2::new(0, 50 * SCALE)));
}

#[test]
fn update_positions_matches_position_at() {
    let bodies = planets::gamma();
    let mut registry = planets::init(&bodies).expect("the gamma galaxy is a valid registry");
    let time = 123 * SCALE;
    let expected: Vec<Vec2> = (0..registry.len())
        .map(|i| planets::position_at(time, &registry, i))
        .collect();
    planets::update_positions(time, &mut registry);
    for (i, planet) in registry.iter().enumerate() {
        assert_eq!(planet.pos, expected[i]);
    }
}

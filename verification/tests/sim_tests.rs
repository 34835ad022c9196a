//! The stepper and the forecaster: determinism, real/forecast agreement,
//! non-mutation, the sample bound, and one full analytic orbit.

use orbit_core::fixed::SCALE;
use orbit_core::game::{Game, GameSpeed};
use orbit_core::planet::Planet;
use orbit_core::planets;
use orbit_core::player::Player;
use orbit_core::ship::Ship;
use orbit_core::sim::{self, DT, MAX_TRAJECTORY_STEPS};
use orbit_core::vec2::Vec2;

fn gamma_registry() -> Vec<Planet> {
    planets::init(&planets::gamma()).expect("the gamma galaxy is a valid registry")
}

fn test_ship() -> Ship {
    Ship::new(Vec2::new(1800 * SCALE, 0), Vec2::new(-SCALE, SCALE))
}

#[test]
fn stepper_is_deterministic() {
    let registry = gamma_registry();

    let mut ship_a = test_ship();
    let mut planets_a = registry.clone();
    let mut ship_b = test_ship();
    let mut planets_b = registry.clone();

    for k in 1..=5i64 {
        sim::eval(k * DT, &mut ship_a, &mut planets_a);
        sim::eval(k * DT, &mut ship_b, &mut planets_b);
        assert_eq!(ship_a, ship_b);
        assert_eq!(planets_a, planets_b);
    }
}

#[test]
fn real_and_forecast_agree() {
    let registry = gamma_registry();

    let mut game = Game::init();
    game.speed = GameSpeed::Fast;
    let mut player = Player::init();
    player.ship = test_ship();
    let mut real_planets = registry.clone();

    let forecast_game = Game::init();
    let mut forecast = sim::trajectory(&forecast_game, &test_ship(), &registry);

    // One fast frame advances the real state by two fixed steps; the
    // second forecast sample must land on the same craft state.
    sim::tic(&mut game, &mut player, &mut real_planets);
    let first = forecast.next().expect("a fresh forecast yields a sample");
    let second = forecast.next().expect("a fresh forecast yields a second sample");
    assert_ne!(first.pos, second.pos);
    assert_eq!(second.pos, player.ship.pos);
    assert_eq!(forecast.ship, player.ship);
    assert_eq!(forecast.planets, real_planets);
    assert_eq!(forecast.time, game.time);
}

#[test]
fn advance_real_state_matches_the_forecast_samples() {
    let registry = gamma_registry();
    let mut craft = test_ship();
    let mut real_bodies = registry.clone();
    let advanced_time = sim::advance_real_state(5, 0, &mut craft, &mut real_bodies);

    let game = Game::init();
    let mut forecast = sim::trajectory(&game, &test_ship(), &registry);
    let mut last = None;
    for _ in 0..5 {
        last = forecast.next();
    }
    assert_eq!(last.expect("five samples are within the bound").pos, craft.pos);
    assert_eq!(forecast.ship, craft);
    assert_eq!(forecast.planets, real_bodies);
    assert_eq!(forecast.time, advanced_time);
}

#[test]
fn forecast_does_not_mutate_inputs() {
    let registry = gamma_registry();
    let planets_snapshot = registry.clone();
    let ship = test_ship();
    let game = Game::init();

    let mut forecast = sim::trajectory(&game, &ship, &registry);
    while let Some(_) = forecast.next() {}

    assert_eq!(registry, planets_snapshot);
    assert_eq!(ship, test_ship());
    assert_eq!(game.time, 0);
}

#[test]
fn forecast_is_bounded() {
    let registry = gamma_registry();
    let game = Game::init();
    let mut forecast = sim::trajectory(&game, &test_ship(), &registry);

    let mut yielded = 0u32;
    for _ in 0..(MAX_TRAJECTORY_STEPS + 50) {
        if forecast.next().is_some() {
            yielded += 1;
        }
    }
    assert_eq!(yielded, MAX_TRAJECTORY_STEPS);
    // Pulling past the end keeps yielding nothing, it is not an error.
    assert!(forecast.next().is_none());
    assert!(forecast.next().is_none());
}

#[test]
fn circular_orbit_returns_after_one_period() {
    // A root body of mass 5.0 at the origin, a massless marker body at
    // orbit radius 1500, and a craft at (1650, 0) with the analytic
    // circular-orbit velocity for the root's mass alone.
    let bodies = vec![
        Planet::base()
            .with_radius(500 * SCALE)
            .with_orbit(0, 0)
            .with_mass(5 * SCALE)
            .with_color(4),
        Planet::base()
            .with_radius(20 * SCALE)
            .with_mass(0)
            .with_orbit(1500 * SCALE, 0)
            .with_color(3),
    ];
    let mut registry = planets::init(&bodies).expect("the scenario registry is valid");

    let radius = 1650.0f64;
    let mass = 5.0f64;
    let v_circular = (mass / radius).sqrt();
    let period = 2.0 * std::f64::consts::PI * (radius.powi(3) / mass).sqrt();
    let steps = (period / 16.0).round() as i64;

    let start = Vec2::new(1650 * SCALE, 0);
    let mut ship = Ship::new(start, Vec2::new(0, (v_circular * SCALE as f64).round() as i64));

    for k in 1..=steps {
        sim::eval(k * DT, &mut ship, &mut registry);
    }

    let error = ship.pos.distance(start) as f64 / SCALE as f64;
    // Within one percent of the orbit radius: no gross energy drift.
    assert!(error <= 0.01 * radius, "drift of {error} exceeds one percent");
}

#[test]
fn forecast_flags_proximity_and_nearest_color() {
    let registry = gamma_registry();
    // A craft hovering just outside the root body's surface: within the
    // proximity margin and nearest to the root (color 4).
    let ship = Ship::new(Vec2::new(520 * SCALE, 0), Vec2::new(0, 0));
    let game = Game::init();

    let mut forecast = sim::trajectory(&game, &ship, &registry);
    let sample = forecast.next().expect("a fresh forecast yields a sample");
    assert!(sample.touches);
    assert_eq!(sample.color, 4);
}

#[test]
fn real_advance_honours_the_speed_setting() {
    let registry = gamma_registry();

    let mut paused_game = Game::init();
    paused_game.speed = GameSpeed::Stop;
    let mut player = Player::init();
    let before = player.ship;
    let mut ps = registry.clone();
    sim::tic(&mut paused_game, &mut player, &mut ps);
    assert_eq!(paused_game.time, 0);
    assert_eq!(player.ship, before);

    let mut normal_game = Game::init();
    normal_game.speed = GameSpeed::Normal;
    let mut ps = registry.clone();
    sim::tic(&mut normal_game, &mut player, &mut ps);
    assert_eq!(normal_game.time, DT);
    assert_ne!(player.ship.pos, before.pos);
}

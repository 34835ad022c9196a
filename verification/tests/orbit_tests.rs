//! The concrete orbital scenario from the design: one analytically
//! predicted revolution, checked sample by sample through the forecaster.

use orbit_core::fixed::SCALE;
use orbit_core::game::Game;
use orbit_core::planet::Planet;
use orbit_core::planets;
use orbit_core::ship::Ship;
use orbit_core::sim;
use orbit_core::vec2::Vec2;

#[test]
fn forecast_of_a_circular_orbit_stays_near_the_circle() {
    let bodies = vec![
        Planet::base()
            .with_radius(500 * SCALE)
            .with_orbit(0, 0)
            .with_mass(5 * SCALE)
            .with_color(4),
        Planet::base()
            .with_radius(20 * SCALE)
            .with_mass(0)
            .with_orbit(1500 * SCALE, 0)
            .with_color(3),
    ];
    let registry = planets::init(&bodies).expect("the scenario registry is valid");

    let radius = 1650.0f64;
    let mass = 5.0f64;
    let v_circular = (mass / radius).sqrt();
    let ship = Ship::new(
        Vec2::new(1650 * SCALE, 0),
        Vec2::new(0, (v_circular * SCALE as f64).round() as i64),
    );

    // Every forecast sample of a circular orbit stays close to the circle.
    let game = Game::init();
    let mut forecast = sim::trajectory(&game, &ship, &registry);
    let mut samples = 0u32;
    while let Some(sample) = forecast.next() {
        let r = sample.pos.distance(Vec2::new(0, 0)) as f64 / SCALE as f64;
        assert!((r - radius).abs() <= 0.01 * radius, "radius drifted to {r}");
        samples += 1;
    }
    assert_eq!(samples, sim::MAX_TRAJECTORY_STEPS);
}

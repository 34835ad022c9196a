//! The maneuver planner: budget clamping, the exact fuel cost, fuel
//! monotonicity, and the planning state machine.

use orbit_core::fixed::SCALE;
use orbit_core::game::{Game, GameSpeed};
use orbit_core::manouvers::{
    self, CommitOutcome, PlannerAction, PlannerInput, MIN_MANOUVER_COST,
};
use orbit_core::ship::Ship;
use orbit_core::vec2::Vec2;

fn resting_ship() -> Ship {
    Ship::new(Vec2::new(0, 0), Vec2::new(0, 0))
}

#[test]
fn oversized_burn_is_clamped_and_drains_the_tank_exactly() {
    // A tank of 0.1 with a full tank buying a burn of 10.0: a drag asking
    // for a burn of magnitude 50 must be clamped to 0.1 * 10.0 = 1.0, and
    // its cost must equal exactly 1.0 / 10.0 = 0.1 -- the whole tank, not
    // more.
    let fuel: i64 = 429496730; // 0.1
    let drag = Vec2::new(625 * SCALE, 0); // sensitivity saturates at 0.08: a raw burn of 50
    let plan = manouvers::plan_manouver(drag, fuel);

    // The clamped burn: exactly ten times the fuel level along the drag.
    assert_eq!(plan.dv, Vec2::new(4294967300, 0));
    assert!(plan.dv.length() <= 4294967300);
    // The cost equals the fuel level exactly: a full drain, not an
    // overdraft.
    assert_eq!(plan.fuel_cost, fuel);
}

#[test]
fn small_burns_still_cost_the_floor() {
    let plan = manouvers::plan_manouver(Vec2::new(SCALE / 1000, 0), SCALE);
    assert_eq!(plan.fuel_cost, MIN_MANOUVER_COST);
}

#[test]
fn committing_applies_the_burn_and_pays_the_cost() {
    let mut game = Game::init();
    game.fuel = 429496730;
    let mut ship = resting_ship();
    let plan = manouvers::plan_manouver(Vec2::new(625 * SCALE, 0), game.fuel);

    let outcome = manouvers::commit_manouver(&plan, &mut game, &mut ship);
    assert_eq!(outcome, CommitOutcome::Committed);
    assert_eq!(ship.vel, plan.dv);
    assert_eq!(ship.pos, Vec2::new(0, 0));
    // 0.1 - 0.1 leaves (less than the snap threshold, so exactly) zero.
    assert_eq!(game.fuel, 0);
    assert_eq!(game.speed, GameSpeed::Normal);
}

#[test]
fn committing_with_an_empty_tank_is_a_no_op_on_velocity() {
    let mut game = Game::init();
    game.fuel = 0;
    let mut ship = resting_ship();
    let plan = manouvers::plan_manouver(Vec2::new(625 * SCALE, 0), SCALE);
    assert_ne!(plan.dv, Vec2::new(0, 0));

    let outcome = manouvers::commit_manouver(&plan, &mut game, &mut ship);
    assert_eq!(outcome, CommitOutcome::NoFuel);
    assert_eq!(ship.vel, Vec2::new(0, 0));
    assert_eq!(game.fuel, 0);
}

#[test]
fn committing_an_empty_plan_changes_nothing() {
    let mut game = Game::init();
    let fuel_before = game.fuel;
    let mut ship = resting_ship();
    let plan = manouvers::plan_manouver(Vec2::new(0, 0), game.fuel);
    assert_eq!(plan.dv, Vec2::new(0, 0));

    let outcome = manouvers::commit_manouver(&plan, &mut game, &mut ship);
    assert_eq!(outcome, CommitOutcome::NoBurn);
    assert_eq!(ship.vel, Vec2::new(0, 0));
    assert_eq!(game.fuel, fuel_before);
}

#[test]
fn fuel_never_increases_across_commits() {
    let mut game = Game::init();
    let mut ship = resting_ship();
    let drags = [
        Vec2::new(100 * SCALE, 0),
        Vec2::new(0, -30 * SCALE),
        Vec2::new(7 * SCALE, 7 * SCALE),
        Vec2::new(625 * SCALE, 625 * SCALE),
        Vec2::new(1, 1),
    ];
    let mut previous = game.fuel;
    for drag in drags {
        let plan = manouvers::plan_manouver(drag, game.fuel);
        manouvers::commit_manouver(&plan, &mut game, &mut ship);
        assert!(game.fuel <= previous);
        assert!(game.fuel >= 0);
        previous = game.fuel;
    }
}

#[test]
fn planning_session_arms_previews_and_commits() {
    let mut game = Game::init();
    let mut ship = resting_ship();
    assert_eq!(game.speed, GameSpeed::Stop);

    // Grabbing the craft with the button held arms the session and shows
    // the preview.
    let drag = Vec2::new(625 * SCALE, 0);
    let action = manouvers::tic(
        &mut game,
        &mut ship,
        &PlannerInput { drag, pointer_on_craft: true, left_hold: true, cancel: false },
    );
    assert_eq!(action, PlannerAction::Preview);
    assert!(game.manouver_mode);
    assert_ne!(game.manouver_dv, Vec2::new(0, 0));

    // Releasing the button commits the burn.
    let fuel_before = game.fuel;
    let action = manouvers::tic(
        &mut game,
        &mut ship,
        &PlannerInput { drag, pointer_on_craft: false, left_hold: false, cancel: false },
    );
    assert_eq!(action, PlannerAction::Committed);
    assert!(!game.manouver_mode);
    assert!(game.fuel < fuel_before);
    assert_ne!(ship.vel, Vec2::new(0, 0));
    assert_eq!(game.speed, GameSpeed::Normal);
}

#[test]
fn planning_session_can_be_cancelled() {
    let mut game = Game::init();
    let mut ship = resting_ship();
    let drag = Vec2::new(625 * SCALE, 0);

    manouvers::tic(
        &mut game,
        &mut ship,
        &PlannerInput { drag, pointer_on_craft: true, left_hold: true, cancel: false },
    );
    assert!(game.manouver_mode);

    let fuel_before = game.fuel;
    let action = manouvers::tic(
        &mut game,
        &mut ship,
        &PlannerInput { drag, pointer_on_craft: false, left_hold: true, cancel: true },
    );
    assert_eq!(action, PlannerAction::Cancelled);
    assert!(!game.manouver_mode);
    assert_eq!(game.fuel, fuel_before);
    assert_eq!(ship.vel, Vec2::new(0, 0));
}

#[test]
fn releasing_over_an_empty_tank_surfaces_the_notice() {
    let mut game = Game::init();
    game.fuel = 0;
    let mut ship = resting_ship();
    let drag = Vec2::new(625 * SCALE, 0);

    manouvers::tic(
        &mut game,
        &mut ship,
        &PlannerInput { drag, pointer_on_craft: true, left_hold: true, cancel: false },
    );
    // With no fuel the candidate clamps to zero, so releasing simply ends
    // the session.
    let action = manouvers::tic(
        &mut game,
        &mut ship,
        &PlannerInput { drag, pointer_on_craft: false, left_hold: false, cancel: false },
    );
    assert_eq!(action, PlannerAction::Idle);
    assert_eq!(ship.vel, Vec2::new(0, 0));

    // With a practically-empty (but nonzero) tank the candidate is real
    // and the release is refused.
    game.fuel = 1;
    manouvers::tic(
        &mut game,
        &mut ship,
        &PlannerInput { drag, pointer_on_craft: true, left_hold: true, cancel: false },
    );
    let action = manouvers::tic(
        &mut game,
        &mut ship,
        &PlannerInput { drag, pointer_on_craft: false, left_hold: false, cancel: false },
    );
    assert_eq!(action, PlannerAction::RefusedNoFuel);
    assert_eq!(ship.vel, Vec2::new(0, 0));
    assert_eq!(game.fuel, 1);
}

#[test]
fn planner_is_idle_while_running() {
    let mut game = Game::init();
    game.speed = GameSpeed::Normal;
    let mut ship = resting_ship();
    let action = manouvers::tic(
        &mut game,
        &mut ship,
        &PlannerInput {
            drag: Vec2::new(625 * SCALE, 0),
            pointer_on_craft: true,
            left_hold: true,
            cancel: false,
        },
    );
    assert_eq!(action, PlannerAction::Idle);
    assert!(!game.manouver_mode);
}

#[test]
fn hovering_the_craft_shows_the_selection() {
    let mut game = Game::init();
    let mut ship = resting_ship();
    let action = manouvers::tic(
        &mut game,
        &mut ship,
        &PlannerInput {
            drag: Vec2::new(0, 0),
            pointer_on_craft: true,
            left_hold: false,
            cancel: false,
        },
    );
    assert_eq!(action, PlannerAction::Selection);
    assert!(!game.manouver_mode);
}

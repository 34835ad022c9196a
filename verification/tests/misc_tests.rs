//! The supporting pieces: fixed-point arithmetic, trigonometry, vectors,
//! the game clock, contracts, police, refuelling, audio, particles, text
//! layout and the indicators.

use orbit_core::arrow::Arrow;
use orbit_core::audio::{AudioQueue, Note};
use orbit_core::contracts::{self, Cargo, Contract};
use orbit_core::death;
use orbit_core::fixed::{self, SCALE};
use orbit_core::fuel;
use orbit_core::game::{Game, GameSpeed};
use orbit_core::intro;
use orbit_core::localizator::Localizator;
use orbit_core::manouvers;
use orbit_core::mouse_utils::{self, MouseButtons, MouseState};
use orbit_core::overflow_indicator::OverflowIndicator;
use orbit_core::particles::{self, Particles};
use orbit_core::planet::Planet;
use orbit_core::planets;
use orbit_core::player::Player;
use orbit_core::police::{self, PoliceState, PoliceVehicle};
use orbit_core::selection::SelectionIndicator;
use orbit_core::ship::{self, Ship};
use orbit_core::text::{Text, TextAlignment};
use orbit_core::trig::{self, HALF_TURN, QUARTER_TURN};
use orbit_core::utils;
use orbit_core::vec2::Vec2;

#[test]
fn fixed_arithmetic_has_exact_values() {
    assert_eq!(fixed::fadd(3 * SCALE, 2 * SCALE), 5 * SCALE);
    assert_eq!(fixed::fsub(3 * SCALE, 5 * SCALE), -2 * SCALE);
    assert_eq!(fixed::fmul(3 * SCALE, 2 * SCALE), 6 * SCALE);
    assert_eq!(fixed::fmul(-3 * SCALE, 2 * SCALE), -6 * SCALE);
    assert_eq!(fixed::fdiv(SCALE, 2 * SCALE), SCALE / 2);
    assert_eq!(fixed::fdiv(SCALE, 0), 0);
    assert_eq!(fixed::fsqrt(4 * SCALE), 2 * SCALE);
    assert_eq!(fixed::fsqrt(2 * SCALE), 6074000999);
    assert_eq!(fixed::fsqrt(-SCALE), 0);
    assert_eq!(fixed::from_int(7), 7 * SCALE);
    assert_eq!(fixed::from_int(-7), -7 * SCALE);
    // Saturation instead of overflow.
    assert_eq!(fixed::fadd(fixed::FIX_MAX, SCALE), fixed::FIX_MAX);
    assert_eq!(fixed::fmul(fixed::FIX_MAX, 2 * SCALE), fixed::FIX_MAX);
    assert_eq!(fixed::fsub(fixed::FIX_MIN, SCALE), fixed::FIX_MIN);
}

#[test]
fn trigonometry_is_exact_at_the_quarter_points() {
    assert_eq!(trig::sin_turns(0), 0);
    assert_eq!(trig::sin_turns(QUARTER_TURN), SCALE);
    assert_eq!(trig::sin_turns(HALF_TURN), 0);
    assert_eq!(trig::sin_turns(HALF_TURN + QUARTER_TURN), -SCALE);
    assert_eq!(trig::cos_turns(0), SCALE);
    assert_eq!(trig::cos_turns(QUARTER_TURN), 0);
    assert_eq!(trig::cos_turns(HALF_TURN), -SCALE);
    // The eighth-turn value of the rational half-wave approximation.
    assert_eq!(trig::sin_turns(SCALE / 8), 3031741620);
    // The angle wraps by whole turns.
    assert_eq!(trig::sin_turns(5 * SCALE + QUARTER_TURN), SCALE);
}

#[test]
fn vectors_measure_and_normalize() {
    let v = Vec2::new(3 * SCALE, 4 * SCALE);
    assert_eq!(v.length_squared(), 25 * SCALE);
    assert_eq!(v.length(), 5 * SCALE);
    assert_eq!(Vec2::new(0, 0).distance(v), 5 * SCALE);
    let unit = Vec2::new(100 * SCALE, 0).normalize();
    assert_eq!(unit, Vec2::new(SCALE, 0));
    assert_eq!(Vec2::new(0, 0).normalize(), Vec2::new(0, 0));
    assert_eq!(v.scale(2 * SCALE), Vec2::new(6 * SCALE, 8 * SCALE));
    assert_eq!(v.sub(Vec2::new(SCALE, SCALE)), Vec2::new(2 * SCALE, 3 * SCALE));
    assert_eq!(v.mul(Vec2::new(2 * SCALE, -SCALE)), Vec2::new(6 * SCALE, -4 * SCALE));
}

#[test]
fn helpers_interpolate_and_rotate() {
    assert_eq!(utils::lerp(0, 10 * SCALE, SCALE / 2), 5 * SCALE);
    assert_eq!(utils::lerp(0, 10 * SCALE, 2 * SCALE), 10 * SCALE);
    assert_eq!(utils::lerp(0, 10 * SCALE, -SCALE), 0);
    assert_eq!(
        utils::remap(5 * SCALE, 0, 10 * SCALE, 0, 100 * SCALE),
        50 * SCALE
    );
    assert_eq!(
        utils::rotate(Vec2::new(SCALE, 0), Vec2::new(0, 0), QUARTER_TURN),
        Vec2::new(0, SCALE)
    );
    assert_eq!(
        utils::rotate(Vec2::new(SCALE, 0), Vec2::new(0, 0), HALF_TURN),
        Vec2::new(-SCALE, 0)
    );
    assert_eq!(utils::clamp(5, 0, 10), 5);
    assert_eq!(utils::clamp(-5, 0, 10), 0);
    assert_eq!(utils::clamp(15, 0, 10), 10);
}

#[test]
fn the_clock_counts_days_and_fuel_percent() {
    let mut game = Game::init();
    assert_eq!(game.day(), 0);
    assert_eq!(game.ufuel(), 100);
    assert!(game.is_paused());
    game.time = 3 * 250 * SCALE + 5;
    game.fuel = SCALE / 2;
    assert_eq!(game.day(), 3);
    assert_eq!(game.ufuel(), 50);
    game.speed = GameSpeed::Fast;
    assert!(!game.is_paused());
    assert_eq!(game.steps(), 2);
    assert_eq!(GameSpeed::Stop.to_speed(), 0);
    assert_eq!(GameSpeed::Normal.to_speed(), SCALE);
    assert_eq!(GameSpeed::Fast.to_speed(), 2 * SCALE);
    assert_eq!(GameSpeed::Stop.steps(), 0);
    assert_eq!(GameSpeed::Normal.steps(), 1);
}

#[test]
fn cargo_sprites_and_contract_wanted_levels() {
    assert_eq!(Cargo::Passengers.sprite(), 352);
    assert_eq!(Cargo::Bananas.sprite(), 354);
    assert_eq!(Cargo::Crabs.sprite(), 356);
    // Proportional between the floor and the ceiling.
    assert_eq!(contracts::wanted_for_reward(1), 429496730);
    assert_eq!(contracts::wanted_for_reward(5), 1288490190);
    assert_eq!(contracts::wanted_for_reward(12), 1417339208);
    let c = Contract {
        src_planet: 2,
        dst_planet: 3,
        cargo: Cargo::Bananas,
        reward: 4,
        wanted: contracts::wanted_for_reward(4),
        expires_at: 1000 * SCALE,
    };
    assert!(!c.expired(999 * SCALE));
    assert!(c.expired(1000 * SCALE));
}

#[test]
fn contract_candidates_are_vetted() {
    let existing = vec![Contract {
        src_planet: 2,
        dst_planet: 5,
        cargo: Cargo::Crabs,
        reward: 9,
        wanted: 0,
        expires_at: 0,
    }];
    assert!(contracts::candidate_ok(&existing, 3, 2, 11));
    assert!(!contracts::candidate_ok(&existing, 2, 3, 11));
    assert!(!contracts::candidate_ok(&existing, 3, 3, 11));
    assert!(!contracts::candidate_ok(&existing, 0, 3, 11));
    assert!(!contracts::candidate_ok(&existing, 3, 11, 11));
}

#[test]
fn police_rules_have_exact_shapes() {
    let mut state = PoliceState::init();
    state.increment_wanted_level(contracts::wanted_for_reward(5));
    assert_eq!(state.wanted(), 1288490190);
    state.increment_wanted_level(SCALE);
    assert_eq!(state.wanted(), SCALE);
    state.decay_wanted();
    assert_eq!(state.wanted(), SCALE - 128849019);
    state.wanted = 1;
    state.decay_wanted();
    assert_eq!(state.wanted(), 0);

    assert_eq!(police::max_vehicles_in_pursuit(0), 0);
    assert_eq!(police::max_vehicles_in_pursuit(SCALE / 2), 3);
    assert_eq!(police::max_vehicles_in_pursuit(SCALE), 5);

    assert_eq!(police::police_speed(0), police::STARTING_POLICE_SPEED);
    assert_eq!(police::police_speed(police::MAX_SPEED_TIME), police::MAX_POLICE_SPEED);
    assert_eq!(police::police_speed(police::MAX_SPEED_TIME + 1), police::MAX_POLICE_SPEED);

    let vehicle = PoliceVehicle::rand(10 * SCALE, 0);
    let ship_near = Ship::new(Vec2::new(100 * SCALE, 0), Vec2::new(0, 0));
    assert_eq!(vehicle.pos, Vec2::new(10 * SCALE, 0));
    assert!(vehicle.collides_with(&ship_near));
    let ship_far = Ship::new(Vec2::new(101 * SCALE, 0), Vec2::new(0, 0));
    assert!(!vehicle.collides_with(&ship_far));

    // A resting target is intercepted head-on.
    let dir = police::pursuit_dir(Vec2::new(0, 0), &ship_near);
    assert_eq!(dir, Vec2::new(SCALE, 0));
}

#[test]
fn refuelling_fills_the_tank_at_a_station() {
    let registry = planets::init(&planets::gamma()).expect("the gamma galaxy is valid");
    let station = registry[fuel::FIRST_STATION];
    let ship = Ship::new(station.pos, Vec2::new(0, 0));
    let mut game = Game::init();
    game.fuel = SCALE / 4;
    assert!(fuel::tic(&mut game, &ship, &registry));
    assert_eq!(game.fuel, SCALE);
    // A full tank refuels nothing.
    assert!(!fuel::tic(&mut game, &ship, &registry));
    // Far from every station nothing happens.
    game.fuel = SCALE / 4;
    let adrift = Ship::new(Vec2::new(-40000 * SCALE, -40000 * SCALE), Vec2::new(0, 0));
    assert!(!fuel::tic(&mut game, &adrift, &registry));
    assert_eq!(game.fuel, SCALE / 4);
}

#[test]
fn falling_into_the_sun_is_detected() {
    let registry = planets::init(&planets::gamma()).expect("the gamma galaxy is valid");
    let mut player = Player::init();
    player.ship.pos = Vec2::new(499 * SCALE, 0);
    assert!(death::tic(&player, &registry));
    player.ship.pos = Vec2::new(501 * SCALE, 0);
    assert!(!death::tic(&player, &registry));
    assert!(!death::tic(&player, &Vec::new()));
}

#[test]
fn the_note_queue_pays_out_between_rests() {
    let mut q = AudioQueue::init();
    let jingle = vec![
        Note::Play { sfx: 1, note: 2, octave: 3, duration: 4 },
        Note::Play { sfx: 5, note: 6, octave: 7, duration: 8 },
        Note::Wait { duration: 3 },
        Note::Play { sfx: 9, note: 10, octave: 1, duration: 2 },
    ];
    q.play(&jingle);
    assert_eq!(q.queue.len(), 4);

    // Everything before the rest plays at once; the rest becomes the
    // countdown.
    let emitted = q.tic();
    assert_eq!(emitted, jingle[0..2].to_vec());
    assert_eq!(q.next_in, 3);

    // Two quiet frames while the countdown runs.
    assert!(q.tic().is_empty());
    assert_eq!(q.next_in, 2);
    assert!(q.tic().is_empty());
    assert_eq!(q.next_in, 1);

    // The countdown expires and the last note plays.
    let emitted = q.tic();
    assert_eq!(emitted, vec![jingle[3]]);
    assert_eq!(q.next_in, 0);
    assert!(q.queue.is_empty());
    assert!(q.tic().is_empty());
}

#[test]
fn the_particle_pool_recycles_dead_slots() {
    let mut pool = Particles::init();
    assert_eq!(pool.items.len(), particles::PARTICLE_POOL_SIZE);
    assert!(!pool.is_any_visible());

    pool.spawn_exhaust(Vec2::new(SCALE, SCALE), Vec2::new(0, 0));
    assert_eq!(pool.items[0].life, particles::EXHAUST_LIFE);
    assert_eq!(pool.items[0].min_sprite_idx, particles::EXHAUST_MIN_SPRITE);
    pool.spawn_exhaust(Vec2::new(2 * SCALE, 0), Vec2::new(0, 0));
    assert_eq!(pool.items[1].life, particles::EXHAUST_LIFE);
    assert!(pool.is_any_visible());

    let aged = particles::particle_age(pool.items[0], 30);
    assert_eq!(aged.life, 0);
    let stepped = particles::particle_step(
        pool.items[0],
        Vec2::new(SCALE / 2, SCALE / 2),
        Vec2::new(0, 0),
    );
    assert_eq!(stepped.pos, Vec2::new(SCALE, SCALE));
}

#[test]
fn indicators_blink_and_point_inward() {
    let off_screen = Vec2::new(300 * SCALE, 70 * SCALE);
    assert!(Localizator::player(off_screen).draw_ex(true).is_none());
    let (color, segments) = Localizator::player(off_screen).draw_ex(false).unwrap();
    assert_eq!(color, 5);
    assert_eq!(segments.len(), 3);
    let (color, _) = Localizator::police(off_screen).draw_ex(true).unwrap();
    assert_eq!(color, 2);
    let (color, _) = Localizator::contract(off_screen).draw_ex(false).unwrap();
    assert_eq!(color, 4);

    assert!(OverflowIndicator::player(off_screen).draw_ex(true).is_none());
    let (color, segments) = OverflowIndicator::police(off_screen).draw_ex(false).unwrap();
    assert_eq!(color, 10);
    assert_eq!(segments.len(), 3);
}

#[test]
fn selection_brackets_rotate_exactly() {
    let indicator = SelectionIndicator::new(Vec2::new(0, 0)).size(Vec2::new(16 * SCALE, 16 * SCALE));
    let segments = indicator.draw();
    assert_eq!(segments.len(), 8);
    // The quarter-turn copies of the corner are exact in fixed point.
    assert_eq!(segments[0].0, Vec2::new(-8 * SCALE, -8 * SCALE));
    assert_eq!(segments[2].0, Vec2::new(8 * SCALE, -8 * SCALE));
    assert_eq!(segments[4].0, Vec2::new(8 * SCALE, 8 * SCALE));
    assert_eq!(segments[6].0, Vec2::new(-8 * SCALE, 8 * SCALE));
    // The bracket arm ends a third of the way along the edge.
    assert_eq!(segments[0].1, Vec2::new(-8 * SCALE, -8 * SCALE + 11338713664));
}

#[test]
fn arrows_have_a_shaft_and_two_barbs() {
    let arrow = Arrow::new(Vec2::new(0, 0), Vec2::new(100 * SCALE, 0), 3).margin(5 * SCALE);
    assert_eq!(arrow.color, 3);
    let segments = arrow.draw();
    assert_eq!(segments.len(), 3);
    // The shaft is pulled in by the margin at both ends.
    assert_eq!(segments[0].0, Vec2::new(5 * SCALE, 0));
    assert_eq!(segments[0].1, Vec2::new(95 * SCALE, 0));
    // The barbs leave the tip on opposite sides of the shaft.
    assert!(segments[1].1.y > 0 && segments[2].1.y < 0 || segments[1].1.y < 0 && segments[2].1.y > 0);
    assert!(segments[1].1.x < 95 * SCALE);
    assert!(segments[2].1.x < 95 * SCALE);
}

#[test]
fn text_builders_and_alignment_arithmetic() {
    let text = Text::new("Day 3".to_string())
        .at(Vec2::new(100 * SCALE, 7 * SCALE))
        .color(4);
    assert_eq!(text.color, 4);
    assert_eq!(text.alignment, TextAlignment::Left);
    assert_eq!(text.resolved_at(40), Vec2::new(100 * SCALE, 7 * SCALE));

    let right = Text::new("x".to_string())
        .at(Vec2::new(100 * SCALE, 7 * SCALE))
        .align_right();
    assert_eq!(right.resolved_at(40), Vec2::new(60 * SCALE, 7 * SCALE));

    let center = Text::new("x".to_string())
        .at(Vec2::new(100 * SCALE, 7 * SCALE))
        .align_center();
    assert_eq!(center.resolved_at(40), Vec2::new(30 * SCALE, 7 * SCALE));
    assert_eq!(TextAlignment::default(), TextAlignment::Left);
}

#[test]
fn mouse_edges_are_detected_per_frame() {
    let mut state = MouseState::init();
    let pressed = MouseButtons { left: true, right: false };
    let released = MouseButtons { left: false, right: false };

    assert!(mouse_utils::mouse_left_pressed(&state, &pressed));
    assert!(mouse_utils::mouse_left_hold(&pressed));
    assert!(!mouse_utils::mouse_left_hold(&released));
    mouse_utils::tic(&mut state, &pressed);
    // Still held: no new edge.
    assert!(!mouse_utils::mouse_left_pressed(&state, &pressed));
    mouse_utils::tic(&mut state, &released);
    assert!(mouse_utils::mouse_left_pressed(&state, &pressed));
    assert!(!mouse_utils::mouse_right_pressed(&state, &pressed));
}

#[test]
fn the_intro_notices_any_input() {
    let quiet = MouseButtons { left: false, right: false };
    assert!(!intro::any_key(&vec![false; 32], &vec![false; 65], &quiet));
    let mut keys = vec![false; 65];
    keys[20] = true;
    assert!(intro::any_key(&vec![false; 32], &keys, &quiet));
    let mut btns = vec![false; 32];
    btns[0] = true;
    assert!(intro::any_key(&btns, &vec![false; 65], &quiet));
    assert!(intro::any_key(
        &vec![false; 32],
        &vec![false; 65],
        &MouseButtons { left: false, right: true }
    ));

    // The intro orbits are deterministic and centered on the screen.
    assert_eq!(intro::get_player_pos(0), intro::center().add(Vec2::new(100 * SCALE, 0)));
    let v = intro::get_velocity(Vec2::new(0, 0), Vec2::new(SCALE, 0));
    assert_eq!(v, Vec2::new(8160437862, 0));
    let p0 = intro::get_police_pos(0, 5 * SCALE);
    let p1 = intro::get_police_pos(1, 5 * SCALE);
    assert_ne!(p0, p1);
}

#[test]
fn sprites_alternate_on_the_clock() {
    assert!(ship::police_alternate_sprite(0));
    assert!(ship::police_alternate_sprite(299 * SCALE));
    assert!(!ship::police_alternate_sprite(300 * SCALE));
    assert!(ship::police_alternate_sprite(600 * SCALE));
    assert_eq!(Ship::default().pos, Vec2::new(0, 0));
}

#[test]
fn sensitivity_interpolates_over_drag_length() {
    assert_eq!(
        manouvers::sensitivity(0),
        manouvers::MANOUVER_SENSITIVITY_MIN
    );
    assert_eq!(
        manouvers::sensitivity(64 * SCALE),
        manouvers::MANOUVER_SENSITIVITY_MAX
    );
    assert_eq!(
        manouvers::sensitivity(640 * SCALE),
        manouvers::MANOUVER_SENSITIVITY_MAX
    );
    let mid = manouvers::sensitivity(32 * SCALE);
    assert!(manouvers::MANOUVER_SENSITIVITY_MIN < mid);
    assert!(mid < manouvers::MANOUVER_SENSITIVITY_MAX);
}

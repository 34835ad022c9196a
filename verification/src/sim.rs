//! The physics stepper and the trajectory forecaster.
//!
//! [`eval`] is the single source of numerical truth: it repositions every
//! body for the given instant, then accumulates the gravitational kicks into
//! the craft's velocity, then moves the craft by the updated velocity
//! (semi-implicit Euler).  The real game state and the forecast preview are
//! both advanced by exactly this function, through [`spec_advance`], so the
//! two can never diverge for the same inputs.

use vstd::prelude::*;

use crate::contracts::MIN_ACCEPT_DISTANCE;
use crate::fixed::{fadd, fdiv, fix_add, fix_div, FIX_MAX, SCALE};
use crate::game::Game;
use crate::planet::Planet;
use crate::planets::{copy_planets, spec_pos, update_positions, wf_planets, with_position};
use crate::player::Player;
use crate::ship::Ship;
use crate::vec2::{vadd, vdist, vlen_sq, vnorm, vscale, vsub, Vec2};

verus! {

/// The fixed timestep: the constant simulated-time increment per physics
/// step, decoupled from frame rate.
pub const DT: i64 = 16 * SCALE;

/// The forecast yields at most this many samples, which bounds its
/// worst-case cost per frame.
pub const MAX_TRAJECTORY_STEPS: u32 = 650;

/// Sample color when no body is nearer.
pub const FAR_COLOR: u8 = 12;

/// One body's gravitational kick on the craft's velocity: the inverse-square
/// acceleration `mass / |d|^2` along the unit direction towards the body,
/// integrated over one timestep.  A body at the exact craft position (a zero
/// squared distance) contributes nothing, defensively.
pub open spec fn spec_vel_kick(vel: Vec2, ship_pos: Vec2, p: Planet) -> Vec2 {
    let d = vsub(p.pos, ship_pos);
    let d2 = vlen_sq(d);
    if d2 > 0 {
        let f = fix_div(p.mass as int, d2);
        let u = vnorm(d);
        vadd(vel, vscale(vscale(u, f), DT as int))
    } else {
        vel
    }
}

/// The craft's velocity after the kicks of the first `n` bodies, in order.
pub open spec fn spec_gravity_vel(ship: Ship, ps: Seq<Planet>, n: int) -> Vec2
    decreases n,
{
    if n <= 0 {
        ship.vel
    } else {
        spec_vel_kick(spec_gravity_vel(ship, ps, n - 1), ship.pos, ps[n - 1])
    }
}

/// One stepper invocation at `time`: every body's position recomputed for
/// `time`, then the craft's velocity fully updated, then its position moved
/// by the updated velocity.  This ordering is what keeps the scheme
/// semi-implicit; reordering it would change the numbers.
pub open spec fn spec_eval(time: int, ship: Ship, ps: Seq<Planet>) -> (Ship, Seq<Planet>) {
    let ps2 = Seq::new(ps.len(), |i: int| with_position(ps[i], spec_pos(time, ps, i)));
    let vel = spec_gravity_vel(ship, ps2, ps.len() as int);
    let pos = vadd(ship.pos, vscale(vel, DT as int));
    (Ship { pos, vel }, ps2)
}

/// A whole simulation state: absolute time, craft, bodies.
pub open spec fn spec_step_state(s: (int, Ship, Seq<Planet>)) -> (int, Ship, Seq<Planet>) {
    let t2 = fix_add(s.0, DT as int);
    let e = spec_eval(t2, s.1, s.2);
    (t2, e.0, e.1)
}

/// The simulation state after `k` fixed steps: the clock advanced by [`DT`]
/// and the stepper invoked, `k` times over.  Both the real advance and the
/// forecast are this function.
pub open spec fn spec_advance(s: (int, Ship, Seq<Planet>), k: nat) -> (int, Ship, Seq<Planet>)
    decreases k,
{
    if k == 0 {
        s
    } else {
        spec_step_state(spec_advance(s, (k - 1) as nat))
    }
}

/// Law: the stepper is deterministic.  Equal inputs give bit-equal outputs,
/// for any number of steps; there is no hidden state.
pub proof fn lemma_step_deterministic(
    s1: (int, Ship, Seq<Planet>),
    s2: (int, Ship, Seq<Planet>),
    k: nat,
)
    requires
        s1 == s2,
    ensures
        spec_advance(s1, k) == spec_advance(s2, k),
{
}

/// Law: advancing `j` steps and then `k` more is advancing `j + k` steps.
/// The real path (a few steps per frame) and a forecast read at its `k`-th
/// sample therefore land on the same state.
pub proof fn lemma_advance_compose(s: (int, Ship, Seq<Planet>), j: nat, k: nat)
    ensures
        spec_advance(spec_advance(s, j), k) == spec_advance(s, j + k),
    decreases k,
{
    if k > 0 {
        lemma_advance_compose(s, j, (k - 1) as nat);
    }
}

/// The stepper: advance `player` by one fixed step under the gravity of
/// `planets` evaluated at `time`.  Total: it never fails, it only produces
/// updated state.
pub fn eval(time: i64, player: &mut Ship, planets: &mut Vec<Planet>)
    requires
        time >= 0,
        wf_planets(old(planets)@),
    ensures
        *final(player) == spec_eval(time as int, *old(player), old(planets)@).0,
        final(planets)@ == spec_eval(time as int, *old(player), old(planets)@).1,
        final(planets)@.len() == old(planets)@.len(),
        wf_planets(final(planets)@),
{
    let ghost orig = planets@;
    let ghost s0 = *player;
    update_positions(time, planets);
    proof {
        assert(planets@ =~= spec_eval(time as int, s0, orig).1);
    }
    let ghost ps2 = planets@;
    let n = planets.len();
    let ship_pos = player.pos;
    let mut vel = player.vel;
    let mut i: usize = 0;
    while i < n
        invariant
            i <= n,
            n == planets@.len(),
            planets@ == ps2,
            ship_pos == s0.pos,
            vel == spec_gravity_vel(s0, ps2, i as int),
        decreases n - i,
    {
        let p = planets[i];
        let d = p.pos.sub(ship_pos);
        let d2 = d.length_squared();
        if d2 > 0 {
            let f = fdiv(p.mass, d2);
            let u = d.normalize();
            vel = vel.add(u.scale(f).scale(DT));
        }
        i += 1;
    }
    let pos = ship_pos.add(vel.scale(DT));
    *player = Ship { pos, vel };
}

/// Invoke the stepper `steps` times against the real craft and body state,
/// advancing the clock by [`DT`] before each invocation; the step count is
/// supplied externally by a game-speed policy.  Returns the advanced clock.
pub fn advance_real_state(steps: u32, time: i64, craft: &mut Ship, bodies: &mut Vec<Planet>) -> (t2:
    i64)
    requires
        time >= 0,
        wf_planets(old(bodies)@),
    ensures
        ({
            let s = spec_advance((time as int, *old(craft), old(bodies)@), steps as nat);
            &&& t2 as int == s.0
            &&& *final(craft) == s.1
            &&& final(bodies)@ == s.2
        }),
        t2 >= 0,
        wf_planets(final(bodies)@),
{
    let ghost s_init = (time as int, *old(craft), old(bodies)@);
    let mut now = time;
    let mut j: u32 = 0;
    while j < steps
        invariant
            j <= steps,
            now >= 0,
            wf_planets(bodies@),
            (now as int, *craft, bodies@) == spec_advance(s_init, j as nat),
        decreases steps - j,
    {
        now = fadd(now, DT);
        eval(now, craft, bodies);
        j += 1;
    }
    now
}

/// Advance the real game state: one frame's worth of fixed steps (0, 1 or
/// 2, decided by the speed setting).  Touches nothing of the game state but
/// the clock.
pub fn tic(game: &mut Game, player: &mut Player, planets: &mut Vec<Planet>)
    requires
        old(game).time >= 0,
        wf_planets(old(planets)@),
    ensures
        ({
            let k = crate::game::speed_steps(old(game).speed);
            let s = spec_advance((old(game).time as int, old(player).ship, old(planets)@), k);
            &&& final(game).time as int == s.0
            &&& final(player).ship == s.1
            &&& final(planets)@ == s.2
        }),
        final(game).speed == old(game).speed,
        final(game).fuel == old(game).fuel,
        final(game).credits == old(game).credits,
        final(game).total_credits == old(game).total_credits,
        final(game).tickets == old(game).tickets,
        final(game).manouver_mode == old(game).manouver_mode,
        final(game).manouver_dv == old(game).manouver_dv,
        final(game).manouver_fuel == old(game).manouver_fuel,
        final(game).contracts@ == old(game).contracts@,
        final(game).cargo_hold@ == old(game).cargo_hold@,
        final(game).selected_contract == old(game).selected_contract,
        final(game).time_of_last_contract_spawned == old(game).time_of_last_contract_spawned,
        final(player).is_spawned == old(player).is_spawned,
        final(player).is_just_spawned == old(player).is_just_spawned,
        final(player).is_caught == old(player).is_caught,
        final(game).time >= 0,
        wf_planets(final(planets)@),
{
    let k = game.steps();
    game.time = advance_real_state(k, game.time, &mut player.ship, planets);
}

/// One emitted forecast sample: where the craft will be, the color of the
/// body then nearest to it, and whether it would lie within a body's
/// collision radius plus the proximity margin.
#[derive(Clone, Copy, Debug, PartialEq, Eq, Structural)]
pub struct TrajectoryStep {
    pub pos: Vec2,
    pub color: u8,
    pub touches: bool,
}

/// The color of the body nearest to `pos` among the first `n`, with the
/// distance it stands at ([`FAR_COLOR`] and an unreachable distance when
/// there is none).
pub open spec fn spec_closest(ps: Seq<Planet>, pos: Vec2, n: int) -> (u8, int)
    decreases n,
{
    if n <= 0 {
        (FAR_COLOR, FIX_MAX as int)
    } else {
        let prev = spec_closest(ps, pos, n - 1);
        let d = vdist(ps[n - 1].pos, pos);
        if d < prev.1 {
            (ps[n - 1].color, d)
        } else {
            prev
        }
    }
}

/// Whether `pos` lies within `radius + MIN_ACCEPT_DISTANCE` of one of the
/// first `n` bodies.
pub open spec fn spec_touches(ps: Seq<Planet>, pos: Vec2, n: int) -> bool
    decreases n,
{
    if n <= 0 {
        false
    } else {
        spec_touches(ps, pos, n - 1) || vdist(ps[n - 1].pos, pos) <= fix_add(
            ps[n - 1].radius as int,
            MIN_ACCEPT_DISTANCE as int,
        )
    }
}

/// The proximity flag is exactly "some body is close enough".
pub proof fn lemma_touches_exists(ps: Seq<Planet>, pos: Vec2, n: int)
    requires
        0 <= n <= ps.len(),
    ensures
        spec_touches(ps, pos, n) <==> exists|i: int|
            0 <= i < n && vdist(ps[i].pos, pos) <= fix_add(
                ps[i].radius as int,
                MIN_ACCEPT_DISTANCE as int,
            ),
    decreases n,
{
    if n > 0 {
        lemma_touches_exists(ps, pos, n - 1);
    }
}

/// The sample the forecaster emits for a craft at `pos`.
pub open spec fn spec_sample(ps: Seq<Planet>, pos: Vec2) -> TrajectoryStep {
    TrajectoryStep {
        pos,
        color: spec_closest(ps, pos, ps.len() as int).0,
        touches: spec_touches(ps, pos, ps.len() as int),
    }
}

/// Compute the sample for a craft at `pos` against the current positions.
fn sample_at(planets: &Vec<Planet>, pos: Vec2) -> (r: TrajectoryStep)
    ensures
        r == spec_sample(planets@, pos),
{
    let n = planets.len();
    let mut color: u8 = FAR_COLOR;
    let mut closest: i64 = FIX_MAX;
    let mut touches: bool = false;
    let mut i: usize = 0;
    while i < n
        invariant
            i <= n,
            n == planets@.len(),
            (color, closest as int) == spec_closest(planets@, pos, i as int),
            touches == spec_touches(planets@, pos, i as int),
        decreases n - i,
    {
        let p = planets[i];
        let d = p.pos.distance(pos);
        if d < closest {
            color = p.color;
            closest = d;
        }
        if d <= fadd(p.radius, MIN_ACCEPT_DISTANCE) {
            touches = true;
        }
        i += 1;
    }
    TrajectoryStep { pos, color, touches }
}

/// A forecast in progress: a throwaway copy of the craft and of the body
/// registry, advanced lazily as samples are pulled.  It is reconstructed
/// from scratch every frame and abandoned for free by simply not pulling.
pub struct Trajectory {
    pub time: i64,
    pub ship: Ship,
    pub planets: Vec<Planet>,
    pub step: u32,
}

impl Trajectory {
    /// Validity: a non-negative clock, a well-formed registry copy, and a
    /// sample counter that never passes the bound.
    pub open spec fn wf(self) -> bool {
        &&& self.time >= 0
        &&& wf_planets(self.planets@)
        &&& self.step <= MAX_TRAJECTORY_STEPS
    }

    /// Pull the next sample: advance the private clock by [`DT`], invoke
    /// the very stepper the real path uses, and report where the craft
    /// lands.  After [`MAX_TRAJECTORY_STEPS`] samples it yields `None`
    /// forever; pulling past the end is not an error.
    pub fn next(&mut self) -> (r: Option<TrajectoryStep>)
        requires
            old(self).wf(),
        ensures
            final(self).wf(),
            old(self).step >= MAX_TRAJECTORY_STEPS ==> r is None && *final(self) == *old(self),
            old(self).step < MAX_TRAJECTORY_STEPS ==> {
                let s = spec_step_state(
                    (old(self).time as int, old(self).ship, old(self).planets@),
                );
                &&& final(self).time as int == s.0
                &&& final(self).ship == s.1
                &&& final(self).planets@ == s.2
                &&& final(self).step == old(self).step + 1
                &&& r == Option::Some(spec_sample(s.2, s.1.pos))
            },
    {
        if self.step >= MAX_TRAJECTORY_STEPS {
            return None;
        }
        self.step = self.step + 1;
        self.time = fadd(self.time, DT);
        let time = self.time;
        eval(time, &mut self.ship, &mut self.planets);
        let r = sample_at(&self.planets, self.ship.pos);
        Some(r)
    }
}

/// Begin a forecast from the current real state.  The craft and the bodies
/// are copied on entry: the real game state is never touched, and stopping
/// early costs nothing.
pub fn trajectory(game: &Game, player: &Ship, planets: &Vec<Planet>) -> (t: Trajectory)
    requires
        game.time >= 0,
        wf_planets(planets@),
    ensures
        t.time == game.time,
        t.ship == *player,
        t.planets@ == planets@,
        t.step == 0,
        t.wf(),
{
    Trajectory { time: game.time, ship: *player, planets: copy_planets(planets), step: 0 }
}

} // verus!

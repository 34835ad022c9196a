//! The maneuver planner: turns a pointer drag into a candidate velocity
//! change, gates it by the fuel budget, and applies it transactionally.
//!
//! There is no error state here: "no fuel" is a valid terminal outcome of a
//! planning session, reported as data, never thrown.

use vstd::prelude::*;
use vstd::arithmetic::div_mod::{lemma_div_is_ordered, lemma_div_multiples_vanish};

use crate::fixed::{
    fdiv, fix_div, fix_mul, fix_sub, fmax, fmin, fmul, lemma_fix_sqrt_nonneg, SCALE,
};
use crate::game::{Game, GameSpeed};
use crate::ship::Ship;
use crate::utils::{fix_lerp, lerp};
use crate::vec2::{vadd, vlen, vnorm, vscale, Vec2};

verus! {

/// Largest burn a full tank can buy.
pub const MAX_MANOUVER_LENGTH: i64 = 10 * SCALE;

/// Every committed burn, however small, costs at least this much fuel
/// (0.04 of a tank): a perceptible floor.
pub const MIN_MANOUVER_COST: i64 = 171798692;

/// Drag sensitivity at zero drag length (0.02).
pub const MANOUVER_SENSITIVITY_MIN: i64 = 85899346;

/// Drag sensitivity at and beyond the full drag length (0.08): longer drags
/// are more fuel-efficient per unit of requested burn.
pub const MANOUVER_SENSITIVITY_MAX: i64 = 343597384;

/// Drag length at which the sensitivity peaks.
pub const MANOUVER_SENSITIVITY_RANGE: i64 = 64 * SCALE;

/// A tank at or below this counts as empty when committing (0.00001).
pub const FUEL_EPSILON: i64 = 42950;

/// Fuel left below this after a burn snaps to zero (0.01).
pub const FUEL_SNAP: i64 = 42949673;

/// The sensitivity applied to a drag of the given length: interpolated over
/// the drag length, so the response curve is non-linear.
pub open spec fn spec_sensitivity(len: int) -> int {
    fix_lerp(
        MANOUVER_SENSITIVITY_MIN as int,
        MANOUVER_SENSITIVITY_MAX as int,
        fix_div(len, MANOUVER_SENSITIVITY_RANGE as int),
    )
}

pub fn sensitivity(len: i64) -> (r: i64)
    ensures
        r as int == spec_sensitivity(len as int),
{
    lerp(
        MANOUVER_SENSITIVITY_MIN,
        MANOUVER_SENSITIVITY_MAX,
        fdiv(len, MANOUVER_SENSITIVITY_RANGE),
    )
}

/// Law: the response curve only ever steepens.  A longer drag never gets a
/// smaller sensitivity, so longer drags are more effective per unit of
/// length.
pub proof fn lemma_sensitivity_monotone(a: int, b: int)
    requires
        0 <= a <= b,
    ensures
        spec_sensitivity(a) <= spec_sensitivity(b),
{
    let range = MANOUVER_SENSITIVITY_RANGE as int;
    let span = crate::fixed::fix_sub(
        MANOUVER_SENSITIVITY_MAX as int,
        MANOUVER_SENSITIVITY_MIN as int,
    );
    crate::fixed::lemma_fix_div_monotone(a, b, range);
    crate::fixed::lemma_fix_div_nonneg(a, range);
    crate::fixed::lemma_fix_div_nonneg(b, range);
    let ta = crate::utils::clamp01(fix_div(a, range));
    let tb = crate::utils::clamp01(fix_div(b, range));
    assert(0 <= ta <= tb);
    crate::fixed::lemma_fix_mul_monotone(span, ta, tb);
}

/// The candidate burn for a drag: the drag scaled by its sensitivity, then
/// clamped so its magnitude never exceeds what the fuel budget
/// (`fuel * MAX_MANOUVER_LENGTH`) allows.
pub open spec fn spec_manouver_dv(drag: Vec2, fuel: int) -> Vec2 {
    let dv = vscale(drag, spec_sensitivity(vlen(drag)));
    let dv_len = vlen(dv);
    let max_len = fix_mul(fuel, MAX_MANOUVER_LENGTH as int);
    if max_len == 0 {
        Vec2 { x: 0i64, y: 0i64 }
    } else if dv_len <= max_len {
        dv
    } else {
        vscale(vnorm(dv), max_len)
    }
}

/// The fuel cost of the candidate burn: its budget-clamped magnitude as a
/// fraction of [`MAX_MANOUVER_LENGTH`], but never below
/// [`MIN_MANOUVER_COST`].
pub open spec fn spec_manouver_cost(drag: Vec2, fuel: int) -> int {
    let dv_len = vlen(vscale(drag, spec_sensitivity(vlen(drag))));
    let max_len = fix_mul(fuel, MAX_MANOUVER_LENGTH as int);
    let eff = if dv_len <= max_len {
        dv_len
    } else {
        max_len
    };
    let raw = fix_div(eff, MAX_MANOUVER_LENGTH as int);
    if raw >= MIN_MANOUVER_COST as int {
        raw
    } else {
        MIN_MANOUVER_COST as int
    }
}

/// Law: the planner cannot overdraw the tank.  The cost of a burn never
/// exceeds the fuel it was planned against, except that it never drops
/// below the [`MIN_MANOUVER_COST`] floor.
pub proof fn lemma_cost_within_budget(drag: Vec2, fuel: int)
    requires
        0 <= fuel <= SCALE,
    ensures
        spec_manouver_cost(drag, fuel) <= if fuel >= MIN_MANOUVER_COST as int {
            fuel
        } else {
            MIN_MANOUVER_COST as int
        },
{
    let m = MAX_MANOUVER_LENGTH as int;
    let dv = vscale(drag, spec_sensitivity(vlen(drag)));
    let dv_len = vlen(dv);
    lemma_fix_sqrt_nonneg(crate::vec2::vlen_sq(dv));
    let max_len = fix_mul(fuel, m);
    assert(fuel * m == (SCALE as int) * (10 * fuel)) by (nonlinear_arith)
        requires
            m == 10 * (SCALE as int),
    ;
    lemma_div_multiples_vanish(10 * fuel, SCALE as int);
    assert((fuel * m) / (SCALE as int) == 10 * fuel);
    crate::fixed::lemma_fix_mul_eval_nonneg(fuel, m);
    assert(max_len == 10 * fuel);
    let eff = if dv_len <= max_len {
        dv_len
    } else {
        max_len
    };
    assert(0 <= eff <= 10 * fuel);
    let raw = fix_div(eff, m);
    crate::fixed::lemma_fix_div_eval_nonneg(eff, m);
    assert(eff * (SCALE as int) <= (10 * fuel) * (SCALE as int));
    lemma_div_is_ordered(eff * (SCALE as int), (10 * fuel) * (SCALE as int), m);
    assert((10 * fuel) * (SCALE as int) == m * fuel) by (nonlinear_arith)
        requires
            m == 10 * (SCALE as int),
    ;
    lemma_div_multiples_vanish(fuel, m);
    assert((eff * (SCALE as int)) / m <= fuel);
    vstd::arithmetic::div_mod::lemma_div_pos_is_pos(eff * (SCALE as int), m);
    assert(raw <= fuel);
}

/// A transient burn proposal: the clamped velocity delta and its fuel cost.
/// It lives only while the player is dragging; committing or cancelling
/// discards it.
#[derive(Clone, Copy, Debug, PartialEq, Eq, Structural)]
pub struct ManouverPlan {
    pub dv: Vec2,
    pub fuel_cost: i64,
}

/// Translate a drag vector and the available fuel into a burn proposal.
pub fn plan_manouver(drag: Vec2, fuel: i64) -> (p: ManouverPlan)
    ensures
        p.dv == spec_manouver_dv(drag, fuel as int),
        p.fuel_cost as int == spec_manouver_cost(drag, fuel as int),
        p.fuel_cost >= MIN_MANOUVER_COST,
{
    let sens = sensitivity(drag.length());
    let dv = drag.scale(sens);
    let dv_len = dv.length();
    let max_len = fmul(fuel, MAX_MANOUVER_LENGTH);
    let dv_final = if max_len == 0 {
        Vec2 { x: 0, y: 0 }
    } else if dv_len <= max_len {
        dv
    } else {
        dv.normalize().scale(max_len)
    };
    let eff = fmin(dv_len, max_len);
    let raw = fdiv(eff, MAX_MANOUVER_LENGTH);
    let cost = fmax(raw, MIN_MANOUVER_COST);
    ManouverPlan { dv: dv_final, fuel_cost: cost }
}

/// The tank after paying for a burn: the cost is deducted, and a nearly
/// empty tank snaps to exactly zero.
pub open spec fn spec_fuel_after(fuel: int, cost: int) -> int {
    if fix_sub(fuel, cost) < FUEL_SNAP as int {
        0
    } else {
        fix_sub(fuel, cost)
    }
}

/// What committing a plan did.
#[derive(Clone, Copy, Debug, PartialEq, Eq, Structural)]
pub enum CommitOutcome {
    /// The burn was applied and the fuel deducted.
    Committed,
    /// The plan proposed no velocity change; nothing happened.
    NoBurn,
    /// The tank was (practically) empty; nothing happened.  The caller is
    /// responsible for surfacing this to the player.
    NoFuel,
}

/// The planner's per-frame inputs, already translated to engine terms by
/// the caller: the engine itself is coordinate-system agnostic.
#[derive(Clone, Copy, Debug, PartialEq, Eq, Structural)]
pub struct PlannerInput {
    /// Drag vector from the pointer to the craft, in drag space.
    pub drag: Vec2,
    /// The pointer is within the pick radius of the craft.
    pub pointer_on_craft: bool,
    /// The primary button is held.
    pub left_hold: bool,
    /// The secondary button (or the cancel key) fired.
    pub cancel: bool,
}

/// What the caller should show after this frame's planning step.
#[derive(Clone, Copy, Debug, PartialEq, Eq, Structural)]
pub enum PlannerAction {
    /// Nothing to show.
    Idle,
    /// The pointer hovers the craft: show the selection indicator.
    Selection,
    /// A drag is in progress: forecast the candidate and draw the preview.
    Preview,
    /// The burn was committed this frame.
    Committed,
    /// The pointer was released over an empty tank: surface the notice.
    RefusedNoFuel,
    /// The session was cancelled; craft and fuel are untouched.
    Cancelled,
}

/// Commit a burn proposal: on success the craft's velocity gains the
/// candidate delta and the fuel pays the cost (clamped at zero).  An empty
/// tank or an empty candidate leaves craft and tank exactly as they were.
pub fn commit_manouver(plan: &ManouverPlan, game: &mut Game, ship: &mut Ship) -> (r:
    CommitOutcome)
    requires
        0 <= old(game).fuel <= SCALE,
        0 <= plan.fuel_cost,
    ensures
        plan.dv == (Vec2 { x: 0i64, y: 0i64 }) ==> r == CommitOutcome::NoBurn && *final(game)
            == *old(game) && *final(ship) == *old(ship),
        plan.dv != (Vec2 { x: 0i64, y: 0i64 }) && old(game).fuel <= FUEL_EPSILON ==> r
            == CommitOutcome::NoFuel && *final(game) == *old(game) && *final(ship) == *old(ship),
        plan.dv != (Vec2 { x: 0i64, y: 0i64 }) && old(game).fuel > FUEL_EPSILON ==> {
            &&& r == CommitOutcome::Committed
            &&& final(ship).vel == vadd(old(ship).vel, plan.dv)
            &&& final(ship).pos == old(ship).pos
            &&& final(game).fuel as int == spec_fuel_after(
                old(game).fuel as int,
                plan.fuel_cost as int,
            )
            &&& final(game).speed == GameSpeed::Normal
            &&& final(game).time == old(game).time
            &&& final(game).credits == old(game).credits
            &&& final(game).total_credits == old(game).total_credits
            &&& final(game).tickets == old(game).tickets
            &&& final(game).manouver_mode == old(game).manouver_mode
            &&& final(game).manouver_dv == old(game).manouver_dv
            &&& final(game).manouver_fuel == old(game).manouver_fuel
            &&& final(game).contracts@ == old(game).contracts@
            &&& final(game).cargo_hold@ == old(game).cargo_hold@
            &&& final(game).selected_contract == old(game).selected_contract
            &&& final(game).time_of_last_contract_spawned == old(
                game,
            ).time_of_last_contract_spawned
        },
        // Fuel is non-increasing across any sequence of commits, and stays
        // a valid tank level.
        final(game).fuel <= old(game).fuel,
        0 <= final(game).fuel <= SCALE,
        // A commit attempted with no fuel never touches the velocity.
        old(game).fuel == 0 ==> final(ship).vel == old(ship).vel,
{
    if plan.dv.x == 0 && plan.dv.y == 0 {
        return CommitOutcome::NoBurn;
    }
    if game.fuel <= FUEL_EPSILON {
        return CommitOutcome::NoFuel;
    }
    ship.vel = ship.vel.add(plan.dv);
    let burned = crate::fixed::fsub(game.fuel, plan.fuel_cost);
    game.fuel = if burned < FUEL_SNAP {
        0
    } else {
        burned
    };
    game.speed = GameSpeed::Normal;
    CommitOutcome::Committed
}

/// The planning mode at the end of a frame: arming happens when the pointer
/// grabs the craft with the primary button; cancelling or releasing the
/// button always ends the session.
pub open spec fn spec_mode_after(mode0: bool, on_craft: bool, left: bool, cancel: bool) -> bool {
    let armed = mode0 || (!mode0 && on_craft && left);
    if cancel {
        false
    } else if !left {
        false
    } else {
        armed
    }
}

/// Whether this frame commits the candidate: the session was live, the
/// button was released (not cancelled), the candidate is a real burn and
/// the tank is not empty.
pub open spec fn spec_commits(
    mode0: bool,
    on_craft: bool,
    left: bool,
    cancel: bool,
    dv: Vec2,
    fuel: int,
) -> bool {
    let armed = mode0 || (!mode0 && on_craft && left);
    &&& armed
    &&& !cancel
    &&& !left
    &&& dv != (Vec2 { x: 0i64, y: 0i64 })
    &&& fuel > FUEL_EPSILON as int
}

/// What the frame asks the caller to show, by priority.
pub open spec fn spec_action(
    mode0: bool,
    on_craft: bool,
    left: bool,
    cancel: bool,
    dv: Vec2,
    fuel: int,
) -> PlannerAction {
    let armed = mode0 || (!mode0 && on_craft && left);
    if armed && cancel {
        PlannerAction::Cancelled
    } else if armed && !left {
        if dv != (Vec2 { x: 0i64, y: 0i64 }) {
            if fuel <= FUEL_EPSILON as int {
                PlannerAction::RefusedNoFuel
            } else {
                PlannerAction::Committed
            }
        } else {
            PlannerAction::Idle
        }
    } else if armed && dv != (Vec2 { x: 0i64, y: 0i64 }) {
        PlannerAction::Preview
    } else if !mode0 && on_craft {
        PlannerAction::Selection
    } else {
        PlannerAction::Idle
    }
}

/// The game-state fields the planner never touches.
pub open spec fn non_planner_fields_unchanged(a: Game, b: Game) -> bool {
    &&& b.time == a.time
    &&& b.credits == a.credits
    &&& b.total_credits == a.total_credits
    &&& b.tickets == a.tickets
    &&& b.contracts@ == a.contracts@
    &&& b.cargo_hold@ == a.cargo_hold@
    &&& b.selected_contract == a.selected_contract
    &&& b.time_of_last_contract_spawned == a.time_of_last_contract_spawned
}

/// One frame of the planning state machine.  Runs only while the simulation
/// is paused; recomputes the candidate and its cost from this frame's drag,
/// arms the session when the craft is grabbed, and commits or cancels on
/// release.
pub fn tic(game: &mut Game, ship: &mut Ship, input: &PlannerInput) -> (r: PlannerAction)
    requires
        0 <= old(game).fuel <= SCALE,
    ensures
        old(game).speed != GameSpeed::Stop ==> *final(game) == *old(game) && *final(ship) == *old(
            ship,
        ) && r == PlannerAction::Idle,
        old(game).speed == GameSpeed::Stop ==> ({
            let dv = spec_manouver_dv(input.drag, old(game).fuel as int);
            let cost = spec_manouver_cost(input.drag, old(game).fuel as int);
            let commits = spec_commits(
                old(game).manouver_mode,
                input.pointer_on_craft,
                input.left_hold,
                input.cancel,
                dv,
                old(game).fuel as int,
            );
            &&& final(game).manouver_dv == dv
            &&& final(game).manouver_fuel as int == cost
            &&& final(game).manouver_mode == spec_mode_after(
                old(game).manouver_mode,
                input.pointer_on_craft,
                input.left_hold,
                input.cancel,
            )
            &&& r == spec_action(
                old(game).manouver_mode,
                input.pointer_on_craft,
                input.left_hold,
                input.cancel,
                dv,
                old(game).fuel as int,
            )
            &&& (commits ==> final(ship).vel == vadd(old(ship).vel, dv) && final(game).fuel as int
                == spec_fuel_after(old(game).fuel as int, cost) && final(game).speed
                == GameSpeed::Normal)
            &&& (!commits ==> final(ship).vel == old(ship).vel && final(game).fuel == old(
                game,
            ).fuel && final(game).speed == old(game).speed)
            &&& final(ship).pos == old(ship).pos
            &&& non_planner_fields_unchanged(*old(game), *final(game))
        }),
        // Fuel is non-increasing across any frame, and an empty tank never
        // changes the velocity.
        final(game).fuel <= old(game).fuel,
        0 <= final(game).fuel <= SCALE,
        old(game).fuel == 0 ==> final(ship).vel == old(ship).vel,
{
    if !game.is_paused() {
        return PlannerAction::Idle;
    }
    let plan = plan_manouver(input.drag, game.fuel);
    game.manouver_dv = plan.dv;
    game.manouver_fuel = plan.fuel_cost;
    let mode0 = game.manouver_mode;
    let armed = mode0 || (!mode0 && input.pointer_on_craft && input.left_hold);
    game.manouver_mode = armed;
    if armed && input.cancel {
        game.manouver_mode = false;
        return PlannerAction::Cancelled;
    }
    if armed && !input.left_hold {
        game.manouver_mode = false;
        if !(plan.dv.x == 0 && plan.dv.y == 0) {
            let outcome = commit_manouver(&plan, game, ship);
            if outcome == CommitOutcome::NoFuel {
                return PlannerAction::RefusedNoFuel;
            }
            return PlannerAction::Committed;
        }
        return PlannerAction::Idle;
    }
    if armed && !(plan.dv.x == 0 && plan.dv.y == 0) {
        return PlannerAction::Preview;
    }
    if !mode0 && input.pointer_on_craft {
        return PlannerAction::Selection;
    }
    PlannerAction::Idle
}

} // verus!

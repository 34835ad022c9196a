//! The title screen: ships circling the screen center, waiting for a key.

use vstd::prelude::*;

use crate::fixed::{fadd, fix_add, fix_mul, fmul, SCALE};
use crate::mouse_utils::MouseButtons;
use crate::trig::{cos_spec, cos_turns, sin_spec, sin_turns};
use crate::vec2::{vadd, vscale, vsub, Vec2};

verus! {

/// Scale applied to the finite difference of an intro orbit to fake a
/// velocity (1.9).
pub const INTRO_VELOCITY_FACTOR: i64 = 8160437862;

/// The screen center, in world units at scale one.
pub fn center() -> (r: Vec2)
    ensures
        r == (Vec2 { x: 515396075520i64, y: 292057776128i64 }),
{
    Vec2 { x: 515396075520, y: 292057776128 }
}

/// The player ship's intro orbit: an ellipse around the screen center.
pub open spec fn spec_player_pos(time: int) -> Vec2 {
    vadd(
        Vec2 { x: 515396075520i64, y: 292057776128i64 },
        Vec2 {
            x: fix_mul(cos_spec(time), (100 * SCALE) as int) as i64,
            y: fix_mul(sin_spec(time), (60 * SCALE) as int) as i64,
        },
    )
}

pub fn get_player_pos(time: i64) -> (r: Vec2)
    requires
        time >= 0,
    ensures
        r == spec_player_pos(time as int),
{
    center().add(
        Vec2 { x: fmul(cos_turns(time), 100 * SCALE), y: fmul(sin_turns(time), 60 * SCALE) },
    )
}

/// Phase offset of police ship `idx` on the intro orbit.
pub open spec fn spec_police_phase(idx: int) -> int {
    if idx == 0 {
        3269619383
    } else if idx == 1 {
        2927836745
    } else {
        2791123690
    }
}

/// Size factor of police ship `idx` on the intro orbit.
pub open spec fn spec_police_factor(idx: int) -> int {
    if idx == 0 {
        SCALE as int
    } else if idx == 1 {
        3865470566
    } else {
        4724464026
    }
}

/// Police ship `idx`'s intro orbit: the player's, phase-shifted and scaled.
pub open spec fn spec_police_pos(idx: int, time: int) -> Vec2 {
    let shifted = fix_add(time, spec_police_phase(idx));
    let f = spec_police_factor(idx);
    vadd(
        Vec2 { x: 515396075520i64, y: 292057776128i64 },
        Vec2 {
            x: fix_mul(fix_mul(cos_spec(shifted), (100 * SCALE) as int), f) as i64,
            y: fix_mul(fix_mul(sin_spec(shifted), (50 * SCALE) as int), f) as i64,
        },
    )
}

pub fn get_police_pos(idx: usize, time: i64) -> (r: Vec2)
    requires
        idx < 3,
        time >= 0,
    ensures
        r == spec_police_pos(idx as int, time as int),
{
    let phase: i64 = if idx == 0 {
        3269619383
    } else if idx == 1 {
        2927836745
    } else {
        2791123690
    };
    let f: i64 = if idx == 0 {
        SCALE
    } else if idx == 1 {
        3865470566
    } else {
        4724464026
    };
    let shifted = fadd(time, phase);
    center().add(
        Vec2 {
            x: fmul(fmul(cos_turns(shifted), 100 * SCALE), f),
            y: fmul(fmul(sin_turns(shifted), 50 * SCALE), f),
        },
    )
}

/// The fake velocity between two successive intro positions.
pub fn get_velocity(p1: Vec2, p2: Vec2) -> (r: Vec2)
    ensures
        r == vscale(vsub(p2, p1), INTRO_VELOCITY_FACTOR as int),
{
    p2.sub(p1).scale(INTRO_VELOCITY_FACTOR)
}

/// Whether any input at all fired this frame: a gamepad button, a key, or
/// a mouse button.
pub fn any_key(btns: &Vec<bool>, keys: &Vec<bool>, mouse: &MouseButtons) -> (r: bool)
    ensures
        r == ((exists|i: int| 0 <= i < btns@.len() && btns@[i]) || (exists|i: int|
            0 <= i < keys@.len() && keys@[i]) || mouse.left || mouse.right),
{
    let mut i: usize = 0;
    let n = btns.len();
    while i < n
        invariant
            i <= n,
            n == btns@.len(),
            forall|j: int| 0 <= j < i as int ==> !btns@[j],
        decreases n - i,
    {
        if btns[i] {
            return true;
        }
        i += 1;
    }
    let mut i: usize = 0;
    let n = keys.len();
    while i < n
        invariant
            i <= n,
            n == keys@.len(),
            forall|j: int| 0 <= j < i as int ==> !keys@[j],
            forall|j: int| 0 <= j < btns@.len() ==> !btns@[j],
        decreases n - i,
    {
        if keys[i] {
            return true;
        }
        i += 1;
    }
    mouse.left || mouse.right
}

} // verus!

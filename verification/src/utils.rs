//! Small numeric helpers shared across the engine.

use vstd::prelude::*;

use crate::fixed::{fadd, fdiv, fix_add, fix_div, fix_mul, fix_sub, fmul, fsub, SCALE};
use crate::trig::{cos_spec, cos_turns, sin_spec, sin_turns};
use crate::vec2::Vec2;

verus! {

/// `t` confined to the unit interval.
pub open spec fn clamp01(t: int) -> int {
    if t < 0 {
        0
    } else if t > SCALE as int {
        SCALE as int
    } else {
        t
    }
}

/// Linear interpolation from `a` to `b` by `t`, with `t` clamped to the
/// unit interval.
pub open spec fn fix_lerp(a: int, b: int, t: int) -> int {
    fix_add(a, fix_mul(fix_sub(b, a), clamp01(t)))
}

pub fn lerp(a: i64, b: i64, t: i64) -> (r: i64)
    ensures
        r as int == fix_lerp(a as int, b as int, t as int),
{
    let tc = if t < 0 {
        0
    } else if t > SCALE {
        SCALE
    } else {
        t
    };
    fadd(a, fmul(fsub(b, a), tc))
}

/// `v` mapped linearly from the interval `(a, b)` onto `(c, d)`, clamped at
/// the ends.
pub open spec fn fix_remap(v: int, a: int, b: int, c: int, d: int) -> int {
    fix_lerp(c, d, fix_div(fix_sub(v, a), fix_sub(b, a)))
}

pub fn remap(v: i64, a: i64, b: i64, c: i64, d: i64) -> (r: i64)
    ensures
        r as int == fix_remap(v as int, a as int, b as int, c as int, d as int),
{
    lerp(c, d, fdiv(fsub(v, a), fsub(b, a)))
}

/// Screen width in world units at scale one.
pub const SCREEN_WIDTH: i64 = 240 * SCALE;

/// Screen height in world units at scale one.
pub const SCREEN_HEIGHT: i64 = 136 * SCALE;

/// `v` confined to `[lo, hi]`.
pub open spec fn spec_clamp(v: int, lo: int, hi: int) -> int {
    if v < lo {
        lo
    } else if v > hi {
        hi
    } else {
        v
    }
}

/// A scalar confined to a closed interval.
pub fn clamp(v: i64, lo: i64, hi: i64) -> (r: i64)
    ensures
        r as int == spec_clamp(v as int, lo as int, hi as int),
{
    if v < lo {
        lo
    } else if v > hi {
        hi
    } else {
        v
    }
}

/// `v` carried into the frame whose up-axis is the unit vector `dir`,
/// anchored at `origin`: the rotation taking the positive y-axis onto
/// `dir`, applied to `v`, plus `origin`.
pub open spec fn spec_point_toward(v: Vec2, origin: Vec2, dir: Vec2) -> Vec2 {
    Vec2 {
        x: fix_add(
            origin.x as int,
            fix_add(fix_mul(v.x as int, dir.y as int), fix_mul(v.y as int, dir.x as int)),
        ) as i64,
        y: fix_add(
            origin.y as int,
            fix_sub(fix_mul(v.y as int, dir.y as int), fix_mul(v.x as int, dir.x as int)),
        ) as i64,
    }
}

pub fn point_toward(v: Vec2, origin: Vec2, dir: Vec2) -> (r: Vec2)
    ensures
        r == spec_point_toward(v, origin, dir),
{
    Vec2 {
        x: fadd(origin.x, fadd(fmul(v.x, dir.y), fmul(v.y, dir.x))),
        y: fadd(origin.y, fsub(fmul(v.y, dir.y), fmul(v.x, dir.x))),
    }
}

/// The three segments of a small arrow pointing along `dir`, anchored at
/// `at`: a shaft and two barbs, drawn by the off-screen indicators.
pub open spec fn spec_edge_arrow(at: Vec2, dir: Vec2) -> Seq<(Vec2, Vec2)> {
    seq![
        (
            spec_point_toward(Vec2 { x: 0i64, y: (8 * SCALE) as i64 }, at, dir),
            spec_point_toward(Vec2 { x: 0i64, y: SCALE as i64 }, at, dir),
        ),
        (
            spec_point_toward(Vec2 { x: 0i64, y: (2 * SCALE) as i64 }, at, dir),
            spec_point_toward(Vec2 { x: (-3 * SCALE) as i64, y: (4 * SCALE) as i64 }, at, dir),
        ),
        (
            spec_point_toward(Vec2 { x: 0i64, y: (2 * SCALE) as i64 }, at, dir),
            spec_point_toward(Vec2 { x: (3 * SCALE) as i64, y: (4 * SCALE) as i64 }, at, dir),
        ),
    ]
}

pub fn edge_arrow(at: Vec2, dir: Vec2) -> (r: Vec<(Vec2, Vec2)>)
    ensures
        r@ == spec_edge_arrow(at, dir),
{
    let mut r: Vec<(Vec2, Vec2)> = Vec::new();
    r.push((
        point_toward(Vec2 { x: 0, y: 8 * SCALE }, at, dir),
        point_toward(Vec2 { x: 0, y: SCALE }, at, dir),
    ));
    r.push((
        point_toward(Vec2 { x: 0, y: 2 * SCALE }, at, dir),
        point_toward(Vec2 { x: -3 * SCALE, y: 4 * SCALE }, at, dir),
    ));
    r.push((
        point_toward(Vec2 { x: 0, y: 2 * SCALE }, at, dir),
        point_toward(Vec2 { x: 3 * SCALE, y: 4 * SCALE }, at, dir),
    ));
    proof {
        assert(r@ =~= spec_edge_arrow(at, dir));
    }
    r
}

/// `point` rotated about `around` by `angle` turns.
pub open spec fn spec_rotate(point: Vec2, around: Vec2, angle: int) -> Vec2 {
    let ox = fix_sub(point.x as int, around.x as int);
    let oy = fix_sub(point.y as int, around.y as int);
    let c = cos_spec(angle);
    let s = sin_spec(angle);
    Vec2 {
        x: fix_add(fix_sub(fix_mul(ox, c), fix_mul(oy, s)), around.x as int) as i64,
        y: fix_add(fix_add(fix_mul(ox, s), fix_mul(oy, c)), around.y as int) as i64,
    }
}

pub fn rotate(point: Vec2, around: Vec2, angle: i64) -> (r: Vec2)
    requires
        angle >= 0,
    ensures
        r == spec_rotate(point, around, angle as int),
{
    let ox = fsub(point.x, around.x);
    let oy = fsub(point.y, around.y);
    let c = cos_turns(angle);
    let s = sin_turns(angle);
    Vec2 {
        x: fadd(fsub(fmul(ox, c), fmul(oy, s)), around.x),
        y: fadd(fadd(fmul(ox, s), fmul(oy, c)), around.y),
    }
}

} // verus!

//! Two-dimensional fixed-point vectors.

use vstd::prelude::*;

use crate::fixed::{fadd, fdiv, fmul, fsqrt, fsub};
use crate::fixed::{fix_add, fix_div, fix_mul, fix_sqrt, fix_sub};

verus! {

/// A point or direction in world space, both components in Q31.32.
#[derive(Clone, Copy, Debug, PartialEq, Eq, Structural)]
pub struct Vec2 {
    pub x: i64,
    pub y: i64,
}

/// Componentwise saturating sum.
pub open spec fn vadd(a: Vec2, b: Vec2) -> Vec2 {
    Vec2 { x: fix_add(a.x as int, b.x as int) as i64, y: fix_add(a.y as int, b.y as int) as i64 }
}

/// Componentwise saturating difference.
pub open spec fn vsub(a: Vec2, b: Vec2) -> Vec2 {
    Vec2 { x: fix_sub(a.x as int, b.x as int) as i64, y: fix_sub(a.y as int, b.y as int) as i64 }
}

/// Both components scaled by the fixed-point factor `k`.
pub open spec fn vscale(a: Vec2, k: int) -> Vec2 {
    Vec2 { x: fix_mul(a.x as int, k) as i64, y: fix_mul(a.y as int, k) as i64 }
}

/// Componentwise saturating product.
pub open spec fn vmul(a: Vec2, b: Vec2) -> Vec2 {
    Vec2 { x: fix_mul(a.x as int, b.x as int) as i64, y: fix_mul(a.y as int, b.y as int) as i64 }
}

/// Saturating squared length.
pub open spec fn vlen_sq(a: Vec2) -> int {
    fix_add(fix_mul(a.x as int, a.x as int), fix_mul(a.y as int, a.y as int))
}

/// Length, through the saturating squared length.
pub open spec fn vlen(a: Vec2) -> int {
    fix_sqrt(vlen_sq(a))
}

/// Distance between two points.
pub open spec fn vdist(a: Vec2, b: Vec2) -> int {
    vlen(vsub(b, a))
}

/// The unit vector along `a` (zero when `a` is zero, defensively).
pub open spec fn vnorm(a: Vec2) -> Vec2 {
    let l = vlen(a);
    Vec2 { x: fix_div(a.x as int, l) as i64, y: fix_div(a.y as int, l) as i64 }
}

impl Vec2 {
    /// The origin / null vector.
    pub fn zero() -> (r: Vec2)
        ensures
            r == (Vec2 { x: 0i64, y: 0i64 }),
    {
        Vec2 { x: 0, y: 0 }
    }

    pub fn new(x: i64, y: i64) -> (r: Vec2)
        ensures
            r == (Vec2 { x: x, y: y }),
    {
        Vec2 { x, y }
    }

    pub fn add(self, o: Vec2) -> (r: Vec2)
        ensures
            r == vadd(self, o),
    {
        Vec2 { x: fadd(self.x, o.x), y: fadd(self.y, o.y) }
    }

    pub fn sub(self, o: Vec2) -> (r: Vec2)
        ensures
            r == vsub(self, o),
    {
        Vec2 { x: fsub(self.x, o.x), y: fsub(self.y, o.y) }
    }

    pub fn scale(self, k: i64) -> (r: Vec2)
        ensures
            r == vscale(self, k as int),
    {
        Vec2 { x: fmul(self.x, k), y: fmul(self.y, k) }
    }

    pub fn mul(self, o: Vec2) -> (r: Vec2)
        ensures
            r == vmul(self, o),
    {
        Vec2 { x: fmul(self.x, o.x), y: fmul(self.y, o.y) }
    }

    pub fn length_squared(self) -> (r: i64)
        ensures
            r as int == vlen_sq(self),
    {
        fadd(fmul(self.x, self.x), fmul(self.y, self.y))
    }

    pub fn length(self) -> (r: i64)
        ensures
            r as int == vlen(self),
    {
        fsqrt(self.length_squared())
    }

    pub fn distance(self, o: Vec2) -> (r: i64)
        ensures
            r as int == vdist(self, o),
    {
        o.sub(self).length()
    }

    /// The unit vector along `self`; the null vector stays null because the
    /// division guard treats a zero length as zero.
    pub fn normalize(self) -> (r: Vec2)
        ensures
            r == vnorm(self),
    {
        let l = self.length();
        Vec2 { x: fdiv(self.x, l), y: fdiv(self.y, l) }
    }
}

} // verus!

//! A pointed arrow between two screen positions, as bare segments.

use vstd::prelude::*;

use crate::fixed::SCALE;
use crate::utils::{rotate, spec_rotate};
use crate::vec2::{vadd, vnorm, vscale, vsub, Vec2};

verus! {

/// Length of the arrowhead's two barbs.
pub const ARROW_HEAD_SIZE: i64 = 10 * SCALE;

/// Angle between the shaft and each barb: a twelfth of a turn.
pub const ARROW_HEAD_ANGLE: i64 = 357913941;

/// The same angle taken the other way round the circle.
pub const ARROW_HEAD_ANGLE_BACK: i64 = 3937053355;

/// An arrow from `start` to `end`, pulled in by `margin` at both ends.
#[derive(Clone, Copy, Debug, PartialEq, Eq, Structural)]
pub struct Arrow {
    pub start: Vec2,
    pub end: Vec2,
    pub color: u8,
    pub margin: i64,
}

/// The three segments of an arrow: the shaft, then the two barbs, each a
/// head-length back from the tip and rotated a twelfth of a turn to either
/// side.
pub open spec fn spec_arrow_segments(start: Vec2, end: Vec2, margin: int) -> Seq<(Vec2, Vec2)> {
    let along = vnorm(vsub(end, start));
    let tail = vadd(start, vscale(along, margin));
    let tip = vsub(end, vscale(along, margin));
    let ear = vadd(tip, vscale(vnorm(vsub(tail, tip)), ARROW_HEAD_SIZE as int));
    seq![
        (tail, tip),
        (tip, spec_rotate(ear, tip, ARROW_HEAD_ANGLE as int)),
        (tip, spec_rotate(ear, tip, ARROW_HEAD_ANGLE_BACK as int)),
    ]
}

impl Arrow {
    pub fn new(start: Vec2, end: Vec2, color: u8) -> (r: Arrow)
        ensures
            r == (Arrow { start, end, color, margin: 0i64 }),
    {
        Arrow { start, end, color, margin: 0 }
    }

    pub fn margin(self, margin: i64) -> (r: Arrow)
        ensures
            r == (Arrow { margin, ..self }),
    {
        Arrow { margin, ..self }
    }

    /// The segments to draw, in the arrow's color.
    pub fn draw(self) -> (r: Vec<(Vec2, Vec2)>)
        ensures
            r@ == spec_arrow_segments(self.start, self.end, self.margin as int),
    {
        let along = self.end.sub(self.start).normalize();
        let tail = self.start.add(along.scale(self.margin));
        let tip = self.end.sub(along.scale(self.margin));
        let ear = tip.add(tail.sub(tip).normalize().scale(ARROW_HEAD_SIZE));
        let mut r: Vec<(Vec2, Vec2)> = Vec::new();
        r.push((tail, tip));
        r.push((tip, rotate(ear, tip, ARROW_HEAD_ANGLE)));
        r.push((tip, rotate(ear, tip, ARROW_HEAD_ANGLE_BACK)));
        proof {
            assert(r@ =~= spec_arrow_segments(self.start, self.end, self.margin as int));
        }
        r
    }
}

} // verus!

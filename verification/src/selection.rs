//! The corner-bracket indicator drawn around a selectable craft.

use vstd::prelude::*;

use crate::fixed::{fmul, fix_mul, SCALE};
use crate::trig::{HALF_TURN, QUARTER_TURN};
use crate::utils::{rotate, spec_rotate};
use crate::vec2::{vadd, vscale, vsub, Vec2};

verus! {

/// A third, for placing the bracket ends along each edge (0.33).
pub const CORNER_FRACTION: i64 = 1417339208;

/// The indicator: a center and a box size.
#[derive(Clone, Copy, Debug, PartialEq, Eq, Structural)]
pub struct SelectionIndicator {
    pub at: Vec2,
    pub size: Vec2,
}

/// The eight line segments of the four corner brackets: one corner drawn,
/// then the same corner a quarter, a half and three quarters of a turn
/// around the center.
pub open spec fn spec_selection_segments(at: Vec2, size: Vec2) -> Seq<(Vec2, Vec2)> {
    let hsize = vscale(size, (SCALE / 2) as int);
    let v0 = vsub(at, hsize);
    let v1 = vadd(v0, Vec2 { x: 0i64, y: fix_mul(hsize.y as int, CORNER_FRACTION as int) as i64 });
    let v2 = vadd(v0, Vec2 { x: fix_mul(hsize.x as int, CORNER_FRACTION as int) as i64, y: 0i64 });
    seq![
        (spec_rotate(v0, at, 0), spec_rotate(v1, at, 0)),
        (spec_rotate(v0, at, 0), spec_rotate(v2, at, 0)),
        (spec_rotate(v0, at, QUARTER_TURN as int), spec_rotate(v1, at, QUARTER_TURN as int)),
        (spec_rotate(v0, at, QUARTER_TURN as int), spec_rotate(v2, at, QUARTER_TURN as int)),
        (spec_rotate(v0, at, HALF_TURN as int), spec_rotate(v1, at, HALF_TURN as int)),
        (spec_rotate(v0, at, HALF_TURN as int), spec_rotate(v2, at, HALF_TURN as int)),
        (
            spec_rotate(v0, at, (HALF_TURN + QUARTER_TURN) as int),
            spec_rotate(v1, at, (HALF_TURN + QUARTER_TURN) as int),
        ),
        (
            spec_rotate(v0, at, (HALF_TURN + QUARTER_TURN) as int),
            spec_rotate(v2, at, (HALF_TURN + QUARTER_TURN) as int),
        ),
    ]
}

impl SelectionIndicator {
    pub fn new(at: Vec2) -> (r: SelectionIndicator)
        ensures
            r == (SelectionIndicator { at, size: Vec2 { x: 0i64, y: 0i64 } }),
    {
        SelectionIndicator { at, size: Vec2 { x: 0, y: 0 } }
    }

    pub fn size(self, size: Vec2) -> (r: SelectionIndicator)
        ensures
            r == (SelectionIndicator { at: self.at, size }),
    {
        SelectionIndicator { size, ..self }
    }

    /// The segments to draw, in world units; the renderer turns them into
    /// lines.
    #[verifier::rlimit(60)]
    pub fn draw(self) -> (r: Vec<(Vec2, Vec2)>)
        ensures
            r@ == spec_selection_segments(self.at, self.size),
    {
        let hsize = self.size.scale(SCALE / 2);
        let v0 = self.at.sub(hsize);
        let v1 = v0.add(Vec2 { x: 0, y: fmul(hsize.y, CORNER_FRACTION) });
        let v2 = v0.add(Vec2 { x: fmul(hsize.x, CORNER_FRACTION), y: 0 });
        let mut r: Vec<(Vec2, Vec2)> = Vec::new();
        r.push((rotate(v0, self.at, 0), rotate(v1, self.at, 0)));
        r.push((rotate(v0, self.at, 0), rotate(v2, self.at, 0)));
        r.push((rotate(v0, self.at, QUARTER_TURN), rotate(v1, self.at, QUARTER_TURN)));
        r.push((rotate(v0, self.at, QUARTER_TURN), rotate(v2, self.at, QUARTER_TURN)));
        r.push((rotate(v0, self.at, HALF_TURN), rotate(v1, self.at, HALF_TURN)));
        r.push((rotate(v0, self.at, HALF_TURN), rotate(v2, self.at, HALF_TURN)));
        r.push((
            rotate(v0, self.at, HALF_TURN + QUARTER_TURN),
            rotate(v1, self.at, HALF_TURN + QUARTER_TURN),
        ));
        r.push((
            rotate(v0, self.at, HALF_TURN + QUARTER_TURN),
            rotate(v2, self.at, HALF_TURN + QUARTER_TURN),
        ));
        proof {
            assert(r@ =~= spec_selection_segments(self.at, self.size));
        }
        r
    }
}

} // verus!

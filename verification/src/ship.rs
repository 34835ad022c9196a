//! The controllable craft.

use vstd::prelude::*;

use crate::fixed::SCALE;
use crate::vec2::Vec2;

verus! {

/// A craft: the player ship, or a police vehicle reusing the same shape.
/// Velocity and position are always updated together, velocity first
/// (semi-implicit Euler); the stepper in `sim` is the only place that does
/// so.
#[derive(Clone, Copy, Debug, PartialEq, Eq, Structural)]
pub struct Ship {
    pub pos: Vec2,
    pub vel: Vec2,
}

impl Ship {
    pub fn new(pos: Vec2, vel: Vec2) -> (r: Ship)
        ensures
            r == (Ship { pos, vel }),
    {
        Ship { pos, vel }
    }
}

impl Default for Ship {
    /// A craft resting at the origin.
    fn default() -> (r: Ship)
        ensures
            r == (Ship { pos: Vec2 { x: 0i64, y: 0i64 }, vel: Vec2 { x: 0i64, y: 0i64 } }),
    {
        Ship { pos: Vec2 { x: 0, y: 0 }, vel: Vec2 { x: 0, y: 0 } }
    }
}

/// Length of one full police-sprite alternation cycle.
pub const SPRITE_CYCLE: i64 = 600 * SCALE;

/// Half of the police-sprite alternation cycle.
pub const SPRITE_HALF_CYCLE: i64 = 300 * SCALE;

/// Which of the two pursuit sprites a police craft shows at `time`.
pub fn police_alternate_sprite(time: i64) -> (r: bool)
    requires
        time >= 0,
    ensures
        r == ((time as int) % (SPRITE_CYCLE as int) < SPRITE_HALF_CYCLE as int),
{
    (time as u64) % (SPRITE_CYCLE as u64) < SPRITE_HALF_CYCLE as u64
}

} // verus!

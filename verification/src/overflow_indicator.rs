//! Edge-of-screen indicators for craft that drifted out of view.

use vstd::prelude::*;

use crate::fixed::SCALE;
use crate::localizator::spec_anchor;
use crate::utils::{clamp, edge_arrow, spec_edge_arrow, SCREEN_HEIGHT, SCREEN_WIDTH};
use crate::vec2::{vnorm, vsub, Vec2};

verus! {

/// Whose craft the indicator tracks.
#[derive(Clone, Copy, Debug, PartialEq, Eq, Structural)]
pub enum OverflowIndicatorTy {
    Player,
    Police,
}

/// An indicator anchored at a (possibly off-screen) craft position.
#[derive(Clone, Copy, Debug, PartialEq, Eq, Structural)]
pub struct OverflowIndicator {
    pub at: Vec2,
    pub id: OverflowIndicatorTy,
}

impl OverflowIndicator {
    pub fn player(at: Vec2) -> (r: OverflowIndicator)
        ensures
            r == (OverflowIndicator { at, id: OverflowIndicatorTy::Player }),
    {
        OverflowIndicator { at, id: OverflowIndicatorTy::Player }
    }

    pub fn police(at: Vec2) -> (r: OverflowIndicator)
        ensures
            r == (OverflowIndicator { at, id: OverflowIndicatorTy::Police }),
    {
        OverflowIndicator { at, id: OverflowIndicatorTy::Police }
    }

    /// The color and segments to draw this frame; the player's own
    /// indicator hides on the blink beat.
    pub fn draw_ex(self, blink: bool) -> (r: Option<(u8, Vec<(Vec2, Vec2)>)>)
        ensures
            self.id == OverflowIndicatorTy::Player && blink ==> r is None,
            !(self.id == OverflowIndicatorTy::Player && blink) ==> match r {
                Option::Some(cs) => {
                    &&& cs.0 == (match self.id {
                        OverflowIndicatorTy::Player => 5u8,
                        OverflowIndicatorTy::Police => if blink {
                            2u8
                        } else {
                            10u8
                        },
                    })
                    &&& cs.1@ == spec_edge_arrow(
                        spec_anchor(self.at),
                        vnorm(vsub(self.at, spec_anchor(self.at))),
                    )
                },
                Option::None => false,
            },
    {
        let color: u8 = match self.id {
            OverflowIndicatorTy::Player => {
                if blink {
                    return None;
                }
                5
            },
            OverflowIndicatorTy::Police => if blink {
                2
            } else {
                10
            },
        };
        let anchor = Vec2 {
            x: clamp(self.at.x, 2 * SCALE, SCREEN_WIDTH - 2 * SCALE),
            y: clamp(self.at.y, 2 * SCALE, SCREEN_HEIGHT - 2 * SCALE),
        };
        let dir = self.at.sub(anchor).normalize();
        Some((color, edge_arrow(anchor, dir)))
    }
}

} // verus!

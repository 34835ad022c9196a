//! Edge-of-screen indicators pointing at the player, police craft and
//! contract sources.

use vstd::prelude::*;

use crate::fixed::SCALE;
use crate::utils::{
    clamp, edge_arrow, spec_clamp, spec_edge_arrow, SCREEN_HEIGHT, SCREEN_WIDTH,
};
use crate::vec2::{vnorm, vsub, Vec2};

verus! {

/// What a localizator points at.
#[derive(Clone, Copy, Debug, PartialEq, Eq, Structural)]
pub enum LocalizatorTy {
    Player,
    Police,
    Contract,
}

/// An indicator anchored at a (possibly off-screen) target position.
#[derive(Clone, Copy, Debug, PartialEq, Eq, Structural)]
pub struct Localizator {
    pub at: Vec2,
    pub ty: LocalizatorTy,
}

/// The target clamped into the screen margin: where the arrow is drawn.
pub open spec fn spec_anchor(at: Vec2) -> Vec2 {
    Vec2 {
        x: spec_clamp(at.x as int, (2 * SCALE) as int, (SCREEN_WIDTH - 2 * SCALE) as int) as i64,
        y: spec_clamp(at.y as int, (2 * SCALE) as int, (SCREEN_HEIGHT - 2 * SCALE) as int) as i64,
    }
}

impl Localizator {
    pub fn player(at: Vec2) -> (r: Localizator)
        ensures
            r == (Localizator { at, ty: LocalizatorTy::Player }),
    {
        Localizator { at, ty: LocalizatorTy::Player }
    }

    pub fn police(at: Vec2) -> (r: Localizator)
        ensures
            r == (Localizator { at, ty: LocalizatorTy::Police }),
    {
        Localizator { at, ty: LocalizatorTy::Police }
    }

    pub fn contract(at: Vec2) -> (r: Localizator)
        ensures
            r == (Localizator { at, ty: LocalizatorTy::Contract }),
    {
        Localizator { at, ty: LocalizatorTy::Contract }
    }

    /// The color and segments to draw this frame, alternating with the
    /// blink phase; the player's own indicator hides on the blink beat.
    /// The arrow points from the screen margin towards the target; a target
    /// already inside the margin yields a degenerate (zero-direction)
    /// arrow, which draws as a dot.
    pub fn draw_ex(self, blink: bool) -> (r: Option<(u8, Vec<(Vec2, Vec2)>)>)
        ensures
            self.ty == LocalizatorTy::Player && blink ==> r is None,
            !(self.ty == LocalizatorTy::Player && blink) ==> match r {
                Option::Some(cs) => {
                    &&& cs.0 == (match self.ty {
                        LocalizatorTy::Player => 5u8,
                        LocalizatorTy::Police => if blink {
                            2u8
                        } else {
                            10u8
                        },
                        LocalizatorTy::Contract => if blink {
                            3u8
                        } else {
                            4u8
                        },
                    })
                    &&& cs.1@ == spec_edge_arrow(
                        spec_anchor(self.at),
                        vnorm(vsub(self.at, spec_anchor(self.at))),
                    )
                },
                Option::None => false,
            },
    {
        let color: u8 = match self.ty {
            LocalizatorTy::Player => {
                if blink {
                    return None;
                }
                5
            },
            LocalizatorTy::Police => if blink {
                2
            } else {
                10
            },
            LocalizatorTy::Contract => if blink {
                3
            } else {
                4
            },
        };
        let anchor = Vec2 {
            x: clamp(self.at.x, 2 * SCALE, SCREEN_WIDTH - 2 * SCALE),
            y: clamp(self.at.y, 2 * SCALE, SCREEN_HEIGHT - 2 * SCALE),
        };
        let dir = self.at.sub(anchor).normalize();
        Some((color, edge_arrow(anchor, dir)))
    }
}

} // verus!

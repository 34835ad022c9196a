//! The player's craft and its session flags.

use vstd::prelude::*;

use crate::ship::Ship;
use crate::vec2::Vec2;

verus! {

/// The player: a craft plus spawn/capture bookkeeping.
#[derive(Clone, Copy, Debug, PartialEq, Eq, Structural)]
pub struct Player {
    pub ship: Ship,
    pub is_spawned: bool,
    pub is_just_spawned: bool,
    pub is_caught: bool,
}

impl Player {
    /// The player as the game starts: not yet spawned, drifting gently.
    pub fn init() -> (r: Player)
        ensures
            r == (Player {
                ship: Ship {
                    pos: Vec2 { x: 7730941132800i64, y: 0i64 },
                    vel: Vec2 { x: -0x1_0000_0000i64, y: 0x1_0000_0000i64 },
                },
                is_spawned: false,
                is_just_spawned: false,
                is_caught: false,
            }),
    {
        Player {
            ship: Ship {
                pos: Vec2 { x: 7730941132800, y: 0 },
                vel: Vec2 { x: -0x1_0000_0000, y: 0x1_0000_0000 },
            },
            is_spawned: false,
            is_just_spawned: false,
            is_caught: false,
        }
    }
}

} // verus!

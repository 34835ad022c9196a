//! Proximity detection against the root body: falling into the sun ends
//! the game.

use vstd::prelude::*;

use crate::planet::Planet;
use crate::player::Player;
use crate::vec2::vdist;

verus! {

/// Whether the player's craft lies within the root body's collision
/// radius.  An empty registry kills nobody.
pub fn tic(player: &Player, planets: &Vec<Planet>) -> (r: bool)
    ensures
        r == (planets@.len() > 0 && vdist(planets@[0].pos, player.ship.pos)
            <= planets@[0].radius as int),
{
    if planets.len() == 0 {
        return false;
    }
    planets[0].collides_with(player.ship.pos)
}

} // verus!

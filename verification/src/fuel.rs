//! Refuelling: a craft parked near one of the two station planets fills its
//! tank back up to one unit.

use vstd::prelude::*;

use crate::fixed::{fadd, fix_add, SCALE};
use crate::game::Game;
use crate::planet::Planet;
use crate::ship::Ship;
use crate::vec2::vdist;

verus! {

/// How far from a station planet's surface refuelling still works.
pub const MIN_REFUEL_DISTANCE: i64 = 250 * SCALE;

/// The registry indices of the two refuelling stations.
pub const FIRST_STATION: usize = 7;

pub const SECOND_STATION: usize = 9;

/// The craft is within refuelling range of `planet`.
pub open spec fn spec_in_refuel_range(ship: Ship, planet: Planet) -> bool {
    vdist(ship.pos, planet.pos) < fix_add(planet.radius as int, MIN_REFUEL_DISTANCE as int)
}

/// The craft is parked at one of the stations (a registry too short to hold
/// the stations has none).
pub open spec fn spec_at_station(ship: Ship, ps: Seq<Planet>) -> bool {
    ps.len() > SECOND_STATION as int && (spec_in_refuel_range(ship, ps[FIRST_STATION as int])
        || spec_in_refuel_range(ship, ps[SECOND_STATION as int]))
}

/// Whether the craft is close enough to `planet` to refuel there.
pub fn can_refuel_at(ship: &Ship, planet: &Planet) -> (r: bool)
    ensures
        r == spec_in_refuel_range(*ship, *planet),
{
    ship.pos.distance(planet.pos) < fadd(planet.radius, MIN_REFUEL_DISTANCE)
}

/// One frame of the refuelling rule: a tank below full fills to exactly one
/// unit while the craft sits at a station; nothing else changes, ever.
pub fn tic(game: &mut Game, ship: &Ship, planets: &Vec<Planet>) -> (refuelled: bool)
    ensures
        refuelled == (old(game).fuel < SCALE && spec_at_station(*ship, planets@)),
        refuelled ==> final(game).fuel == SCALE,
        !refuelled ==> final(game).fuel == old(game).fuel,
        final(game).time == old(game).time,
        final(game).speed == old(game).speed,
        final(game).credits == old(game).credits,
        final(game).total_credits == old(game).total_credits,
        final(game).tickets == old(game).tickets,
        final(game).manouver_mode == old(game).manouver_mode,
        final(game).manouver_dv == old(game).manouver_dv,
        final(game).manouver_fuel == old(game).manouver_fuel,
        final(game).contracts@ == old(game).contracts@,
        final(game).cargo_hold@ == old(game).cargo_hold@,
        final(game).selected_contract == old(game).selected_contract,
        final(game).time_of_last_contract_spawned == old(game).time_of_last_contract_spawned,
        final(game).fuel >= old(game).fuel,
{
    if game.fuel >= SCALE {
        return false;
    }
    if planets.len() <= SECOND_STATION {
        return false;
    }
    let near_first = can_refuel_at(ship, &planets[FIRST_STATION]);
    let near_second = can_refuel_at(ship, &planets[SECOND_STATION]);
    if near_first || near_second {
        game.fuel = SCALE;
        return true;
    }
    false
}

} // verus!

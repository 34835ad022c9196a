//! Delivery contracts: cargo, rewards and the distances that gate them.

use vstd::prelude::*;

use crate::fixed::{fix_add, fix_from_int, fix_mul, from_int, fmax, fmin, fmul, SCALE};
use crate::vec2::{vdist, Vec2};
use crate::planet::Planet;

verus! {

/// A craft within this distance of a body counts as arrived (or at risk):
/// the proximity margin of the forecast and of contract acceptance.
pub const MIN_ACCEPT_DISTANCE: i64 = 256 * SCALE;

/// A delivery completes within this distance of the destination body.
pub const MIN_DELIVERY_DISTANCE: i64 = 256 * SCALE;

/// Quiet time between two contract offers.
pub const MIN_DELAY_BETWEEN_NEW_CONTRACTS: i64 = 5000 * SCALE;

/// How many contracts may be on offer at once.
pub const MAX_CONTRACTS: usize = 3;

/// Wanted level gained per unit of reward, before clamping (0.3 / 5).
pub const WANTED_PER_REWARD: i64 = 257698038;

/// Least wanted level a contract can carry (0.1).
pub const WANTED_FLOOR: i64 = 429496730;

/// Most wanted level an ordinary contract can carry (0.33).
pub const WANTED_CEIL: i64 = 1417339208;

/// What a contract ships.
#[derive(Clone, Copy, Debug, PartialEq, Eq, Structural)]
pub enum Cargo {
    Passengers,
    Crabs,
    Bananas,
}

impl Cargo {
    /// Sprite-sheet index of the cargo's icon.
    pub fn sprite(&self) -> (r: u32)
        ensures
            r == (match self {
                Cargo::Passengers => 352u32,
                Cargo::Bananas => 354u32,
                Cargo::Crabs => 356u32,
            }),
    {
        match self {
            Cargo::Passengers => 352,
            Cargo::Bananas => 354,
            Cargo::Crabs => 356,
        }
    }
}

/// One delivery offer between two bodies of the registry.
#[derive(Clone, Copy, Debug, PartialEq, Eq, Structural)]
pub struct Contract {
    pub src_planet: usize,
    pub dst_planet: usize,
    pub cargo: Cargo,
    pub reward: u32,
    pub wanted: i64,
    pub expires_at: i64,
}

impl Contract {
    /// Whether the offer has gone stale at `time`.
    pub fn expired(&self, time: i64) -> (r: bool)
        ensures
            r == (time as int >= self.expires_at as int),
    {
        time >= self.expires_at
    }
}

/// Wanted level earned by an ordinary contract of the given reward:
/// proportional to the reward, clamped between [`WANTED_FLOOR`] and
/// [`WANTED_CEIL`].
pub open spec fn spec_wanted_for_reward(reward: int) -> int {
    let raw = fix_mul(fix_from_int(reward), WANTED_PER_REWARD as int);
    if raw < WANTED_FLOOR as int {
        WANTED_FLOOR as int
    } else if raw > WANTED_CEIL as int {
        WANTED_CEIL as int
    } else {
        raw
    }
}

pub fn wanted_for_reward(reward: u32) -> (r: i64)
    ensures
        r as int == spec_wanted_for_reward(reward as int),
{
    let raw = fmul(from_int(reward as i64), WANTED_PER_REWARD);
    fmin(fmax(raw, WANTED_FLOOR), WANTED_CEIL)
}

/// Whether a craft at `pos` is close enough to `planet` to accept a
/// contract offered there.
pub fn within_accept_range(pos: Vec2, planet: &Planet) -> (r: bool)
    ensures
        r == (vdist(pos, planet.pos) < fix_add(planet.radius as int, MIN_ACCEPT_DISTANCE as int)),
{
    pos.distance(planet.pos) < crate::fixed::fadd(planet.radius, MIN_ACCEPT_DISTANCE)
}

/// Whether a craft at `pos` is close enough to `planet` to complete a
/// delivery there.
pub fn within_delivery_range(pos: Vec2, planet: &Planet) -> (r: bool)
    ensures
        r == (vdist(pos, planet.pos) < fix_add(planet.radius as int, MIN_DELIVERY_DISTANCE as int)),
{
    pos.distance(planet.pos) < crate::fixed::fadd(planet.radius, MIN_DELIVERY_DISTANCE)
}

/// Whether a freshly rolled source/destination pair may become an offer:
/// two distinct orbiting bodies (never the root), and no open offer from the
/// same source.
pub fn candidate_ok(existing: &Vec<Contract>, src: usize, dst: usize, n_planets: usize) -> (r:
    bool)
    ensures
        r == (1 <= src < n_planets && 1 <= dst < n_planets && src != dst && (forall|i: int|
            0 <= i < existing@.len() ==> existing@[i].src_planet != src)),
{
    if !(1 <= src && src < n_planets && 1 <= dst && dst < n_planets && src != dst) {
        return false;
    }
    let n = existing.len();
    let mut i: usize = 0;
    while i < n
        invariant
            i <= n,
            n == existing@.len(),
            forall|j: int| 0 <= j < i ==> existing@[j].src_planet != src,
            1 <= src < n_planets,
            1 <= dst < n_planets,
            src != dst,
        decreases n - i,
    {
        if existing[i].src_planet == src {
            return false;
        }
        i += 1;
    }
    true
}

} // verus!

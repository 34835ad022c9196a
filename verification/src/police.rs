//! The police: wanted level, patrol vehicles and their steering.
//!
//! Everything random about the police (dispatch timing, spawn positions,
//! escape directions) is drawn outside and handed in as plain values; the
//! rules themselves are deterministic.

use vstd::prelude::*;

use crate::fixed::{fadd, fdiv, fix_add, fix_div, fix_sub, fmin, fsub, SCALE};
use crate::ship::Ship;
use crate::utils::{fix_remap, remap};
use crate::vec2::{vadd, vdist, vlen, vnorm, vscale, vsub, Vec2};

verus! {

/// Patrol speed right after the game starts (0.2).
pub const STARTING_POLICE_SPEED: i64 = 858993459;

/// Patrol speed the police ramp up to (0.75).
pub const MAX_POLICE_SPEED: i64 = 3221225472;

/// When the ramp-up ends.
pub const MAX_SPEED_TIME: i64 = 60000 * SCALE;

/// Wanted level lost per deduction beat (0.03).
pub const WANTED_DECAY: i64 = 128849019;

/// How close a patrol must come to catch the player.
pub const POLICE_COLLISION_DISTANCE: i64 = 90 * SCALE;

/// What a patrol vehicle is currently doing.
#[derive(Clone, Copy, Debug, PartialEq, Eq, Structural)]
pub enum PoliceVehicleBehavior {
    InPursuit,
    Escaping { dir: Vec2 },
}

impl PoliceVehicleBehavior {
    /// A vehicle giving up the chase, heading out along the given
    /// (externally drawn) direction, normalized.
    pub fn escaping(dir: Vec2) -> (r: PoliceVehicleBehavior)
        ensures
            r == (PoliceVehicleBehavior::Escaping { dir: vnorm(dir) }),
    {
        PoliceVehicleBehavior::Escaping { dir: dir.normalize() }
    }
}

/// One patrol vehicle.
#[derive(Clone, Copy, Debug, PartialEq, Eq, Structural)]
pub struct PoliceVehicle {
    pub pos: Vec2,
    pub behavior: PoliceVehicleBehavior,
}

impl PoliceVehicle {
    /// A fresh patrol at an externally drawn spawn position, already in
    /// pursuit.
    pub fn rand(x: i64, y: i64) -> (r: PoliceVehicle)
        ensures
            r == (PoliceVehicle {
                pos: Vec2 { x, y },
                behavior: PoliceVehicleBehavior::InPursuit,
            }),
    {
        PoliceVehicle { pos: Vec2 { x, y }, behavior: PoliceVehicleBehavior::InPursuit }
    }

    /// Whether this patrol has caught the player's craft.
    pub fn collides_with(&self, player: &Ship) -> (r: bool)
        ensures
            r == (vdist(self.pos, player.pos) <= POLICE_COLLISION_DISTANCE as int),
    {
        self.pos.distance(player.pos) <= POLICE_COLLISION_DISTANCE
    }
}

/// The pursuit/wanted-level state.
#[derive(Debug)]
pub struct PoliceState {
    pub wanted: i64,
    pub dispatch_at: i64,
    pub deducation_at: i64,
    pub vehicles: Vec<PoliceVehicle>,
}

impl PoliceState {
    /// No heat, nothing scheduled, no patrols.
    pub fn init() -> (r: PoliceState)
        ensures
            r.wanted == 0,
            r.dispatch_at == 0,
            r.deducation_at == 0,
            r.vehicles@ == Seq::<PoliceVehicle>::empty(),
    {
        PoliceState { wanted: 0, dispatch_at: 0, deducation_at: 0, vehicles: Vec::new() }
    }

    pub fn wanted(&self) -> (r: i64)
        ensures
            r == self.wanted,
    {
        self.wanted
    }

    /// Accepting a shady contract raises the heat, saturating at one.
    pub fn increment_wanted_level(&mut self, t: i64)
        ensures
            final(self).wanted as int == if fix_add(old(self).wanted as int, t as int) <= SCALE as int {
                fix_add(old(self).wanted as int, t as int)
            } else {
                SCALE as int
            },
            final(self).dispatch_at == old(self).dispatch_at,
            final(self).deducation_at == old(self).deducation_at,
            final(self).vehicles@ == old(self).vehicles@,
    {
        self.wanted = fmin(fadd(self.wanted, t), SCALE);
    }

    /// One deduction beat: the heat cools by [`WANTED_DECAY`], never below
    /// zero.
    pub fn decay_wanted(&mut self)
        ensures
            final(self).wanted as int == if fix_sub(old(self).wanted as int, WANTED_DECAY as int)
                >= 0 {
                fix_sub(old(self).wanted as int, WANTED_DECAY as int)
            } else {
                0
            },
            final(self).wanted <= old(self).wanted || old(self).wanted < 0,
            final(self).dispatch_at == old(self).dispatch_at,
            final(self).deducation_at == old(self).deducation_at,
            final(self).vehicles@ == old(self).vehicles@,
    {
        let dropped = fsub(self.wanted, WANTED_DECAY);
        self.wanted = if dropped >= 0 {
            dropped
        } else {
            0
        };
    }
}

/// How many patrols may pursue at once: five scaled by the wanted level,
/// rounded up.
pub fn max_vehicles_in_pursuit(wanted: i64) -> (r: usize)
    requires
        0 <= wanted <= SCALE,
    ensures
        r as int == (5 * wanted as int + SCALE as int - 1) / (SCALE as int),
{
    (((5 * (wanted as u64)) + (SCALE as u64) - 1) / (SCALE as u64)) as usize
}

/// The patrol speed at `time`: ramps linearly from the starting speed to
/// the cap, reached at [`MAX_SPEED_TIME`].
pub fn police_speed(time: i64) -> (r: i64)
    ensures
        r as int == if time as int > MAX_SPEED_TIME as int {
            MAX_POLICE_SPEED as int
        } else {
            fix_remap(
                time as int,
                0,
                MAX_SPEED_TIME as int,
                STARTING_POLICE_SPEED as int,
                MAX_POLICE_SPEED as int,
            )
        },
{
    if time > MAX_SPEED_TIME {
        MAX_POLICE_SPEED
    } else {
        remap(time, 0, MAX_SPEED_TIME, STARTING_POLICE_SPEED, MAX_POLICE_SPEED)
    }
}

/// Where a pursuing patrol steers: at the player's predicted position,
/// extrapolated by the time the patrol would need to close the current
/// distance at the player's own speed.
pub open spec fn spec_pursuit_dir(vehicle_pos: Vec2, player: Ship) -> Vec2 {
    let to_player = vsub(player.pos, vehicle_pos);
    let time_to_impact = fix_div(vlen(to_player), vlen(player.vel));
    let predicted = vadd(player.pos, vscale(player.vel, time_to_impact));
    vnorm(vsub(predicted, vehicle_pos))
}

pub fn pursuit_dir(vehicle_pos: Vec2, player: &Ship) -> (r: Vec2)
    ensures
        r == spec_pursuit_dir(vehicle_pos, *player),
{
    let to_player = player.pos.sub(vehicle_pos);
    let time_to_impact = fdiv(to_player.length(), player.vel.length());
    let predicted = player.pos.add(player.vel.scale(time_to_impact));
    predicted.sub(vehicle_pos).normalize()
}

/// An escaping patrol this far out of the playfield is despawned.
pub const DESPAWN_DISTANCE: i64 = 50000 * SCALE;

/// Whether an escaping patrol has left the playfield for good.
pub fn out_of_bounds(v: &PoliceVehicle) -> (r: bool)
    ensures
        r == (v.behavior is Escaping && (v.pos.x < -DESPAWN_DISTANCE || v.pos.y
            < -DESPAWN_DISTANCE || v.pos.x > DESPAWN_DISTANCE || v.pos.y > DESPAWN_DISTANCE)),
{
    match v.behavior {
        PoliceVehicleBehavior::Escaping { .. } => v.pos.x < -DESPAWN_DISTANCE || v.pos.y
            < -DESPAWN_DISTANCE || v.pos.x > DESPAWN_DISTANCE || v.pos.y > DESPAWN_DISTANCE,
        PoliceVehicleBehavior::InPursuit => false,
    }
}

} // verus!

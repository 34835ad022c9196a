//! The top-level game state: simulation clock, speed, fuel and economy.
//!
//! The clock is an absolute scalar advanced by a fixed delta once per
//! simulation step; how many steps a frame performs (0, 1 or 2) is decided
//! by the discrete speed setting, never by wall-clock time.

use vstd::prelude::*;

use crate::contracts::Contract;
use crate::fixed::SCALE;
use crate::vec2::Vec2;

verus! {

/// Length of one in-game day, in simulation time.
pub const DAY_LENGTH: i64 = 250 * SCALE;

/// How many cargo items the ship can hold.
pub const CARGO_HOLD_SIZE: usize = 3;

/// The discrete game-speed setting.
#[derive(Clone, Copy, Debug, PartialEq, Eq, Structural)]
pub enum GameSpeed {
    Stop,
    Normal,
    Fast,
}

/// How many fixed steps a frame performs at each speed setting.
pub open spec fn speed_steps(s: GameSpeed) -> nat {
    match s {
        GameSpeed::Stop => 0,
        GameSpeed::Normal => 1,
        GameSpeed::Fast => 2,
    }
}

impl GameSpeed {
    /// The time multiplier of the setting, as a scalar.
    pub fn to_speed(&self) -> (r: i64)
        ensures
            r as int == (match self {
                GameSpeed::Stop => 0,
                GameSpeed::Normal => SCALE as int,
                GameSpeed::Fast => 2 * (SCALE as int),
            }),
    {
        match self {
            GameSpeed::Stop => 0,
            GameSpeed::Normal => SCALE,
            GameSpeed::Fast => 2 * SCALE,
        }
    }

    /// How many fixed simulation steps one frame performs at this setting.
    pub fn steps(&self) -> (r: u32)
        ensures
            r == (match self {
                GameSpeed::Stop => 0u32,
                GameSpeed::Normal => 1u32,
                GameSpeed::Fast => 2u32,
            }),
    {
        match self {
            GameSpeed::Stop => 0,
            GameSpeed::Normal => 1,
            GameSpeed::Fast => 2,
        }
    }
}

/// The whole mutable game state, owned by the per-frame update and passed
/// explicitly into each subsystem call (no ambient globals).
#[derive(Clone, Debug)]
pub struct Game {
    pub time: i64,
    pub speed: GameSpeed,
    pub fuel: i64,
    pub credits: u32,
    pub total_credits: u32,
    pub tickets: u32,
    pub manouver_mode: bool,
    pub manouver_dv: Vec2,
    pub manouver_fuel: i64,
    pub contracts: Vec<Contract>,
    pub cargo_hold: Vec<Option<Contract>>,
    pub selected_contract: Option<usize>,
    pub time_of_last_contract_spawned: i64,
}

/// The clock never runs backwards past zero and the tank holds at most one
/// unit of fuel.
pub open spec fn wf_game(g: Game) -> bool {
    &&& 0 <= g.time
    &&& 0 <= g.fuel <= SCALE
    &&& g.cargo_hold.len() == CARGO_HOLD_SIZE
}

impl Game {
    /// The state a new game starts from: clock at zero, paused, full tank.
    pub fn init() -> (r: Game)
        ensures
            r.time == 0,
            r.speed == GameSpeed::Stop,
            r.fuel == SCALE,
            r.credits == 10u32,
            r.total_credits == 10u32,
            r.tickets == 0u32,
            r.manouver_mode == false,
            r.manouver_dv == (Vec2 { x: 0i64, y: 0i64 }),
            r.manouver_fuel == 0,
            r.contracts@ == Seq::<Contract>::empty(),
            r.cargo_hold@.len() == CARGO_HOLD_SIZE,
            forall|i: int| 0 <= i < CARGO_HOLD_SIZE ==> r.cargo_hold@[i] is None,
            r.selected_contract is None,
            r.time_of_last_contract_spawned == 0,
            wf_game(r),
    {
        let mut cargo_hold: Vec<Option<Contract>> = Vec::new();
        cargo_hold.push(None);
        cargo_hold.push(None);
        cargo_hold.push(None);
        Game {
            time: 0,
            speed: GameSpeed::Stop,
            fuel: SCALE,
            credits: 10,
            total_credits: 10,
            tickets: 0,
            manouver_mode: false,
            manouver_dv: Vec2 { x: 0, y: 0 },
            manouver_fuel: 0,
            contracts: Vec::new(),
            cargo_hold,
            selected_contract: None,
            time_of_last_contract_spawned: 0,
        }
    }

    /// The absolute simulation time.
    pub fn time(&self) -> (r: i64)
        ensures
            r == self.time,
    {
        self.time
    }

    /// The in-game day the clock has reached.
    pub fn day(&self) -> (r: u32)
        requires
            self.time >= 0,
        ensures
            r as int == (self.time as int) / (DAY_LENGTH as int),
    {
        proof {
            vstd::arithmetic::div_mod::lemma_div_is_ordered(
                self.time as int,
                0x7fff_ffff_ffff_ffff,
                DAY_LENGTH as int,
            );
        }
        ((self.time as u64) / (DAY_LENGTH as u64)) as u32
    }

    /// Fuel in the tank, one unit ([`SCALE`]) being a full tank.
    pub fn fuel(&self) -> (r: i64)
        ensures
            r == self.fuel,
    {
        self.fuel
    }

    /// Fuel as a whole-number percentage.
    pub fn ufuel(&self) -> (r: u32)
        requires
            0 <= self.fuel <= SCALE,
        ensures
            r as int == (self.fuel as int * 100) / (SCALE as int),
    {
        proof {
            vstd::arithmetic::div_mod::lemma_div_is_ordered(
                self.fuel as int * 100,
                (SCALE as int) * 100,
                SCALE as int,
            );
        }
        ((self.fuel as u64) * 100 / (SCALE as u64)) as u32
    }

    pub fn tickets(&self) -> (r: u32)
        ensures
            r == self.tickets,
    {
        self.tickets
    }

    /// Whether the simulation is paused (the speed setting is `Stop`).
    pub fn is_paused(&self) -> (r: bool)
        ensures
            r == (self.speed == GameSpeed::Stop),
    {
        self.speed == GameSpeed::Stop
    }

    /// How many fixed steps the current frame should advance the real state.
    pub fn steps(&self) -> (r: u32)
        ensures
            r == (match self.speed {
                GameSpeed::Stop => 0u32,
                GameSpeed::Normal => 1u32,
                GameSpeed::Fast => 2u32,
            }),
    {
        self.speed.steps()
    }
}

} // verus!

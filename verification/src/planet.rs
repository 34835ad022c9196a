//! One gravitating body.

use vstd::prelude::*;

use crate::vec2::{vdist, Vec2};

verus! {

/// A gravitating body.  `pos` is derived: the registry recomputes it from
/// the orbital parameters at every evaluation, it is never integrated.
/// `orbit_speed` holds the orbital period, derived once at registry
/// construction; `orbit_phase` is the angular offset at time zero, in turns.
/// `parent` is a backward index into the registry (`None` orbits the
/// coordinate origin).
#[derive(Clone, Copy, Debug, PartialEq, Eq, Structural)]
pub struct Planet {
    pub pos: Vec2,
    pub orbit_radius: i64,
    pub orbit_speed: i64,
    pub orbit_phase: i64,
    pub radius: i64,
    pub mass: i64,
    pub color: u8,
    pub parent: Option<usize>,
}

impl Planet {
    /// A still body at the origin with every parameter zeroed.
    pub fn base() -> (r: Planet)
        ensures
            r == (Planet {
                pos: Vec2 { x: 0i64, y: 0i64 },
                orbit_radius: 0i64,
                orbit_speed: 0i64,
                orbit_phase: 0i64,
                radius: 0i64,
                mass: 0i64,
                color: 0u8,
                parent: Option::<usize>::None,
            }),
    {
        Planet {
            pos: Vec2 { x: 0, y: 0 },
            orbit_radius: 0,
            orbit_speed: 0,
            orbit_phase: 0,
            radius: 0,
            mass: 0,
            color: 0,
            parent: None,
        }
    }

    /// A body given in full, except that the orbital period is derived
    /// later, when the registry is built.
    pub fn planet(x: i64, y: i64, orbit_radius: i64, orbit_phase: i64, radius: i64, mass: i64, color:
        u8) -> (r: Planet)
        ensures
            r == (Planet {
                pos: Vec2 { x, y },
                orbit_radius,
                orbit_speed: 0i64,
                orbit_phase,
                radius,
                mass,
                color,
                parent: Option::<usize>::None,
            }),
    {
        Planet {
            pos: Vec2 { x, y },
            orbit_radius,
            orbit_speed: 0,
            orbit_phase,
            radius,
            mass,
            color,
            parent: None,
        }
    }

    pub fn with_pos(self, x: i64, y: i64) -> (r: Planet)
        ensures
            r == (Planet { pos: Vec2 { x, y }, ..self }),
    {
        Planet { pos: Vec2 { x, y }, ..self }
    }

    /// Sets the orbit's radius and its angular offset at time zero (in
    /// turns); the period is derived later, when the registry is built.
    pub fn with_orbit(self, radius: i64, phase: i64) -> (r: Planet)
        ensures
            r == (Planet { orbit_radius: radius, orbit_phase: phase, ..self }),
    {
        Planet { orbit_radius: radius, orbit_phase: phase, ..self }
    }

    pub fn with_mass(self, mass: i64) -> (r: Planet)
        ensures
            r == (Planet { mass, ..self }),
    {
        Planet { mass, ..self }
    }

    pub fn with_radius(self, radius: i64) -> (r: Planet)
        ensures
            r == (Planet { radius, ..self }),
    {
        Planet { radius, ..self }
    }

    pub fn with_color(self, color: u8) -> (r: Planet)
        ensures
            r == (Planet { color, ..self }),
    {
        Planet { color, ..self }
    }

    /// Marks this body as orbiting the body at `parent` instead of the
    /// coordinate origin.
    pub fn moon_of(self, parent: usize) -> (r: Planet)
        ensures
            r == (Planet { parent: Option::Some(parent), ..self }),
    {
        Planet { parent: Some(parent), ..self }
    }

    /// Whether a point lies within this body's collision radius.
    pub fn collides_with(&self, pos: Vec2) -> (r: bool)
        ensures
            r == (vdist(self.pos, pos) <= self.radius as int),
    {
        self.pos.distance(pos) <= self.radius
    }
}

} // verus!

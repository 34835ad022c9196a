//! The body registry: orbital parameters, derived periods, and the pure
//! mapping from absolute simulation time to every body's position.
//!
//! The registry is ordered so that a body's `parent` index only ever points
//! at an earlier entry; construction validates this (and the degenerate
//! zero-radius orbit) and fails fast, so position evaluation needs no
//! runtime check.

use vstd::prelude::*;

use crate::fixed::{
    fadd, fdiv, fix_add, fix_div, fix_mul, fix_sqrt, fmul, fsqrt, lemma_fix_div_nonneg,
    lemma_fix_mul_nonneg, SCALE,
};
use crate::planet::Planet;
use crate::trig::{cos_spec, cos_turns, sin_spec, sin_turns};
use crate::vec2::{vadd, Vec2};

verus! {

/// Folds the gravitational constant and the gameplay pacing scalar of the
/// Keplerian relation `period = k * 2pi * sqrt(r^3 / (G * M))` into a single
/// factor, so that `period = ORBITAL_PERIOD_FACTOR * r * sqrt(r / M)`.
/// The value is a tuning constant, internally consistent rather than
/// physically exact.
pub const ORBITAL_PERIOD_FACTOR: i64 = 3303215196;

/// The orbital period of a body circling a central mass at `radius`.
pub open spec fn spec_orbital_period(central_mass: int, radius: int) -> int {
    fix_mul(
        ORBITAL_PERIOD_FACTOR as int,
        fix_mul(radius, fix_sqrt(fix_div(radius, central_mass))),
    )
}

pub fn orbital_period(central_mass: i64, radius: i64) -> (r: i64)
    ensures
        r as int == spec_orbital_period(central_mass as int, radius as int),
{
    fmul(ORBITAL_PERIOD_FACTOR, fmul(radius, fsqrt(fdiv(radius, central_mass))))
}

pub proof fn lemma_orbital_period_nonneg(central_mass: int, radius: int)
    requires
        0 <= central_mass,
        0 <= radius,
    ensures
        0 <= spec_orbital_period(central_mass, radius),
{
    lemma_fix_div_nonneg(radius, central_mass);
    crate::fixed::lemma_fix_sqrt_nonneg(fix_div(radius, central_mass));
    lemma_fix_mul_nonneg(radius, fix_sqrt(fix_div(radius, central_mass)));
    lemma_fix_mul_nonneg(
        ORBITAL_PERIOD_FACTOR as int,
        fix_mul(radius, fix_sqrt(fix_div(radius, central_mass))),
    );
}

/// A single registry entry is well formed: parameters are non-negative and
/// a parented body sits strictly later than its parent, on a non-degenerate
/// orbit.
pub open spec fn wf_planet_at(ps: Seq<Planet>, i: int) -> bool {
    &&& 0 <= ps[i].orbit_radius
    &&& 0 <= ps[i].orbit_speed
    &&& 0 <= ps[i].orbit_phase
    &&& 0 <= ps[i].radius
    &&& 0 <= ps[i].mass
    &&& match ps[i].parent {
        Option::Some(p) => (p as int) < i && ps[i].orbit_radius > 0,
        Option::None => true,
    }
}

/// The whole registry is well formed.
pub open spec fn wf_planets(ps: Seq<Planet>) -> bool {
    forall|i: int| 0 <= i < ps.len() ==> wf_planet_at(ps, i)
}

/// `p` with its position replaced.
pub open spec fn with_position(p: Planet, pos: Vec2) -> Planet {
    Planet {
        pos,
        orbit_radius: p.orbit_radius,
        orbit_speed: p.orbit_speed,
        orbit_phase: p.orbit_phase,
        radius: p.radius,
        mass: p.mass,
        color: p.color,
        parent: p.parent,
    }
}

/// `p` with its orbital period replaced.
pub open spec fn with_period(p: Planet, orbit_speed: i64) -> Planet {
    Planet {
        pos: p.pos,
        orbit_radius: p.orbit_radius,
        orbit_speed,
        orbit_phase: p.orbit_phase,
        radius: p.radius,
        mass: p.mass,
        color: p.color,
        parent: p.parent,
    }
}

/// The position of body `i` at `time`: a pure function of the orbital
/// parameters alone.  The orbit angle, in turns, is `time / period + phase`;
/// a parented body adds its offset to the parent's position.
pub open spec fn spec_pos(time: int, ps: Seq<Planet>, i: int) -> Vec2
    decreases i,
{
    let p = ps[i];
    let parent_pos = match p.parent {
        Option::Some(par) => if (par as int) < i {
            spec_pos(time, ps, par as int)
        } else {
            Vec2 { x: 0i64, y: 0i64 }
        },
        Option::None => Vec2 { x: 0i64, y: 0i64 },
    };
    let ang = fix_add(fix_div(time, p.orbit_speed as int), p.orbit_phase as int);
    let off = Vec2 {
        x: fix_mul(cos_spec(ang), p.orbit_radius as int) as i64,
        y: fix_mul(sin_spec(ang), p.orbit_radius as int) as i64,
    };
    vadd(parent_pos, off)
}

/// The position of body `i` at `time`, independent of the stored (stale)
/// positions: bodies are purely kinematic.
pub fn position_at(time: i64, planets: &Vec<Planet>, i: usize) -> (r: Vec2)
    requires
        time >= 0,
        wf_planets(planets@),
        i < planets@.len(),
    ensures
        r == spec_pos(time as int, planets@, i as int),
    decreases i,
{
    let p = planets[i];
    proof {
        assert(wf_planet_at(planets@, i as int));
    }
    let parent_pos = match p.parent {
        Some(par) => position_at(time, planets, par),
        None => Vec2 { x: 0, y: 0 },
    };
    proof {
        lemma_fix_div_nonneg(time as int, p.orbit_speed as int);
    }
    let ang = fadd(fdiv(time, p.orbit_speed), p.orbit_phase);
    let off = Vec2 { x: fmul(cos_turns(ang), p.orbit_radius), y: fmul(sin_turns(ang), p.orbit_radius) };
    parent_pos.add(off)
}

/// Recompute every body's position for `time`.  Only positions change; the
/// orbital parameters, and so well-formedness, are untouched.
pub fn update_positions(time: i64, planets: &mut Vec<Planet>)
    requires
        time >= 0,
        wf_planets(old(planets)@),
    ensures
        final(planets)@.len() == old(planets)@.len(),
        forall|i: int|
            0 <= i < old(planets)@.len() ==> final(planets)@[i] == with_position(
                old(planets)@[i],
                spec_pos(time as int, old(planets)@, i),
            ),
        wf_planets(final(planets)@),
{
    let n = planets.len();
    let mut positions: Vec<Vec2> = Vec::new();
    let mut i: usize = 0;
    while i < n
        invariant
            i <= n,
            n == planets@.len(),
            time >= 0,
            wf_planets(planets@),
            positions@.len() == i as int,
            forall|j: int| 0 <= j < i as int ==> positions@[j] == spec_pos(time as int, planets@, j),
        decreases n - i,
    {
        let pos = position_at(time, planets, i);
        positions.push(pos);
        i += 1;
    }
    let ghost orig = planets@;
    let mut i: usize = 0;
    while i < n
        invariant
            i <= n,
            n == orig.len(),
            planets@.len() == orig.len(),
            positions@.len() == orig.len(),
            forall|j: int| 0 <= j < orig.len() ==> positions@[j] == spec_pos(time as int, orig, j),
            forall|j: int|
                0 <= j < i as int ==> planets@[j] == with_position(orig[j], positions@[j]),
            forall|j: int| i as int <= j < orig.len() ==> planets@[j] == orig[j],
        decreases n - i,
    {
        let p = planets[i];
        let pos = positions[i];
        planets.set(
            i,
            Planet {
                pos,
                orbit_radius: p.orbit_radius,
                orbit_speed: p.orbit_speed,
                orbit_phase: p.orbit_phase,
                radius: p.radius,
                mass: p.mass,
                color: p.color,
                parent: p.parent,
            },
        );
        i += 1;
    }
    proof {
        assert forall|j: int| 0 <= j < orig.len() implies wf_planet_at(planets@, j) by {
            assert(wf_planet_at(orig, j));
        }
    }
}

/// Why a registry could not be built.
#[derive(Clone, Copy, Debug, PartialEq, Eq, Structural)]
pub enum RegistryError {
    /// A parameter of the body at `index` is negative.
    NegativeParameter { index: usize },
    /// The body at `index` names itself or a later body as its parent.
    ForwardParent { index: usize },
    /// The body at `index` has a parent but a zero orbit radius, which
    /// would make its period degenerate.
    DegenerateOrbit { index: usize },
}

/// The registry accepts the body at `i` as given.
pub open spec fn valid_input_at(ps: Seq<Planet>, i: int) -> bool {
    &&& 0 <= ps[i].orbit_radius
    &&& 0 <= ps[i].orbit_speed
    &&& 0 <= ps[i].orbit_phase
    &&& 0 <= ps[i].radius
    &&& 0 <= ps[i].mass
    &&& match ps[i].parent {
        Option::Some(p) => (p as int) < i && ps[i].orbit_radius > 0,
        Option::None => true,
    }
}

/// The error construction reports for the body at `i`, when `i` is the
/// first invalid entry.
pub open spec fn spec_validation_error(ps: Seq<Planet>, i: int) -> RegistryError {
    if !(0 <= ps[i].orbit_radius && 0 <= ps[i].orbit_speed && 0 <= ps[i].orbit_phase && 0
        <= ps[i].radius && 0 <= ps[i].mass) {
        RegistryError::NegativeParameter { index: i as usize }
    } else if (match ps[i].parent {
        Option::Some(p) => i <= p as int,
        Option::None => false,
    }) {
        RegistryError::ForwardParent { index: i as usize }
    } else {
        RegistryError::DegenerateOrbit { index: i as usize }
    }
}

/// The registry index a construction error points at.
pub open spec fn spec_error_index(e: RegistryError) -> int {
    match e {
        RegistryError::NegativeParameter { index } => index as int,
        RegistryError::ForwardParent { index } => index as int,
        RegistryError::DegenerateOrbit { index } => index as int,
    }
}

/// Construction failed at body `i`: it is the first invalid entry and `e`
/// is its error.
pub open spec fn fails_at(ps: Seq<Planet>, e: RegistryError, i: int) -> bool {
    &&& 0 <= i < ps.len()
    &&& !valid_input_at(ps, i)
    &&& (forall|j: int| 0 <= j < i ==> valid_input_at(ps, j))
    &&& e == spec_validation_error(ps, i)
}

/// The mass a body's period is derived from: its parent's, or the root's.
pub open spec fn spec_parent_mass(ps: Seq<Planet>, i: int) -> int {
    match ps[i].parent {
        Option::Some(p) => ps[p as int].mass as int,
        Option::None => ps[0].mass as int,
    }
}

/// The input bodies with their orbital periods derived (the root keeps
/// whatever it was given).
pub open spec fn with_periods(ps: Seq<Planet>) -> Seq<Planet> {
    Seq::new(
        ps.len(),
        |i: int|
            if i == 0 {
                ps[0]
            } else {
                with_period(
                    ps[i],
                    spec_orbital_period(spec_parent_mass(ps, i), ps[i].orbit_radius as int) as i64,
                )
            },
    )
}

/// What a successful construction returns: periods derived, then every
/// position evaluated at time zero.
pub open spec fn spec_registry(ps: Seq<Planet>) -> Seq<Planet> {
    let wp = with_periods(ps);
    Seq::new(wp.len(), |i: int| with_position(wp[i], spec_pos(0, wp, i)))
}

/// An element-for-element copy, so that the forecaster (and construction)
/// can work on a throwaway clone of the registry.
pub fn copy_planets(src: &Vec<Planet>) -> (r: Vec<Planet>)
    ensures
        r@ == src@,
{
    let n = src.len();
    let mut r: Vec<Planet> = Vec::new();
    let mut i: usize = 0;
    while i < n
        invariant
            i <= n,
            n == src@.len(),
            r@ == src@.subrange(0, i as int),
        decreases n - i,
    {
        r.push(src[i]);
        proof {
            assert(r@ =~= src@.subrange(0, i as int + 1));
        }
        i += 1;
    }
    proof {
        assert(r@ =~= src@);
    }
    r
}

/// Build the registry: validate every body, derive the orbital periods from
/// the Keplerian relation, and evaluate the initial positions.  Fails fast
/// on the first invalid body, leaving nothing half-built.
pub fn init(planets: &Vec<Planet>) -> (r: Result<Vec<Planet>, RegistryError>)
    ensures
        match r {
            Result::Ok(out) => {
                &&& forall|i: int| 0 <= i < planets@.len() ==> valid_input_at(planets@, i)
                &&& out@ == spec_registry(planets@)
                &&& wf_planets(out@)
                &&& out@.len() == planets@.len()
            },
            Result::Err(e) => fails_at(planets@, e, spec_error_index(e)),
        },
{
    let ghost input = planets@;
    let n = planets.len();

    // Validation: fail fast on the first invalid body.
    let mut i: usize = 0;
    while i < n
        invariant
            i <= n,
            n == planets@.len(),
            planets@ == input,
            forall|j: int| 0 <= j < i as int ==> valid_input_at(input, j),
        decreases n - i,
    {
        let p = planets[i];
        proof {
            assert(input[i as int] == p);
        }
        if !(p.orbit_radius >= 0 && p.orbit_speed >= 0 && p.orbit_phase >= 0 && p.radius >= 0
            && p.mass >= 0) {
            proof {
                assert(fails_at(input, RegistryError::NegativeParameter { index: i }, i as int));
            }
            return Err(RegistryError::NegativeParameter { index: i });
        }
        match p.parent {
            Some(par) => {
                if par >= i {
                    proof {
                        assert(fails_at(input, RegistryError::ForwardParent { index: i }, i as int));
                    }
                    return Err(RegistryError::ForwardParent { index: i });
                }
                if p.orbit_radius == 0 {
                    proof {
                        assert(fails_at(input, RegistryError::DegenerateOrbit { index: i }, i as int));
                    }
                    return Err(RegistryError::DegenerateOrbit { index: i });
                }
            },
            None => {},
        }
        i += 1;
    }
    let mut out = copy_planets(planets);
    if n == 0 {
        proof {
            assert(out@ =~= spec_registry(input));
        }
        return Ok(out);
    }

    // Derive the orbital periods; the root keeps its own.
    let root_mass = out[0].mass;
    let mut i: usize = 1;
    proof {
        assert(with_periods(input)[0] == input[0]);
    }
    while i < n
        invariant
            1 <= i <= n,
            n == out@.len(),
            n == input.len(),
            root_mass == input[0].mass,
            forall|j: int| 0 <= j < input.len() ==> valid_input_at(input, j),
            forall|j: int| 0 <= j < i as int ==> out@[j] == with_periods(input)[j],
            forall|j: int| i as int <= j < input.len() ==> out@[j] == input[j],
        decreases n - i,
    {
        let p = out[i];
        proof {
            assert(valid_input_at(input, i as int));
            assert(p == input[i as int]);
        }
        let central_mass = match p.parent {
            Some(par) => {
                proof {
                    assert(out@[par as int] == with_periods(input)[par as int]);
                    assert(with_periods(input)[par as int].mass == input[par as int].mass);
                }
                out[par].mass
            },
            None => root_mass,
        };
        proof {
            assert(central_mass as int == spec_parent_mass(input, i as int));
        }
        let speed = orbital_period(central_mass, p.orbit_radius);
        out.set(
            i,
            Planet {
                pos: p.pos,
                orbit_radius: p.orbit_radius,
                orbit_speed: speed,
                orbit_phase: p.orbit_phase,
                radius: p.radius,
                mass: p.mass,
                color: p.color,
                parent: p.parent,
            },
        );
        proof {
            assert(with_periods(input)[i as int] == with_period(
                input[i as int],
                spec_orbital_period(
                    spec_parent_mass(input, i as int),
                    input[i as int].orbit_radius as int,
                ) as i64,
            ));
            assert(out@[i as int] == with_periods(input)[i as int]);
        }
        i += 1;
    }
    proof {
        assert(out@ =~= with_periods(input));
        assert forall|j: int| 0 <= j < out@.len() implies wf_planet_at(out@, j) by {
            assert(valid_input_at(input, j));
            if j > 0 {
                match input[j].parent {
                    Option::Some(p) => {
                        assert(valid_input_at(input, p as int));
                    },
                    Option::None => {
                        assert(valid_input_at(input, 0));
                    },
                }
                lemma_orbital_period_nonneg(
                    spec_parent_mass(input, j),
                    input[j].orbit_radius as int,
                );
            }
        }
    }

    // Evaluate every position at time zero.
    update_positions(0, &mut out);
    proof {
        assert(out@ =~= spec_registry(input));
    }
    Ok(out)
}

/// The gamma galaxy: the game's body registry, to be passed through
/// [`init`].  A heavy root star, a belt of small planets, two heavy outer
/// planets each with a moon.
pub fn gamma() -> (r: Vec<Planet>)
    ensures
        r@.len() == 11,
        forall|i: int| 0 <= i < r@.len() ==> valid_input_at(r@, i),
        r@[0].mass == 10 * SCALE,
        r@[0].orbit_radius == 0,
        r@[0].parent is None,
        r@[1].orbit_radius == 1500 * SCALE,
        r@[1].orbit_phase == 0,
        r@[7].mass == 4 * SCALE,
        r@[8].parent == Option::Some(7usize),
        r@[9].radius == 120 * SCALE,
        r@[10].parent == Option::Some(9usize),
{
    let mut r: Vec<Planet> = Vec::new();
    r.push(
        Planet::base().with_radius(500 * SCALE).with_orbit(0, 0).with_mass(10 * SCALE).with_color(
            4,
        ),
    );
    r.push(
        Planet::base().with_radius(20 * SCALE).with_mass(429496730).with_orbit(
            1500 * SCALE,
            0,
        ).with_color(3),
    );
    r.push(
        Planet::base().with_radius(28 * SCALE).with_mass(429496730).with_orbit(
            2500 * SCALE,
            0,
        ).with_color(11),
    );
    r.push(
        Planet::base().with_radius(35 * SCALE).with_mass(515396076).with_orbit(
            2800 * SCALE,
            1367130551,
        ).with_color(10),
    );
    r.push(
        Planet::base().with_radius(40 * SCALE).with_mass(687194767).with_orbit(
            2800 * SCALE,
            2734261102,
        ).with_color(9),
    );
    r.push(
        Planet::base().with_radius(35 * SCALE).with_mass(515396076).with_orbit(
            3000 * SCALE,
            4101391653,
        ).with_color(8),
    );
    r.push(
        Planet::base().with_radius(100 * SCALE).with_mass(SCALE).with_orbit(
            5000 * SCALE,
            1173554909,
        ).with_color(2),
    );
    r.push(
        Planet::base().with_radius(100 * SCALE).with_mass(4 * SCALE).with_orbit(
            10000 * SCALE,
            2540685460,
        ).with_color(5),
    );
    r.push(
        Planet::base().moon_of(7).with_radius(9 * SCALE).with_mass(193273528).with_orbit(
            2500 * SCALE,
            0,
        ).with_color(11),
    );
    r.push(
        Planet::base().with_radius(120 * SCALE).with_mass(18897856102).with_orbit(
            10000 * SCALE,
            393201812,
        ).with_color(5),
    );
    r.push(
        Planet::base().moon_of(9).with_radius(11 * SCALE).with_mass(214748365).with_orbit(
            1750 * SCALE,
            0,
        ).with_color(11),
    );
    r
}

} // verus!

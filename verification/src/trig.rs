//! Sine and cosine over fixed-point angles.
//!
//! Angles are measured in turns: a full revolution is [`SCALE`], so the angle
//! wraps naturally with the fixed-point representation and never needs an
//! irrational constant.  The half-wave is Bhaskara's rational approximation
//! of the sine, evaluated exactly in integers; the result is a deterministic
//! pure function of the angle, which is all the orbit evaluation needs.

use vstd::prelude::*;
use vstd::arithmetic::div_mod::{lemma_div_is_ordered, lemma_div_multiples_vanish};

use crate::fixed::SCALE;

verus! {

/// A quarter of a revolution.
pub const QUARTER_TURN: i64 = 0x4000_0000;

/// Half of a revolution.
pub const HALF_TURN: i64 = 0x8000_0000;

/// Bhaskara's sine approximation on `0 <= t < HALF_TURN`, scaled to peak at
/// [`SCALE`]: with `a = t*(SCALE - 2*t)/SCALE`, the value is
/// `32*a*SCALE / (5*SCALE - 8*a)`.
pub open spec fn half_wave(t: int) -> int {
    let a = (t * (SCALE as int - 2 * t)) / (SCALE as int);
    (32 * a * (SCALE as int)) / (5 * (SCALE as int) - 8 * a)
}

/// Sine of a non-negative angle in turns.
pub open spec fn sin_spec(x: int) -> int {
    let u = x % (SCALE as int);
    if u < HALF_TURN as int {
        half_wave(u)
    } else {
        -half_wave(u - HALF_TURN as int)
    }
}

/// Cosine of a non-negative angle in turns, as the sine a quarter turn ahead.
pub open spec fn cos_spec(x: int) -> int {
    sin_spec(x % (SCALE as int) + QUARTER_TURN as int)
}

/// The positive half-wave of the sine.
fn sin_half(t: i64) -> (r: i64)
    requires
        0 <= t < HALF_TURN,
    ensures
        r as int == half_wave(t as int),
        0 <= r <= SCALE,
{
    let w = SCALE - 2 * t;
    proof {
        assert((t as int) * (w as int) <= 0x8000_0000_0000_0000) by (nonlinear_arith)
            requires
                0 <= t as int <= 0x8000_0000,
                0 <= w as int <= 0x1_0000_0000,
        ;
        assert(8 * ((t as int) * (w as int)) <= (SCALE as int) * (SCALE as int))
            by (nonlinear_arith)
            requires
                0 <= t as int,
                w as int == SCALE as int - 2 * (t as int),
        ;
    }
    let prod = (t as u128) * (w as u128);
    let a_wide = prod / (SCALE as u128);
    proof {
        assert(8 * (a_wide as int) <= SCALE as int) by (nonlinear_arith)
            requires
                a_wide as int == (prod as int) / (SCALE as int),
                8 * (prod as int) <= (SCALE as int) * (SCALE as int),
                0 <= prod as int,
        ;
    }
    let a = a_wide as i64;
    let num = 32 * (a as u128) * (SCALE as u128);
    let den = (5 * SCALE - 8 * a) as u128;
    let wide = num / den;
    proof {
        assert(num as int <= (SCALE as int) * (den as int)) by (nonlinear_arith)
            requires
                num as int == 32 * (a as int) * (SCALE as int),
                den as int == 5 * (SCALE as int) - 8 * (a as int),
                8 * (a as int) <= SCALE as int,
                0 <= a as int,
        ;
        lemma_div_is_ordered(num as int, (SCALE as int) * (den as int), den as int);
        lemma_div_multiples_vanish(SCALE as int, den as int);
    }
    let r = wide as i64;
    r
}

/// Sine of a non-negative angle in turns; peaks at plus and minus [`SCALE`].
pub fn sin_turns(x: i64) -> (r: i64)
    requires
        x >= 0,
    ensures
        r as int == sin_spec(x as int),
        -SCALE <= r <= SCALE,
{
    let u = ((x as u64) % (SCALE as u64)) as i64;
    if u < HALF_TURN {
        sin_half(u)
    } else {
        -sin_half(u - HALF_TURN)
    }
}

/// Cosine of a non-negative angle in turns; peaks at plus and minus [`SCALE`].
pub fn cos_turns(x: i64) -> (r: i64)
    requires
        x >= 0,
    ensures
        r as int == cos_spec(x as int),
        -SCALE <= r <= SCALE,
{
    let u = ((x as u64) % (SCALE as u64)) as i64;
    sin_turns(u + QUARTER_TURN)
}

} // verus!

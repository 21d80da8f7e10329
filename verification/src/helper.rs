//! Axis mapping: converts a raw pulse width (and, for the hysteresis
//! strategy, the previous output) into a drive magnitude. Every strategy
//! clamps its input to the physical range first; out-of-range readings are
//! never rejected.

use vstd::prelude::*;

use crate::flysky::{MAX_POSITION, MIN_POSITION, RANGE_MID_POSITION_MAX, RANGE_MID_POSITION_MIN};

verus! {

pub const MAX_POTENCY: u8 = 255;

pub const MIN_POTENCY: u8 = 0;

/// The fold point of the unsigned mappings: the center of the physical range.
pub const MID_RANGE: u16 = 1500;

/// Half the physical range: the span of each side of the fold point.
pub const HALF_RANGE: u16 = 500;

/// Largest magnitude change the hysteresis mapping absorbs.
pub const HYSTERESIS_THRESHOLD: u8 = 2;

/// A raw pulse width clamped to the physical range `[1000, 2000]`.
pub open spec fn spec_clamp(value: int) -> int {
    if value < MIN_POSITION as int {
        MIN_POSITION as int
    } else if value > MAX_POSITION as int {
        MAX_POSITION as int
    } else {
        value
    }
}

/// Linear unsigned mapping: `[1000, 2000]` scaled onto `[0, 255]`, no
/// deadzone.
pub open spec fn spec_potency(value: int) -> int {
    (spec_clamp(value) - MIN_POSITION as int) * MAX_POTENCY as int / (MAX_POSITION as int
        - MIN_POSITION as int)
}

/// Folded unsigned mapping: 0 at the 1500 center, 255 at either extreme, the
/// direction discarded.
pub open spec fn spec_folded(value: int) -> int {
    let clamped = spec_clamp(value);
    if clamped < MID_RANGE as int {
        (MID_RANGE as int - clamped) * MAX_POTENCY as int / HALF_RANGE as int
    } else {
        (clamped - MID_RANGE as int) * MAX_POTENCY as int / HALF_RANGE as int
    }
}

/// Signed mapping with a fixed deadzone of half-width 50 around the 1500
/// center: 0 inside the deadzone, scaled toward -255 below it and +255 above
/// it, rounded toward zero.
pub open spec fn spec_signed(value: int) -> int {
    let clamped = spec_clamp(value);
    if clamped > RANGE_MID_POSITION_MAX as int {
        (clamped - RANGE_MID_POSITION_MAX as int) * MAX_POTENCY as int / (MAX_POSITION as int
            - RANGE_MID_POSITION_MAX as int)
    } else if clamped < RANGE_MID_POSITION_MIN as int {
        -((RANGE_MID_POSITION_MIN as int - clamped) * MAX_POTENCY as int / (
        RANGE_MID_POSITION_MIN as int - MIN_POSITION as int))
    } else {
        0
    }
}

/// Folded unsigned mapping with hysteresis: a new magnitude within 2 of the
/// previous output keeps the previous output, suppressing jitter.
pub open spec fn spec_hysteresis(value: int, last: int) -> int {
    let scaled = spec_folded(value);
    if -(HYSTERESIS_THRESHOLD as int) <= scaled - last <= HYSTERESIS_THRESHOLD as int {
        last
    } else {
        scaled
    }
}

/// Clamps a raw value into `[lo, hi]`.
fn clamp_value(value: u16, lo: u16, hi: u16) -> (r: u16)
    requires
        lo <= hi,
    ensures
        r == if value < lo {
            lo
        } else if value > hi {
            hi
        } else {
            value
        },
{
    if value < lo {
        lo
    } else if value > hi {
        hi
    } else {
        value
    }
}

/// Maps a PositionValue (u16) from the FlySky PPM range to a potency value
/// (u8), clamping the value to the expected range before scaling linearly.
pub fn map_value_to_potency(value: u16) -> (r: u8)
    ensures
        r == spec_potency(value as int),
        r <= MAX_POTENCY,
{
    let in_min: u16 = MIN_POSITION;
    let in_max: u16 = MAX_POSITION;
    let out_min: u16 = MIN_POTENCY as u16;
    let out_max: u16 = MAX_POTENCY as u16;

    let clamped = clamp_value(value, in_min, in_max);

    proof {
        lemma_mul_fits_u32((clamped - in_min) as int, (out_max - out_min) as int);
    }
    let scaled = (clamped - in_min) as u32 * (out_max - out_min) as u32 / (in_max - in_min) as u32
        + out_min as u32;

    proof {
        lemma_scale_bound((clamped - in_min) as int, 1000, 255);
    }
    scaled as u8
}

/// Maps a u16 value from the FlySky PPM range to a u8 value, folding around
/// the center: the center maps to 0, both extremes to 255.
pub fn map_u16_to_u8_2(value: u16) -> (r: u8)
    ensures
        r == spec_folded(value as int),
        r <= MAX_POTENCY,
{
    let clamped = clamp_value(value, MIN_POSITION, MAX_POSITION);
    let mid = (MIN_POSITION + MAX_POSITION) / 2;

    if clamped < mid {
        proof {
            lemma_mul_fits_u32((mid - clamped) as int, MAX_POTENCY as int);
        }
        let scaled = (mid - clamped) as u32 * MAX_POTENCY as u32 / (mid - MIN_POSITION) as u32;
        proof {
            lemma_scale_bound((mid - clamped) as int, 500, 255);
        }
        scaled as u8
    } else {
        let scaled = (clamped - mid) as u32 * MAX_POTENCY as u32 / (MAX_POSITION - mid) as u32;
        proof {
            lemma_scale_bound((clamped - mid) as int, 500, 255);
        }
        scaled as u8
    }
}

/// Maps a pulse width to a signed drive magnitude with a fixed deadzone: 0
/// inside `[1450, 1550]`, up to 255 at full deflection, rounded toward zero.
/// The previous output is accepted for interchangeability with the hysteresis
/// strategy and is not used.
pub fn map_u16_to_i16(value: u16, _prev: u8) -> (r: i16)
    ensures
        r == spec_signed(value as int),
        -255 <= r <= 255,
{
    let clamped = clamp_value(value, MIN_POSITION, MAX_POSITION);

    if clamped > RANGE_MID_POSITION_MAX {
        let scaled = (clamped - RANGE_MID_POSITION_MAX) as u32 * MAX_POTENCY as u32 / (MAX_POSITION
            - RANGE_MID_POSITION_MAX) as u32;
        proof {
            lemma_scale_bound((clamped - RANGE_MID_POSITION_MAX) as int, 450, 255);
        }
        scaled as i16
    } else if clamped < RANGE_MID_POSITION_MIN {
        let scaled = (RANGE_MID_POSITION_MIN - clamped) as u32 * MAX_POTENCY as u32 / (
        RANGE_MID_POSITION_MIN - MIN_POSITION) as u32;
        proof {
            lemma_scale_bound((RANGE_MID_POSITION_MIN - clamped) as int, 450, 255);
        }
        -(scaled as i16)
    } else {
        0
    }
}

/// Maps a pulse width to a folded unsigned magnitude with hysteresis: when
/// the new magnitude is within 2 of the previous output `last`, the previous
/// output is returned unchanged to suppress signal-noise jitter.
pub fn map_u16_to_u8(value: u16, last: u8) -> (r: u8)
    ensures
        r == spec_hysteresis(value as int, last as int),
        r <= MAX_POTENCY,
{
    let clamped = clamp_value(value, MIN_POSITION, MAX_POSITION);
    let mid = (MIN_POSITION + MAX_POSITION) / 2;

    let mut scaled: u8 = if clamped < mid {
        proof {
            lemma_mul_fits_u32((mid - clamped) as int, MAX_POTENCY as int);
        }
        let s = (mid - clamped) as u32 * MAX_POTENCY as u32 / (mid - MIN_POSITION) as u32;
        proof {
            lemma_scale_bound((mid - clamped) as int, 500, 255);
        }
        s as u8
    } else {
        let s = (clamped - mid) as u32 * MAX_POTENCY as u32 / (MAX_POSITION - mid) as u32;
        proof {
            lemma_scale_bound((clamped - mid) as int, 500, 255);
        }
        s as u8
    };

    let threshold: u8 = HYSTERESIS_THRESHOLD;
    let diff: u16 = if scaled >= last {
        (scaled - last) as u16
    } else {
        (last - scaled) as u16
    };
    if diff <= threshold as u16 {
        scaled = last;
    }

    scaled
}

/// The product of a 16-bit value and a byte-sized factor fits in 32 bits.
proof fn lemma_mul_fits_u32(x: int, f: int)
    requires
        0 <= x < 65536,
        0 <= f < 256,
    ensures
        0 <= x * f < 4294967296,
{
    assert(0 <= x * f < 65536 * 256) by (nonlinear_arith)
        requires
            0 <= x < 65536,
            0 <= f < 256,
    ;
}

/// A numerator no larger than the denominator times 255 scales to no more
/// than 255.
proof fn lemma_scale_bound(x: int, d: int, m: int)
    requires
        0 <= x <= d,
        0 < d,
        0 <= m,
    ensures
        0 <= x * m / d <= m,
{
    assert(x * m <= d * m) by (nonlinear_arith)
        requires
            0 <= x <= d,
            0 <= m,
    ;
    assert(x * m >= 0) by (nonlinear_arith)
        requires
            0 <= x,
            0 <= m,
    ;
    vstd::arithmetic::div_mod::lemma_div_is_ordered(x * m, d * m, d);
    vstd::arithmetic::div_mod::lemma_div_multiples_vanish(m, d);
    vstd::arithmetic::div_mod::lemma_div_pos_is_pos(x * m, d);
}

/// Clamping: every mapping strategy treats a value at or below the physical
/// minimum exactly as it treats the minimum itself.
pub proof fn lemma_maps_clamp_low(value: int, last: int)
    requires
        value <= MIN_POSITION as int,
    ensures
        spec_potency(value) == spec_potency(MIN_POSITION as int),
        spec_folded(value) == spec_folded(MIN_POSITION as int),
        spec_signed(value) == spec_signed(MIN_POSITION as int),
        spec_hysteresis(value, last) == spec_hysteresis(MIN_POSITION as int, last),
{
}

/// Clamping: every mapping strategy treats a value at or above the physical
/// maximum exactly as it treats the maximum itself.
pub proof fn lemma_maps_clamp_high(value: int, last: int)
    requires
        value >= MAX_POSITION as int,
    ensures
        spec_potency(value) == spec_potency(MAX_POSITION as int),
        spec_folded(value) == spec_folded(MAX_POSITION as int),
        spec_signed(value) == spec_signed(MAX_POSITION as int),
        spec_hysteresis(value, last) == spec_hysteresis(MAX_POSITION as int, last),
{
}

} // verus!

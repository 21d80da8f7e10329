//! Mecanum drive mixing: combines the forward, strafe and rotation
//! magnitudes into four signed wheel commands, then normalizes them
//! proportionally so no command exceeds 255 and the ratio between wheels is
//! kept.

use vstd::prelude::*;

use vstd::math::abs;
use vstd::math::max;

use crate::flysky::{Position, StickMovement};
use crate::helper::{map_u16_to_i16, spec_signed, MAX_POTENCY};

verus! {

/// Wheel A of the mecanum formula: forward + strafe + rotate.
pub open spec fn spec_wheel_a(forward: int, strafe: int, rotate: int) -> int {
    forward + strafe + rotate
}

/// Wheel B of the mecanum formula: forward - strafe - rotate.
pub open spec fn spec_wheel_b(forward: int, strafe: int, rotate: int) -> int {
    forward - strafe - rotate
}

/// Wheel C of the mecanum formula: forward - strafe + rotate.
pub open spec fn spec_wheel_c(forward: int, strafe: int, rotate: int) -> int {
    forward - strafe + rotate
}

/// Wheel D of the mecanum formula: forward + strafe - rotate.
pub open spec fn spec_wheel_d(forward: int, strafe: int, rotate: int) -> int {
    forward + strafe - rotate
}

/// The largest wheel magnitude before normalization.
pub open spec fn spec_mix_max(forward: int, strafe: int, rotate: int) -> int {
    max(
        max(
            abs(spec_wheel_a(forward, strafe, rotate)) as int,
            abs(spec_wheel_b(forward, strafe, rotate)) as int,
        ),
        max(
            abs(spec_wheel_c(forward, strafe, rotate)) as int,
            abs(spec_wheel_d(forward, strafe, rotate)) as int,
        ),
    )
}

/// One wheel command after normalization: unchanged when the largest
/// magnitude `m` fits in 255, otherwise scaled by 255/m and rounded toward
/// zero.
pub open spec fn spec_scaled(v: int, m: int) -> int {
    if m <= MAX_POTENCY as int {
        v
    } else if v >= 0 {
        v * MAX_POTENCY as int / m
    } else {
        -((-v) * MAX_POTENCY as int / m)
    }
}

/// All four wheel commands of `mix`, wheel A first.
pub open spec fn spec_mix(forward: int, strafe: int, rotate: int) -> (int, int, int, int) {
    let m = spec_mix_max(forward, strafe, rotate);
    (
        spec_scaled(spec_wheel_a(forward, strafe, rotate), m),
        spec_scaled(spec_wheel_b(forward, strafe, rotate), m),
        spec_scaled(spec_wheel_c(forward, strafe, rotate), m),
        spec_scaled(spec_wheel_d(forward, strafe, rotate), m),
    )
}

/// Absolute value of a wheel magnitude.
fn iabs(v: i32) -> (r: i32)
    requires
        i32::MIN < v,
    ensures
        r == abs(v as int),
{
    if v < 0 {
        -v
    } else {
        v
    }
}

/// The larger of two wheel magnitudes.
fn imax(x: i32, y: i32) -> (r: i32)
    ensures
        r == max(x as int, y as int),
{
    if x >= y {
        x
    } else {
        y
    }
}

/// Scales one pre-normalization wheel value `v` by 255/m, rounding toward
/// zero.
fn scale_wheel(v: i32, m: i32) -> (r: i32)
    requires
        MAX_POTENCY < m,
        abs(v as int) <= m,
        -100000 <= v <= 100000,
    ensures
        r == spec_scaled(v as int, m as int),
        -255 <= r <= 255,
{
    if v >= 0 {
        let num: u32 = (v as u32) * (MAX_POTENCY as u32);
        let q: u32 = num / (m as u32);
        proof {
            lemma_scale_le(v as int, m as int, MAX_POTENCY as int);
        }
        q as i32
    } else {
        let neg: i32 = -v;
        let num: u32 = (neg as u32) * (MAX_POTENCY as u32);
        let q: u32 = num / (m as u32);
        proof {
            lemma_scale_le(neg as int, m as int, MAX_POTENCY as int);
        }
        -(q as i32)
    }
}

/// A numerator at most the denominator scales to at most the factor.
proof fn lemma_scale_le(x: int, d: int, f: int)
    requires
        0 <= x <= d,
        0 < d,
        0 <= f,
    ensures
        0 <= x * f / d <= f,
{
    assert(0 <= x * f <= d * f) by (nonlinear_arith)
        requires
            0 <= x <= d,
            0 <= f,
    ;
    vstd::arithmetic::div_mod::lemma_div_is_ordered(x * f, d * f, d);
    vstd::arithmetic::div_mod::lemma_div_multiples_vanish(f, d);
    vstd::arithmetic::div_mod::lemma_div_pos_is_pos(x * f, d);
}

/// Proportional normalization never underuses the range: whenever the
/// largest pre-normalization wheel magnitude exceeds 255, the normalized
/// commands all lie in `[-255, 255]` and the largest of them is exactly 255.
/// Wheels that agreed before normalization still agree after it, so the
/// ratio between equal wheels is kept.
pub proof fn lemma_saturation_keeps_full_scale(forward: int, strafe: int, rotate: int)
    requires
        spec_mix_max(forward, strafe, rotate) > 255,
    ensures
        ({
            let r = spec_mix(forward, strafe, rotate);
            &&& max(max(abs(r.0) as int, abs(r.1) as int), max(abs(r.2) as int, abs(r.3) as int))
                == 255
            &&& spec_wheel_a(forward, strafe, rotate) == spec_wheel_d(forward, strafe, rotate)
                ==> r.0 == r.3
        }),
{
    let m = spec_mix_max(forward, strafe, rotate);
    let a = spec_wheel_a(forward, strafe, rotate);
    let b = spec_wheel_b(forward, strafe, rotate);
    let c = spec_wheel_c(forward, strafe, rotate);
    let d = spec_wheel_d(forward, strafe, rotate);
    lemma_scaled_abs(a, m);
    lemma_scaled_abs(b, m);
    lemma_scaled_abs(c, m);
    lemma_scaled_abs(d, m);
    assert(m == abs(a) || m == abs(b) || m == abs(c) || m == abs(d));
    vstd::arithmetic::div_mod::lemma_div_multiples_vanish(255, m);
    assert(m * 255 / m == 255);
}

/// The magnitude of one normalized command: the wheel's own magnitude scaled
/// by 255/m, never more than 255.
proof fn lemma_scaled_abs(v: int, m: int)
    requires
        255 < m,
        abs(v) <= m,
    ensures
        abs(spec_scaled(v, m)) == abs(v) as int * 255 / m,
        abs(spec_scaled(v, m)) <= 255,
{
    lemma_scale_le(abs(v) as int, m, 255);
}

/// Mecanum mixing: combines a forward, a strafe and a rotation magnitude
/// into the four wheel commands `(a, b, c, d)`. When the largest magnitude
/// exceeds 255, all four are scaled proportionally (rounded toward zero), so
/// the direction ratio between wheels is kept; otherwise they pass through
/// unchanged. Every command returned lies in `[-255, 255]`.
pub fn mix(forward: i16, strafe: i16, rotate: i16) -> (r: (i16, i16, i16, i16))
    ensures
        r.0 == spec_mix(forward as int, strafe as int, rotate as int).0,
        r.1 == spec_mix(forward as int, strafe as int, rotate as int).1,
        r.2 == spec_mix(forward as int, strafe as int, rotate as int).2,
        r.3 == spec_mix(forward as int, strafe as int, rotate as int).3,
        -255 <= r.0 <= 255,
        -255 <= r.1 <= 255,
        -255 <= r.2 <= 255,
        -255 <= r.3 <= 255,
{
    let f: i32 = forward as i32;
    let s: i32 = strafe as i32;
    let rot: i32 = rotate as i32;

    let a: i32 = f + s + rot;
    let b: i32 = f - s - rot;
    let c: i32 = f - s + rot;
    let d: i32 = f + s - rot;

    let m: i32 = imax(imax(iabs(a), iabs(b)), imax(iabs(c), iabs(d)));

    if m > MAX_POTENCY as i32 {
        let a2 = scale_wheel(a, m);
        let b2 = scale_wheel(b, m);
        let c2 = scale_wheel(c, m);
        let d2 = scale_wheel(d, m);
        (a2 as i16, b2 as i16, c2 as i16, d2 as i16)
    } else {
        (a as i16, b as i16, c as i16, d as i16)
    }
}

/// The two cached drive magnitudes of the previous control cycle, kept as
/// the low byte of each signed magnitude.
pub struct PwmValues {
    pub pwm_y: u8,
    pub pwm_x: u8,
}

impl Default for PwmValues {
    /// Both cached magnitudes start at zero.
    fn default() -> (r: Self)
        ensures
            r.pwm_y == 0,
            r.pwm_x == 0,
    {
        PwmValues { pwm_y: 0, pwm_x: 0 }
    }
}

/// The signed drive magnitude of a vertical axis reading: the mapped pulse
/// width when the stick sits above or below center, 0 otherwise.
pub open spec fn spec_vertical_drive(p: Position) -> int {
    match p {
        Position::Up(v) => spec_signed(v as int),
        Position::Down(v) => spec_signed(v as int),
        _ => 0,
    }
}

/// The signed drive magnitude of a horizontal axis reading: the mapped pulse
/// width when the stick sits right or left of center, 0 otherwise.
pub open spec fn spec_horizontal_drive(p: Position) -> int {
    match p {
        Position::Right(v) => spec_signed(v as int),
        Position::Left(v) => spec_signed(v as int),
        _ => 0,
    }
}

/// The low byte of a signed drive magnitude in `(-256, 256)`, as a
/// truncating cast to `u8` computes it.
pub open spec fn spec_low_byte(v: int) -> u8 {
    (((v + 256) % 256) as u8)
}

/// Turns one right-stick movement into the four wheel commands: the vertical
/// axis drives forward motion, the horizontal axis strafes, and rotation is
/// not wired from any stick, so it stays zero. The low byte of each mapped
/// magnitude is cached in `pwm_values` for the next cycle.
pub fn right_stick_management(movement: &StickMovement, pwm_values: &mut PwmValues) -> (r: (
    i16,
    i16,
    i16,
    i16,
))
    ensures
        ({
            let y = spec_vertical_drive(movement.up_down);
            let x = spec_horizontal_drive(movement.right_left);
            &&& final(pwm_values).pwm_y == spec_low_byte(y)
            &&& final(pwm_values).pwm_x == spec_low_byte(x)
            &&& r.0 == spec_mix(y, x, 0).0
            &&& r.1 == spec_mix(y, x, 0).1
            &&& r.2 == spec_mix(y, x, 0).2
            &&& r.3 == spec_mix(y, x, 0).3
            &&& -255 <= r.0 <= 255
            &&& -255 <= r.1 <= 255
            &&& -255 <= r.2 <= 255
            &&& -255 <= r.3 <= 255
        }),
{
    let y: i16 = match movement.up_down {
        Position::Up(v) => map_u16_to_i16(v, pwm_values.pwm_y),
        Position::Down(v) => map_u16_to_i16(v, pwm_values.pwm_y),
        _ => 0,
    };

    let x: i16 = match movement.right_left {
        Position::Right(v) => map_u16_to_i16(v, pwm_values.pwm_x),
        Position::Left(v) => map_u16_to_i16(v, pwm_values.pwm_x),
        _ => 0,
    };

    pwm_values.pwm_y = low_byte(y);
    pwm_values.pwm_x = low_byte(x);

    let r: i16 = 0;

    mix(y, x, r)
}

/// The low byte of a signed magnitude, as the truncating cast to `u8` keeps
/// it.
fn low_byte(v: i16) -> (r: u8)
    requires
        -256 < v < 256,
    ensures
        r == spec_low_byte(v as int),
{
    if v >= 0 {
        v as u8
    } else {
        (v + 256) as u8
    }
}

} // verus!

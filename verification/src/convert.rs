//! Conversions between the user-facing units (a 0..=100 brightness
//! percentage, a color temperature in Kelvin) and the device units the
//! protocol carries. The device accepts brightness in `[0x14, 0xfa]` and
//! temperature in `[2700, 6500]` in steps of 100; every conversion clamps
//! into those ranges, whatever the input.

use vstd::prelude::*;

use crate::protocol::{MAX_BRIGHTNESS, MAX_TEMPERATURE, MIN_BRIGHTNESS, MIN_TEMPERATURE};

verus! {

/// The device brightness a percentage maps to: percentages above 100 clamp
/// to 100, then 0..=100 maps linearly onto the device range.
pub open spec fn spec_brightness_from_percent(percent: u16) -> u16 {
    let p = if percent > 100 { 100 as int } else { percent as int };
    (MIN_BRIGHTNESS + p * (MAX_BRIGHTNESS - MIN_BRIGHTNESS) / 100) as u16
}

/// The percentage a device brightness maps back to, linear on the device
/// range.
pub open spec fn spec_brightness_to_percent(level: u16) -> u16 {
    ((level - MIN_BRIGHTNESS) * 100 / (MAX_BRIGHTNESS - MIN_BRIGHTNESS)) as u16
}

/// A possibly out-of-range brightness clamped into the device range.
pub open spec fn spec_clamp_brightness(value: i32) -> u16 {
    if value < MIN_BRIGHTNESS as i32 {
        MIN_BRIGHTNESS
    } else if value > MAX_BRIGHTNESS as i32 {
        MAX_BRIGHTNESS
    } else {
        value as u16
    }
}

/// A requested temperature clamped into the device range and rounded to
/// the nearest multiple of the 100 K step.
pub open spec fn spec_clamp_temperature(value: i32) -> u16 {
    let clamped = if value < MIN_TEMPERATURE as i32 {
        MIN_TEMPERATURE as int
    } else if value > MAX_TEMPERATURE as i32 {
        MAX_TEMPERATURE as int
    } else {
        value as int
    };
    let stepped = (clamped + 50) / 100 * 100;
    if stepped < MIN_TEMPERATURE as int {
        MIN_TEMPERATURE
    } else if stepped > MAX_TEMPERATURE as int {
        MAX_TEMPERATURE
    } else {
        stepped as u16
    }
}

/// Map a user-facing percentage to device units: 0 gives the device
/// minimum, 100 the maximum, and anything above 100 clamps to 100.
pub fn brightness_from_percent(percent: u16) -> (r: u16)
    ensures
        r == spec_brightness_from_percent(percent),
        MIN_BRIGHTNESS <= r <= MAX_BRIGHTNESS,
        percent == 0 ==> r == MIN_BRIGHTNESS,
        percent >= 100 ==> r == MAX_BRIGHTNESS,
{
    let p: u16 = if percent > 100 { 100 } else { percent };
    let span: u16 = MAX_BRIGHTNESS - MIN_BRIGHTNESS;
    assert(p * span <= 100 * span) by (nonlinear_arith)
        requires p <= 100;
    assert(p * span / 100 <= span) by (nonlinear_arith)
        requires p * span <= 100 * span;
    MIN_BRIGHTNESS + p * span / 100
}

/// Map a device brightness back to the user-facing percentage.
pub fn brightness_to_percent(level: u16) -> (r: u16)
    requires
        MIN_BRIGHTNESS <= level <= MAX_BRIGHTNESS,
    ensures
        r == spec_brightness_to_percent(level),
        r <= 100,
        level == MIN_BRIGHTNESS ==> r == 0,
        level == MAX_BRIGHTNESS ==> r == 100,
{
    let span: u16 = MAX_BRIGHTNESS - MIN_BRIGHTNESS;
    let offset: u16 = level - MIN_BRIGHTNESS;
    assert(offset * 100 <= span * 100) by (nonlinear_arith)
        requires offset <= span;
    assert(offset * 100 / (span as int) <= 100) by (nonlinear_arith)
        requires offset * 100 <= span * 100, span > 0;
    offset * 100 / span
}

/// Clamp a rounded brightness request into the device range.
pub fn clamp_brightness(value: i32) -> (r: u16)
    ensures
        r == spec_clamp_brightness(value),
        MIN_BRIGHTNESS <= r <= MAX_BRIGHTNESS,
{
    if value < MIN_BRIGHTNESS as i32 {
        MIN_BRIGHTNESS
    } else if value > MAX_BRIGHTNESS as i32 {
        MAX_BRIGHTNESS
    } else {
        value as u16
    }
}

/// Clamp a rounded temperature request into the device range and round it
/// to the nearest multiple of 100 K; the result never strays more than
/// 50 K from the clamped request.
pub fn clamp_temperature(value: i32) -> (r: u16)
    ensures
        r == spec_clamp_temperature(value),
        MIN_TEMPERATURE <= r <= MAX_TEMPERATURE,
        r % 100 == 0,
        MIN_TEMPERATURE as i32 <= value <= MAX_TEMPERATURE as i32 ==> -49 <= r - value <= 50,
{
    let clamped: u16 = if value < MIN_TEMPERATURE as i32 {
        MIN_TEMPERATURE
    } else if value > MAX_TEMPERATURE as i32 {
        MAX_TEMPERATURE
    } else {
        value as u16
    };
    let quot: u16 = (clamped + 50) / 100;
    assert(quot * 100 <= clamped + 50) by (nonlinear_arith)
        requires quot == (clamped + 50) / 100;
    let stepped: u16 = quot * 100;
    proof {
        assert(stepped % 100 == 0) by (nonlinear_arith)
            requires stepped == quot * 100;
        assert(clamped + 50 < (quot + 1) * 100) by (nonlinear_arith)
            requires quot == (clamped + 50) / 100;
    }
    if stepped < MIN_TEMPERATURE {
        MIN_TEMPERATURE
    } else if stepped > MAX_TEMPERATURE {
        MAX_TEMPERATURE
    } else {
        stepped
    }
}

} // verus!

//! From sky illumination to signal strength: how much light the time of day
//! and the weather take away, what is left of the raw sky light, and the
//! power a detector emits for it.

use vstd::prelude::*;
use crate::fixed::{Cosine, Intensity, UNIT};
use crate::state::{clamp, PowerLevel, MAX_POWER};

verus! {

/// The largest amount that darkness and weather take from the sky light.
pub const MAX_DARKEN: u8 = 11;

/// The raw value that stands for full brightness after both weather
/// factors were applied: `UNIT * (16 * UNIT) * (16 * UNIT)`.
pub const BRIGHTNESS_SCALE: u64 = 72057594037927936;

/// The brightness of the sky for the cosine of the sun angle, as a multiple
/// of `1 / UNIT`: one minus what is left of `1 - (2 cos + 1/2)` between 0
/// and 1. It is 1 on a plateau around midday and 0 at night.
pub open spec fn sky_brightness(cosine: int) -> int {
    UNIT - clamp(UNIT - (2 * cosine + UNIT / 2), 0, UNIT as int)
}

/// What a weather intensity leaves of the brightness, as a multiple of
/// `1 / (16 * UNIT)`: `1 - level * 5 / 16`.
pub open spec fn weather_factor(level: int) -> int {
    16 * UNIT - 5 * level
}

/// The brightness after rain and thunder, as a multiple of
/// `1 / BRIGHTNESS_SCALE`.
pub open spec fn attenuated_brightness(cosine: int, rain: int, thunder: int) -> int {
    sky_brightness(cosine) * weather_factor(rain) * weather_factor(thunder)
}

/// The amount to take from the raw sky light: eleven times the missing
/// brightness, rounded down.
pub open spec fn sky_darken(cosine: int, rain: int, thunder: int) -> int {
    (11 * (BRIGHTNESS_SCALE - attenuated_brightness(cosine, rain, thunder)))
        / (BRIGHTNESS_SCALE as int)
}

/// The sky light that is left. It may be negative.
pub open spec fn internal_light(sky_light: int, darken: int) -> int {
    sky_light - darken
}

/// The brightness is a fraction between 0 and 1.
pub proof fn lemma_sky_brightness_range(cosine: int)
    ensures
        0 <= sky_brightness(cosine) <= UNIT,
{
}

/// The brightness can as well be had by keeping the cosine within a
/// quarter either side of zero: `1/2 + 2 * clamp(cos, -1/4, 1/4)`.
pub proof fn lemma_sky_brightness_by_clamped_cosine(cosine: int)
    ensures
        sky_brightness(cosine) == UNIT / 2 + 2 * clamp(cosine, -(UNIT / 4), (UNIT / 4) as int),
{
}

/// The attenuated brightness is a fraction between 0 and 1.
pub proof fn lemma_attenuated_brightness_range(cosine: int, rain: int, thunder: int)
    requires
        0 <= rain <= UNIT,
        0 <= thunder <= UNIT,
    ensures
        0 <= attenuated_brightness(cosine, rain, thunder) <= BRIGHTNESS_SCALE,
{
    let b = sky_brightness(cosine);
    let fr = weather_factor(rain);
    let ft = weather_factor(thunder);
    assert(0 <= b <= 65536);
    assert(0 <= fr <= 1048576);
    assert(0 <= ft <= 1048576);
    assert(0 <= b * fr <= 65536 * 1048576) by (nonlinear_arith)
        requires
            0 <= b <= 65536,
            0 <= fr <= 1048576,
    ;
    let p = b * fr;
    assert(0 <= p * ft <= 68719476736 * 1048576) by (nonlinear_arith)
        requires
            0 <= p <= 68719476736,
            0 <= ft <= 1048576,
    ;
}

/// More of either weather never makes the sky brighter.
pub proof fn lemma_attenuated_brightness_falls_with_weather(
    cosine: int,
    rain_a: int,
    thunder_a: int,
    rain_b: int,
    thunder_b: int,
)
    requires
        0 <= rain_a <= rain_b <= UNIT,
        0 <= thunder_a <= thunder_b <= UNIT,
    ensures
        attenuated_brightness(cosine, rain_b, thunder_b) <= attenuated_brightness(
            cosine,
            rain_a,
            thunder_a,
        ),
{
    let b = sky_brightness(cosine);
    let fa = weather_factor(rain_a);
    let fb = weather_factor(rain_b);
    let ga = weather_factor(thunder_a);
    let gb = weather_factor(thunder_b);
    assert(0 <= b);
    assert(0 <= fb <= fa);
    assert(0 <= gb <= ga);
    assert(0 <= b * fb <= b * fa) by (nonlinear_arith)
        requires
            0 <= b,
            0 <= fb <= fa,
    ;
    let pa = b * fa;
    let pb = b * fb;
    assert(pb * gb <= pa * ga) by (nonlinear_arith)
        requires
            0 <= pb <= pa,
            0 <= gb <= ga,
    ;
}

/// The darkening lies between 0 and 11.
pub proof fn lemma_sky_darken_range(cosine: int, rain: int, thunder: int)
    requires
        0 <= rain <= UNIT,
        0 <= thunder <= UNIT,
    ensures
        0 <= sky_darken(cosine, rain, thunder) <= MAX_DARKEN,
{
    lemma_attenuated_brightness_range(cosine, rain, thunder);
}

/// For a fixed time, the darkening does not fall when the rain grows.
pub proof fn lemma_sky_darken_monotonic_in_rain(cosine: int, rain_a: int, rain_b: int, thunder: int)
    requires
        0 <= rain_a <= rain_b <= UNIT,
        0 <= thunder <= UNIT,
    ensures
        sky_darken(cosine, rain_a, thunder) <= sky_darken(cosine, rain_b, thunder),
{
    lemma_attenuated_brightness_falls_with_weather(cosine, rain_a, thunder, rain_b, thunder);
}

/// For a fixed time, the darkening does not fall when the thunder grows.
pub proof fn lemma_sky_darken_monotonic_in_thunder(
    cosine: int,
    rain: int,
    thunder_a: int,
    thunder_b: int,
)
    requires
        0 <= rain <= UNIT,
        0 <= thunder_a <= thunder_b <= UNIT,
    ensures
        sky_darken(cosine, rain, thunder_a) <= sky_darken(cosine, rain, thunder_b),
{
    lemma_attenuated_brightness_falls_with_weather(cosine, rain, thunder_a, rain, thunder_b);
}

/// With the sun at its highest and a clear sky nothing is taken away.
pub proof fn lemma_sky_darken_clear_noon()
    ensures
        sky_darken(UNIT as int, 0, 0) == 0,
{
    assert(sky_brightness(UNIT as int) == 65536);
    assert(attenuated_brightness(UNIT as int, 0, 0) == 65536 * 1048576 * 1048576);
    assert(65536 * 1048576 * 1048576 == 72057594037927936) by (nonlinear_arith);
}

/// Once the cosine of the sun angle is a quarter below zero or lower, the
/// sky is dark whatever the weather: the full eleven are taken away.
pub proof fn lemma_sky_darken_night(cosine: int, rain: int, thunder: int)
    requires
        cosine <= -(UNIT / 4),
    ensures
        sky_darken(cosine, rain, thunder) == MAX_DARKEN,
{
    assert(sky_brightness(cosine) == 0);
    let fr = weather_factor(rain);
    let ft = weather_factor(thunder);
    assert(0 * fr * ft == 0) by (nonlinear_arith);
}

/// The amount to subtract from the raw sky light for the cosine of the sun
/// angle and the weather.
pub fn calculate_sky_light_subtraction(sun: Cosine, rain: Intensity, thunder: Intensity) -> (r: u8)
    ensures
        r == sky_darken(sun@, rain@, thunder@),
        r <= MAX_DARKEN,
{
    proof {
        use_type_invariant(&sun);
        use_type_invariant(&rain);
        use_type_invariant(&thunder);
    }
    let raw_cosine: i64 = sun.raw() as i64;
    let excess: i64 = 65536 - (2 * raw_cosine + 32768);
    let kept: i64 = if excess < 0 {
        0
    } else if excess > 65536 {
        65536
    } else {
        excess
    };
    let brightness: u64 = (65536 - kept) as u64;
    let rain_factor: u64 = 1048576 - 5 * (rain.raw() as u64);
    let thunder_factor: u64 = 1048576 - 5 * (thunder.raw() as u64);
    proof {
        lemma_attenuated_brightness_range(sun@, rain@, thunder@);
        assert(brightness == sky_brightness(sun@));
        assert(rain_factor == weather_factor(rain@));
        assert(thunder_factor == weather_factor(thunder@));
        assert(0 <= brightness * rain_factor <= 65536 * 1048576) by (nonlinear_arith)
            requires
                0 <= brightness <= 65536,
                0 <= rain_factor <= 1048576,
        ;
    }
    let after_rain: u64 = brightness * rain_factor;
    let attenuated: u64 = after_rain * thunder_factor;
    let missing: u64 = BRIGHTNESS_SCALE - attenuated;
    ((11 * missing) / BRIGHTNESS_SCALE) as u8
}

/// The sky light that is left after the darkening for the cosine of the sun
/// angle and the weather. It is not held at zero.
pub fn calculate_internal_light(
    sky_light: u8,
    sun: Cosine,
    rain: Intensity,
    thunder: Intensity,
) -> (r: i32)
    ensures
        r == internal_light(sky_light as int, sky_darken(sun@, rain@, thunder@)),
{
    let darken: u8 = calculate_sky_light_subtraction(sun, rain, thunder);
    sky_light as i32 - darken as i32
}

/// The integer nearest to `n / d`, halves rounded away from zero.
pub open spec fn round_ratio(n: int, d: int) -> int {
    if n >= 0 {
        (2 * n + d) / (2 * d)
    } else {
        -((2 * -n + d) / (2 * d))
    }
}

/// The signal of a detector in its normal mode under some light: the
/// light times the cosine of the eased sun angle, rounded.
pub open spec fn daylight_signal(internal_light: int, eased_cosine: int) -> int {
    round_ratio(internal_light * eased_cosine, UNIT as int)
}

/// The signal before it is held within 0 and 15.
pub open spec fn power_signal(internal_light: int, inverted: bool, eased_cosine: int) -> int {
    if inverted {
        15 - internal_light
    } else if internal_light > 0 {
        daylight_signal(internal_light, eased_cosine)
    } else {
        0
    }
}

/// The power a detector emits for the light that is left, its mode and the
/// cosine of the eased sun angle.
pub open spec fn compute_power(internal_light: int, inverted: bool, eased_cosine: int) -> int {
    clamp(power_signal(internal_light, inverted, eased_cosine), 0, MAX_POWER as int)
}

/// Rounding gives an integer that is at most a half away from the ratio.
pub proof fn lemma_round_ratio_is_nearest(n: int, d: int)
    requires
        d > 0,
    ensures
        -d <= 2 * (round_ratio(n, d) * d - n) <= d,
{
    let m = if n >= 0 { n } else { -n };
    let q = (2 * m + d) / (2 * d);
    let r = (2 * m + d) % (2 * d);
    assert(2 * m + d == (2 * d) * q + r && 0 <= r < 2 * d) by {
        vstd::arithmetic::div_mod::lemma_fundamental_div_mod(2 * m + d, 2 * d);
        vstd::arithmetic::div_mod::lemma_mod_bound(2 * m + d, 2 * d);
    }
    assert((2 * d) * q == 2 * (q * d)) by (nonlinear_arith);
    assert((-q) * d == -(q * d)) by (nonlinear_arith);
}

/// The power is a strength between 0 and 15, whatever the light, the mode
/// and the time.
pub proof fn lemma_power_range(internal_light: int, inverted: bool, eased_cosine: int)
    ensures
        0 <= compute_power(internal_light, inverted, eased_cosine) <= MAX_POWER,
{
}

/// Light below zero counts as no light: holding the light at zero first
/// gives the same power.
pub proof fn lemma_power_of_light_below_zero(internal_light: int, inverted: bool, eased_cosine: int)
    requires
        internal_light <= 0,
    ensures
        compute_power(internal_light, inverted, eased_cosine) == compute_power(
            0,
            inverted,
            eased_cosine,
        ),
        compute_power(internal_light, inverted, eased_cosine) == (if inverted {
            MAX_POWER as int
        } else {
            0
        }),
{
}

/// An inverted detector emits what the light leaves of 15.
pub proof fn lemma_power_inverted(internal_light: int, eased_cosine: int)
    requires
        0 <= internal_light <= MAX_POWER,
    ensures
        compute_power(internal_light, true, eased_cosine) == 15 - internal_light,
{
}

/// With the eased sun angle at zero a detector in its normal mode emits
/// the light itself, up to 15.
pub proof fn lemma_power_at_full_cosine(internal_light: int)
    requires
        internal_light > 0,
    ensures
        compute_power(internal_light, false, UNIT as int) == clamp(
            internal_light,
            0,
            MAX_POWER as int,
        ),
{
    let n = internal_light * 65536;
    assert((2 * n + 65536) / 131072 == internal_light);
}

/// In its normal mode a detector never emits more than the light it gets.
pub proof fn lemma_power_at_most_light(internal_light: int, eased_cosine: int)
    requires
        -UNIT <= eased_cosine <= UNIT,
    ensures
        compute_power(internal_light, false, eased_cosine) <= clamp(
            internal_light,
            0,
            MAX_POWER as int,
        ),
{
    if internal_light > 0 {
        let n = internal_light * eased_cosine;
        assert(n <= internal_light * 65536) by (nonlinear_arith)
            requires
                n == internal_light * eased_cosine,
                internal_light > 0,
                eased_cosine <= 65536,
        ;
    }
}

/// The redstone power for the light that is left, the mode and the cosine
/// of the eased sun angle.
pub fn calculate_power(internal_light: i32, inverted: bool, eased: Cosine) -> (r: PowerLevel)
    ensures
        r@ == compute_power(internal_light as int, inverted, eased@),
{
    proof {
        use_type_invariant(&eased);
    }
    let light: i64 = internal_light as i64;
    let signal: i64 = if inverted {
        15 - light
    } else if light > 0 {
        let cosine: i64 = eased.raw() as i64;
        assert(-2147483647 * 65536 <= light * cosine <= 2147483647 * 65536) by (nonlinear_arith)
            requires
                0 < light <= 2147483647,
                -65536 <= cosine <= 65536,
        ;
        let product: i64 = light * cosine;
        if product >= 0 {
            (2 * product + 65536) / 131072
        } else {
            -((2 * -product + 65536) / 131072)
        }
    } else {
        0
    };
    PowerLevel::clamped(signal)
}

} // verus!

//! From the world's day counter to the sun: the phase of the day, the sun
//! angle with its easing near sunrise and sunset, and the eased angle that
//! the power is taken at.
//!
//! Angles are exact fractions of a turn. The cosines that the formulas
//! need are taken by the caller, of the angles handed out here.

use vstd::prelude::*;
use crate::fixed::{Cosine, Turn, TURN_DENOMINATOR, UNIT};

verus! {

/// The length of one day on the world's day counter.
pub const DAY_LENGTH: i64 = 24000;

/// The quarter of a day by which the phase of the day is shifted.
pub const QUARTER_DAY: i64 = 6000;

/// A half turn: `TURN_DENOMINATOR / 2`.
pub const HALF_TURN: u64 = 23592960000;

/// The fraction of a turn that stands for one step of the day counter:
/// `TURN_DENOMINATOR / DAY_LENGTH`.
pub const TURN_PER_TICK: u64 = 1966080;

/// The fraction of a turn that stands for half a step of a cosine:
/// `TURN_DENOMINATOR / (2 * UNIT)`.
pub const HALF_TURN_PER_UNIT: u64 = 360000;

/// The part of the current day that has passed a quarter of a day before
/// `day_time`, in steps of the day counter: the fractional part of
/// `day_time / 24000 - 1/4`, times 24000.
pub open spec fn day_ticks(day_time: int) -> int {
    (day_time - QUARTER_DAY) % (DAY_LENGTH as int)
}

/// The fraction of the day that `ticks` steps are, as a multiple of
/// `1 / TURN_DENOMINATOR`.
pub open spec fn day_fraction(ticks: int) -> int {
    ticks * TURN_PER_TICK
}

/// The angle whose cosine eases the time of day: the fraction of the day
/// times a half turn.
pub open spec fn easing_angle(day_time: int) -> int {
    day_fraction(day_ticks(day_time)) / 2
}

/// The easing term `1/2 - cosine / 2`, as a multiple of
/// `1 / TURN_DENOMINATOR`.
pub open spec fn easing_term(cosine: int) -> int {
    HALF_TURN - cosine * HALF_TURN_PER_UNIT
}

/// The time of day as a fraction of a turn: with `d` the fraction of the
/// day and `e` the easing term, `(2 d + e) / 3`. `cosine` is the cosine of
/// the easing angle.
pub open spec fn normalize_time_of_day(day_time: int, cosine: int) -> int {
    (2 * day_fraction(day_ticks(day_time)) + easing_term(cosine)) / 3
}

/// The sun angle for a time of day. The sun goes round once a day, so as a
/// fraction of a turn the angle is the time of day itself.
pub open spec fn sun_angle(time_phase: int) -> int {
    time_phase
}

/// The angle that the sun angle is eased towards: none below a half turn,
/// a full turn from there on.
pub open spec fn easing_target(angle: int) -> int {
    if angle < HALF_TURN {
        0
    } else {
        TURN_DENOMINATOR as int
    }
}

/// The sun angle moved a fifth of the way to its target.
pub open spec fn eased_sun_angle(angle: int) -> int {
    (4 * angle + easing_target(angle)) / 5
}

/// The part of the day that has passed lies within one day.
pub proof fn lemma_day_ticks_range(day_time: int)
    ensures
        0 <= day_ticks(day_time) < DAY_LENGTH,
{
}

/// The part of the day that has passed repeats every day.
pub proof fn lemma_day_ticks_periodic(day_time: int)
    ensures
        day_ticks(day_time + DAY_LENGTH) == day_ticks(day_time),
{
}

/// The division by three in the time of day is exact, and so is its
/// spelled-out form.
pub proof fn lemma_time_of_day_exact(day_time: int, cosine: int)
    ensures
        3 * normalize_time_of_day(day_time, cosine) == 2 * day_fraction(day_ticks(day_time))
            + easing_term(cosine),
        normalize_time_of_day(day_time, cosine) == 1310720 * day_ticks(day_time) + 7864320000
            - 120000 * cosine,
{
    lemma_third_of_sum(day_ticks(day_time), cosine);
}

proof fn lemma_third_of_sum(ticks: int, cosine: int)
    ensures
        (2 * day_fraction(ticks) + easing_term(cosine)) / 3 == 1310720 * ticks + 7864320000
            - 120000 * cosine,
        2 * day_fraction(ticks) + easing_term(cosine) == 3 * (1310720 * ticks + 7864320000 - 120000
            * cosine),
{
    let third = 1310720 * ticks + 7864320000 - 120000 * cosine;
    assert(2 * day_fraction(ticks) + easing_term(cosine) == 3 * third);
    assert((3 * third) / 3 == third);
}

/// The time of day is a fraction from 0 up to but not including 1.
pub proof fn lemma_time_of_day_range(day_time: int, cosine: int)
    requires
        -UNIT <= cosine <= UNIT,
    ensures
        0 <= normalize_time_of_day(day_time, cosine) < TURN_DENOMINATOR,
{
    lemma_time_of_day_exact(day_time, cosine);
}

/// The time of day repeats every 24000 steps of the day counter: the
/// easing angle is the same a day later, and with the same cosine so is
/// the time of day.
pub proof fn lemma_time_of_day_periodic(day_time: int, cosine: int)
    ensures
        easing_angle(day_time + DAY_LENGTH) == easing_angle(day_time),
        normalize_time_of_day(day_time + DAY_LENGTH, cosine) == normalize_time_of_day(
            day_time,
            cosine,
        ),
{
}

/// The eased angle is an angle again. Angles below a half turn move
/// towards none, the others towards the full turn.
pub proof fn lemma_eased_sun_angle_range(angle: int)
    requires
        0 <= angle < TURN_DENOMINATOR,
    ensures
        0 <= eased_sun_angle(angle) < TURN_DENOMINATOR,
        angle < HALF_TURN ==> eased_sun_angle(angle) <= angle,
        angle >= HALF_TURN ==> eased_sun_angle(angle) >= angle,
{
}

/// The easing of a time of day is exact: the eased angle is four fifths
/// of the angle and one fifth of the target, with nothing rounded away.
pub proof fn lemma_eased_time_of_day_exact(day_time: int, cosine: int)
    ensures
        ({
            let angle = normalize_time_of_day(day_time, cosine);
            5 * eased_sun_angle(angle) == 4 * angle + easing_target(angle)
        }),
{
    lemma_time_of_day_exact(day_time, cosine);
    let angle = normalize_time_of_day(day_time, cosine);
    let fifth = 262144 * day_ticks(day_time) + 1572864000 - 24000 * cosine;
    assert(angle == 5 * fifth);
    assert(easing_target(angle) == 0 || easing_target(angle) == 5 * 9437184000);
}

/// The scales fit together: a day of steps, two half turns and `2 * UNIT`
/// half steps of a cosine each make one full turn.
pub proof fn lemma_turn_scales()
    ensures
        TURN_PER_TICK * DAY_LENGTH == TURN_DENOMINATOR,
        2 * HALF_TURN == TURN_DENOMINATOR,
        HALF_TURN_PER_UNIT * (2 * UNIT) == TURN_DENOMINATOR,
{
}

/// The part of the current day that has passed a quarter of a day before
/// `day_time`, in steps of the day counter.
pub fn ticks_into_day(day_time: i64) -> (r: u32)
    ensures
        r == day_ticks(day_time as int),
        r < DAY_LENGTH,
{
    let rest: i64 = if day_time >= 0 {
        day_time % DAY_LENGTH
    } else {
        (DAY_LENGTH - 1) - (-(day_time + 1)) % DAY_LENGTH
    };
    let shifted: i64 = rest - QUARTER_DAY;
    if shifted < 0 {
        (shifted + DAY_LENGTH) as u32
    } else {
        shifted as u32
    }
}

/// The angle whose cosine `time_of_day` asks for.
pub fn get_easing_angle(day_time: i64) -> (r: Turn)
    ensures
        r@ == easing_angle(day_time as int),
{
    let ticks: u64 = ticks_into_day(day_time) as u64;
    Turn::from_numerator(ticks * 983040)
}

/// The time of day for the day counter, as a fraction of a turn from 0 up
/// to but not including 1. `easing_cosine` is the cosine of the angle that
/// `get_easing_angle` gives for `day_time`.
pub fn time_of_day(day_time: i64, easing_cosine: Cosine) -> (r: Turn)
    ensures
        r@ == normalize_time_of_day(day_time as int, easing_cosine@),
{
    proof {
        use_type_invariant(&easing_cosine);
    }
    let ticks: i64 = ticks_into_day(day_time) as i64;
    let cosine: i64 = easing_cosine.raw() as i64;
    proof {
        lemma_time_of_day_exact(day_time as int, easing_cosine@);
        lemma_time_of_day_range(day_time as int, easing_cosine@);
    }
    let numerator: i64 = 1310720 * ticks + 7864320000 - 120000 * cosine;
    Turn::from_numerator(numerator as u64)
}

/// The sun angle for the day counter, as a fraction of a turn.
/// `easing_cosine` is the cosine of the angle that `get_easing_angle`
/// gives for `day_time`.
pub fn get_sun_angle(day_time: i64, easing_cosine: Cosine) -> (r: Turn)
    ensures
        r@ == sun_angle(normalize_time_of_day(day_time as int, easing_cosine@)),
{
    time_of_day(day_time, easing_cosine)
}

/// The sun angle moved a fifth of the way to the nearer of no turn and a
/// full turn: the angle at which a detector in its normal mode weighs its
/// light.
pub fn ease_sun_angle(angle: Turn) -> (r: Turn)
    ensures
        r@ == eased_sun_angle(angle@),
{
    proof {
        use_type_invariant(&angle);
    }
    let numerator: u64 = angle.numerator();
    let target: u64 = if numerator < HALF_TURN {
        0
    } else {
        TURN_DENOMINATOR
    };
    Turn::from_numerator((4 * numerator + target) / 5)
}

} // verus!

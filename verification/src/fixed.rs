//! Fixed-point quantities: weather intensities and cosines in steps of
//! `1 / UNIT`, and angles in steps of `1 / TURN_DENOMINATOR` of a turn.

use vstd::prelude::*;

verus! {

/// The raw value that stands for one whole.
pub const UNIT: u32 = 65536;

/// A weather intensity between 0 (none) and 1 (full), in steps of `1 / UNIT`.
#[derive(Clone, Copy, Debug, PartialEq, Eq)]
pub struct Intensity {
    raw: u32,
}

impl View for Intensity {
    type V = int;

    /// The intensity as a multiple of `1 / UNIT`.
    closed spec fn view(&self) -> int {
        self.raw as int
    }
}

impl Intensity {
    /// Valid intensities lie between nothing and one whole.
    #[verifier::type_invariant]
    pub open spec fn wf(self) -> bool {
        0 <= self@ <= UNIT
    }

    /// The intensity `raw / UNIT`, if that is at most 1.
    pub fn new(raw: u32) -> (r: Option<Intensity>)
        ensures
            r.is_some() <==> raw <= UNIT,
            r.is_some() ==> r.unwrap()@ == raw,
    {
        if raw <= UNIT {
            Some(Intensity { raw })
        } else {
            None
        }
    }

    /// No rain, no thunder.
    pub fn zero() -> (r: Intensity)
        ensures
            r@ == 0,
    {
        Intensity { raw: 0 }
    }

    /// Full intensity.
    pub fn full() -> (r: Intensity)
        ensures
            r@ == UNIT,
    {
        Intensity { raw: UNIT }
    }

    /// The intensity as a multiple of `1 / UNIT`.
    pub fn raw(&self) -> (r: u32)
        ensures
            r == self@,
    {
        self.raw
    }
}

/// The cosine of an angle, between -1 and 1, in steps of `1 / UNIT`.
#[derive(Clone, Copy, Debug, PartialEq, Eq)]
pub struct Cosine {
    raw: i32,
}

impl View for Cosine {
    type V = int;

    /// The cosine as a multiple of `1 / UNIT`.
    closed spec fn view(&self) -> int {
        self.raw as int
    }
}

impl Cosine {
    /// Valid cosines lie between minus one and one.
    #[verifier::type_invariant]
    pub open spec fn wf(self) -> bool {
        -UNIT <= self@ <= UNIT
    }

    /// The cosine `raw / UNIT`, if its magnitude is at most 1.
    pub fn new(raw: i32) -> (r: Option<Cosine>)
        ensures
            r.is_some() <==> -UNIT <= raw <= UNIT,
            r.is_some() ==> r.unwrap()@ == raw,
    {
        if -65536 <= raw && raw <= 65536 {
            Some(Cosine { raw })
        } else {
            None
        }
    }

    /// The cosine as a multiple of `1 / UNIT`.
    pub fn raw(&self) -> (r: i32)
        ensures
            r == self@,
    {
        self.raw
    }
}

/// The raw value that stands for one full turn.
pub const TURN_DENOMINATOR: u64 = 47185920000;

/// An angle as a fraction of a full turn, from 0 up to but not including 1,
/// in steps of `1 / TURN_DENOMINATOR`. In radians it is
/// `2 * pi * numerator / TURN_DENOMINATOR`.
#[derive(Clone, Copy, Debug, PartialEq, Eq)]
pub struct Turn {
    numerator: u64,
}

impl View for Turn {
    type V = int;

    /// The angle as a multiple of `1 / TURN_DENOMINATOR` of a turn.
    closed spec fn view(&self) -> int {
        self.numerator as int
    }
}

impl Turn {
    /// Valid angles are less than a full turn.
    #[verifier::type_invariant]
    pub open spec fn wf(self) -> bool {
        0 <= self@ < TURN_DENOMINATOR
    }

    /// The angle `numerator / TURN_DENOMINATOR` of a turn, if that is less
    /// than a full turn.
    pub fn new(numerator: u64) -> (r: Option<Turn>)
        ensures
            r.is_some() <==> numerator < TURN_DENOMINATOR,
            r.is_some() ==> r.unwrap()@ == numerator,
    {
        if numerator < TURN_DENOMINATOR {
            Some(Turn { numerator })
        } else {
            None
        }
    }

    /// The angle `numerator / TURN_DENOMINATOR` of a turn.
    pub(crate) fn from_numerator(numerator: u64) -> (r: Turn)
        requires
            numerator < TURN_DENOMINATOR,
        ensures
            r@ == numerator,
    {
        Turn { numerator }
    }

    /// The angle as a multiple of `1 / TURN_DENOMINATOR` of a turn.
    pub fn numerator(&self) -> (r: u64)
        ensures
            r == self@,
    {
        self.numerator
    }
}

} // verus!

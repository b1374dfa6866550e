//! What a detector persists: its mode and the power it emits, and how the
//! pair is numbered among the block's stored variants.

use vstd::prelude::*;

verus! {

/// The strongest signal a detector can emit.
pub const MAX_POWER: u8 = 15;

/// How many stored variants a detector has: two modes times sixteen powers.
pub const STATE_COUNT: u16 = 32;

/// The integer nearest to `x` within `lo..=hi`.
pub open spec fn clamp(x: int, lo: int, hi: int) -> int {
    if x < lo {
        lo
    } else if x > hi {
        hi
    } else {
        x
    }
}

/// A redstone signal strength between 0 and 15.
#[derive(Clone, Copy, Debug, PartialEq, Eq)]
pub struct PowerLevel {
    level: u8,
}

impl View for PowerLevel {
    type V = int;

    /// The signal strength as a number.
    closed spec fn view(&self) -> int {
        self.level as int
    }
}

impl PowerLevel {
    /// Valid power levels lie between 0 and 15.
    #[verifier::type_invariant]
    pub open spec fn wf(self) -> bool {
        0 <= self@ <= MAX_POWER
    }

    /// The power level `level`, if that is at most 15.
    pub fn new(level: u8) -> (r: Option<PowerLevel>)
        ensures
            r.is_some() <==> level <= MAX_POWER,
            r.is_some() ==> r.unwrap()@ == level,
    {
        if level <= MAX_POWER {
            Some(PowerLevel { level })
        } else {
            None
        }
    }

    /// The power level nearest to `signal`: negative signals give 0, signals
    /// above 15 give 15.
    pub fn clamped(signal: i64) -> (r: PowerLevel)
        ensures
            r@ == clamp(signal as int, 0, MAX_POWER as int),
    {
        if signal < 0 {
            PowerLevel { level: 0 }
        } else if signal > 15 {
            PowerLevel { level: 15 }
        } else {
            PowerLevel { level: signal as u8 }
        }
    }

    /// The signal strength as a number.
    pub fn level(&self) -> (r: u8)
        ensures
            r == self@,
    {
        self.level
    }

    /// Two power levels of the same strength are the same power level.
    pub proof fn lemma_view_injective(a: PowerLevel, b: PowerLevel)
        requires
            a@ == b@,
        ensures
            a == b,
    {
    }
}

/// The persisted state of one detector.
#[derive(Clone, Copy, Debug, PartialEq, Eq)]
pub struct DetectorState {
    /// The operating mode: an inverted detector is strongest in darkness.
    pub inverted: bool,
    /// The emitted signal strength.
    pub power: PowerLevel,
}

/// What a detector state says: the mode, and the power as a number.
pub struct StateModel {
    pub inverted: bool,
    pub power: int,
}

impl View for DetectorState {
    type V = StateModel;

    open spec fn view(&self) -> StateModel {
        StateModel { inverted: self.inverted, power: self.power@ }
    }
}

impl StateModel {
    /// A state is valid when its power lies between 0 and 15.
    pub open spec fn wf(self) -> bool {
        0 <= self.power <= MAX_POWER
    }

    /// The same state in the other mode.
    pub open spec fn toggled(self) -> StateModel {
        StateModel { inverted: !self.inverted, power: self.power }
    }

    /// The same state with another power.
    pub open spec fn with_power(self, power: int) -> StateModel {
        StateModel { inverted: self.inverted, power }
    }

    /// The number of the state among the block's stored variants: the
    /// sixteen inverted variants come first, each group in order of power.
    pub open spec fn index(self) -> int {
        (if self.inverted { 0int } else { 16int }) + self.power
    }

    /// The state that is stored under `index`.
    pub open spec fn at(index: int) -> StateModel {
        StateModel { inverted: index < 16, power: index % 16 }
    }

    /// The numbers of the valid states are those below 32.
    pub proof fn lemma_index_range(self)
        requires
            self.wf(),
        ensures
            0 <= self.index() < STATE_COUNT,
    {
    }

    /// Every number below 32 has a valid state.
    pub proof fn lemma_at_wf(index: int)
        requires
            0 <= index < STATE_COUNT,
        ensures
            StateModel::at(index).wf(),
    {
    }

    /// Numbering a state and reading the number back gives the state.
    pub proof fn lemma_index_round_trip(self)
        requires
            self.wf(),
        ensures
            StateModel::at(self.index()) == self,
    {
    }

    /// Reading a number and numbering the state gives the number.
    pub proof fn lemma_at_round_trip(index: int)
        requires
            0 <= index < STATE_COUNT,
        ensures
            StateModel::at(index).index() == index,
    {
    }
}

impl DetectorState {
    /// The state with the given mode and power.
    pub fn new(inverted: bool, power: PowerLevel) -> (r: DetectorState)
        ensures
            r.inverted == inverted,
            r.power == power,
    {
        DetectorState { inverted, power }
    }

    /// The same state in the other mode; the power is kept.
    pub fn toggled(&self) -> (r: DetectorState)
        ensures
            r@ == self@.toggled(),
            r.power == self.power,
    {
        DetectorState { inverted: !self.inverted, power: self.power }
    }

    /// The number of this state among the block's stored variants.
    pub fn to_index(&self) -> (r: u16)
        ensures
            r == self@.index(),
            r < STATE_COUNT,
    {
        proof {
            use_type_invariant(&self.power);
        }
        let base: u16 = if self.inverted {
            0
        } else {
            16
        };
        base + self.power.level() as u16
    }

    /// The state that is stored under `index`, if there is one.
    pub fn from_index(index: u16) -> (r: Option<DetectorState>)
        ensures
            r.is_some() <==> index < STATE_COUNT,
            r.is_some() ==> r.unwrap()@ == StateModel::at(index as int),
    {
        if index < 16 {
            Some(DetectorState { inverted: true, power: PowerLevel::clamped(index as i64) })
        } else if index < STATE_COUNT {
            Some(DetectorState { inverted: false, power: PowerLevel::clamped((index - 16) as i64) })
        } else {
            None
        }
    }

    /// Two states that say the same are the same state.
    pub proof fn lemma_view_injective(a: DetectorState, b: DetectorState)
        requires
            a@ == b@,
        ensures
            a == b,
    {
        PowerLevel::lemma_view_injective(a.power, b.power);
    }
}

} // verus!

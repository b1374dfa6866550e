//! The detector's behaviour: what it asks of the world when it is placed,
//! when its periodic tick fires, when a player uses it, and what it
//! answers when asked for its power.
//!
//! Every operation takes the stored state and a fresh snapshot of the
//! environment, and returns the state writes and the tick to request. The
//! caller performs them in the order given.

use vstd::prelude::*;
use crate::evaluator::{
    calculate_internal_light,
    calculate_power,
    compute_power,
    internal_light,
    sky_darken,
};
use crate::fixed::{Cosine, Intensity};
use crate::state::{DetectorState, PowerLevel, StateModel, MAX_POWER};

verus! {

/// The number of ticks between two evaluations of a detector.
pub const TICK_INTERVAL: u8 = 20;

/// How far a state write is made known.
#[derive(Clone, Copy, Debug, PartialEq, Eq)]
pub enum NotifyStrength {
    /// Only those that listen to the block itself are told.
    ListenersOnly,
    /// The neighbours are updated as well.
    NotifyAll,
}

/// The urgency of a scheduled tick.
#[derive(Clone, Copy, Debug, PartialEq, Eq)]
pub enum TickPriority {
    ExtremelyHigh,
    VeryHigh,
    High,
    Normal,
    Low,
    VeryLow,
    ExtremelyLow,
}

/// A tick to schedule for the detector's position.
#[derive(Clone, Copy, Debug, PartialEq, Eq)]
pub struct TickRequest {
    /// The number of ticks to wait.
    pub delay: u8,
    /// The urgency among the ticks due at the same time.
    pub priority: TickPriority,
}

/// A state to store at the detector's position.
#[derive(Clone, Copy, Debug, PartialEq, Eq)]
pub struct StateWrite {
    /// The state to store.
    pub state: DetectorState,
    /// How far the change is made known.
    pub notify: NotifyStrength,
}

/// What the caller of an interaction is told.
#[derive(Clone, Copy, Debug, PartialEq, Eq)]
pub enum BlockActionResult {
    /// The interaction was handled.
    Success,
    /// The interaction was not handled here.
    Pass,
    /// The interaction was refused.
    Fail,
}

/// The environment of a detector at one moment. It is read anew for every
/// evaluation.
#[derive(Clone, Copy, Debug, PartialEq, Eq)]
pub struct EnvironmentSnapshot {
    /// The raw sky light at the detector's position.
    pub sky_light: u8,
    /// How hard it rains.
    pub rain_level: Intensity,
    /// How hard it thunders.
    pub thunder_level: Intensity,
    /// The cosine of the sun angle.
    pub sun_cosine: Cosine,
    /// The cosine of the eased sun angle.
    pub eased_cosine: Cosine,
}

impl EnvironmentSnapshot {
    /// The light that is left of the sky light in this environment.
    pub open spec fn light(self) -> int {
        internal_light(
            self.sky_light as int,
            sky_darken(self.sun_cosine@, self.rain_level@, self.thunder_level@),
        )
    }

    /// The power that a detector of the given mode emits in this
    /// environment.
    pub open spec fn power(self, inverted: bool) -> int {
        compute_power(self.light(), inverted, self.eased_cosine@)
    }
}

/// The tick that keeps a detector evaluating itself.
pub open spec fn periodic_tick() -> TickRequest {
    TickRequest { delay: TICK_INTERVAL, priority: TickPriority::Normal }
}

/// The state after an evaluation: the mode is kept, the power is that of
/// the environment.
pub open spec fn evaluated(state: StateModel, env: EnvironmentSnapshot) -> StateModel {
    state.with_power(env.power(state.inverted))
}

/// Whether `write` is what an evaluation of `state` in `env` asks for:
/// nothing where the power stays, else the state with the new power, made
/// known to all.
pub open spec fn is_power_write(
    write: Option<StateWrite>,
    state: StateModel,
    env: EnvironmentSnapshot,
) -> bool {
    match write {
        None => env.power(state.inverted) == state.power,
        Some(w) => env.power(state.inverted) != state.power && w.state@ == evaluated(state, env)
            && w.notify == NotifyStrength::NotifyAll,
    }
}

/// What a periodic tick asks of the world.
#[derive(Clone, Copy, Debug, PartialEq, Eq)]
pub struct TickOutcome {
    /// The state to store, if the power has changed.
    pub write: Option<StateWrite>,
    /// The next tick to schedule.
    pub rearm: TickRequest,
}

/// What a use by a player asks of the world.
#[derive(Clone, Copy, Debug, PartialEq, Eq)]
pub struct UseOutcome {
    /// The state in the other mode, to store first.
    pub mode_write: StateWrite,
    /// The state with the new power, to store after that, if the power has
    /// changed.
    pub power_write: Option<StateWrite>,
    /// What the player's side is told.
    pub result: BlockActionResult,
}

/// The state that is stored once a power write, if any, was performed on
/// `before`.
pub open spec fn stored_after(before: StateModel, write: Option<StateWrite>) -> StateModel {
    match write {
        None => before,
        Some(w) => w.state@,
    }
}

/// The power of a detector of the given mode in the given environment.
pub fn evaluate(env: &EnvironmentSnapshot, inverted: bool) -> (r: PowerLevel)
    ensures
        r@ == env.power(inverted),
{
    let light: i32 = calculate_internal_light(
        env.sky_light,
        env.sun_cosine,
        env.rain_level,
        env.thunder_level,
    );
    calculate_power(light, inverted, env.eased_cosine)
}

/// Evaluates the detector's power anew and asks for a state write only if
/// it differs from `current_power`.
pub fn update_state(inverted: bool, current_power: PowerLevel, env: &EnvironmentSnapshot) -> (r:
    Option<StateWrite>)
    ensures
        is_power_write(r, (StateModel { inverted, power: current_power@ }), *env),
{
    let new_power: PowerLevel = evaluate(env, inverted);
    if new_power.level() != current_power.level() {
        Some(
            StateWrite {
                state: DetectorState::new(inverted, new_power),
                notify: NotifyStrength::NotifyAll,
            },
        )
    } else {
        None
    }
}

/// The daylight detector block.
#[derive(Clone, Copy, Debug, PartialEq, Eq)]
pub struct DaylightDetectorBlock;

impl DaylightDetectorBlock {
    /// A detector was placed. Under an open sky it starts to evaluate
    /// itself; in a dimension without sky light it stays inert and no tick
    /// is requested.
    pub fn placed(&self, has_skylight: bool) -> (r: Option<TickRequest>)
        ensures
            has_skylight ==> r == Some(periodic_tick()),
            !has_skylight ==> r.is_none(),
    {
        if has_skylight {
            Some(TickRequest { delay: TICK_INTERVAL, priority: TickPriority::Normal })
        } else {
            None
        }
    }

    /// The periodic tick fired: the power is evaluated anew and written if
    /// it has changed, and the next tick is requested in any case.
    pub fn on_scheduled_tick(&self, state: DetectorState, env: &EnvironmentSnapshot) -> (r:
        TickOutcome)
        ensures
            is_power_write(r.write, state@, *env),
            r.rearm == periodic_tick(),
    {
        let write: Option<StateWrite> = update_state(state.inverted, state.power, env);
        TickOutcome {
            write,
            rearm: TickRequest { delay: TICK_INTERVAL, priority: TickPriority::Normal },
        }
    }

    /// A player used the detector: the mode is flipped and written at
    /// once with the power as it was, made known to listeners only; then
    /// the power is evaluated for the new mode and written if it differs.
    pub fn normal_use(&self, state: DetectorState, env: &EnvironmentSnapshot) -> (r: UseOutcome)
        ensures
            r.mode_write.state@ == state@.toggled(),
            r.mode_write.state.power == state.power,
            r.mode_write.notify == NotifyStrength::ListenersOnly,
            is_power_write(r.power_write, state@.toggled(), *env),
            r.result == BlockActionResult::Success,
    {
        let toggled: DetectorState = state.toggled();
        let power_write: Option<StateWrite> = update_state(toggled.inverted, toggled.power, env);
        UseOutcome {
            mode_write: StateWrite { state: toggled, notify: NotifyStrength::ListenersOnly },
            power_write,
            result: BlockActionResult::Success,
        }
    }

    /// A detector always takes part in redstone.
    pub fn emits_redstone_power(&self) -> (r: bool)
        ensures
            r,
    {
        true
    }

    /// The weak power of a detector is the power it has stored; nothing is
    /// evaluated.
    pub fn get_weak_redstone_power(&self, state: DetectorState) -> (r: u8)
        ensures
            r == state@.power,
    {
        state.power.level()
    }
}

/// The state after a use by a player: the other mode, with the power of
/// the environment for that mode.
pub open spec fn used(state: StateModel, env: EnvironmentSnapshot) -> StateModel {
    evaluated(state.toggled(), env)
}

/// Performing the write that an evaluation asks for, or none where it
/// asks for none, leaves the evaluated state stored.
pub proof fn lemma_write_stores_evaluated(
    write: Option<StateWrite>,
    state: StateModel,
    env: EnvironmentSnapshot,
)
    requires
        is_power_write(write, state, env),
    ensures
        stored_after(state, write) == evaluated(state, env),
{
}

/// An evaluated state is valid, and its power is the one computed for its
/// mode in the environment.
pub proof fn lemma_evaluated_wf(state: StateModel, env: EnvironmentSnapshot)
    ensures
        evaluated(state, env).wf(),
        evaluated(state, env).inverted == state.inverted,
        evaluated(state, env).power == env.power(state.inverted),
{
}

/// Evaluating again in an unchanged environment, with the mode unchanged,
/// writes nothing: only `None` is a power write for the evaluated state.
pub proof fn lemma_reevaluation_writes_nothing(
    write: Option<StateWrite>,
    state: StateModel,
    env: EnvironmentSnapshot,
)
    requires
        is_power_write(write, evaluated(state, env), env),
    ensures
        write.is_none(),
        evaluated(evaluated(state, env), env) == evaluated(state, env),
{
}

/// A state is written exactly when the power differs from the stored one.
pub proof fn lemma_write_only_on_change(
    write: Option<StateWrite>,
    state: StateModel,
    env: EnvironmentSnapshot,
)
    requires
        is_power_write(write, state, env),
    ensures
        write.is_some() <==> env.power(state.inverted) != state.power,
{
}

/// A use changes the mode at once and nothing else: the first write
/// holds the other mode with the power as it was. The state stored in the
/// end has the power computed for the new mode.
pub proof fn lemma_use_flips_mode_then_power(state: StateModel, env: EnvironmentSnapshot)
    ensures
        state.toggled().inverted == !state.inverted,
        state.toggled().power == state.power,
        used(state, env).inverted == !state.inverted,
        used(state, env).power == env.power(!state.inverted),
{
}

/// Two uses in a row bring the mode back. The power may differ in
/// between; after the second use it is the power computed for the mode
/// the detector started in, in the environment of the second use.
pub proof fn lemma_use_twice_restores_mode(
    state: StateModel,
    first: EnvironmentSnapshot,
    second: EnvironmentSnapshot,
)
    ensures
        used(used(state, first), second).inverted == state.inverted,
        used(used(state, first), second).power == second.power(state.inverted),
        used(used(state, first), second) == evaluated(state, second),
{
}

} // verus!

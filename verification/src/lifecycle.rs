//! A detector over time: what is stored for it and whether a tick is
//! pending, from its placement through any run of ticks and uses.
//!
//! The scheduler fires a tick only where one was requested. That is all
//! this model takes from it.

use vstd::prelude::*;
use crate::controller::{evaluated, used, EnvironmentSnapshot};
use crate::state::StateModel;

verus! {

/// What the world holds of one detector.
pub struct Lifecycle {
    /// The stored state.
    pub state: StateModel,
    /// Whether a tick is scheduled for the detector.
    pub tick_pending: bool,
}

/// What can happen to a placed detector, with the environment at that
/// moment.
pub enum Event {
    /// The time of a scheduled tick has come.
    TickDue(EnvironmentSnapshot),
    /// A player used the detector.
    Used(EnvironmentSnapshot),
}

impl Lifecycle {
    /// A detector right after its placement with `state`: a tick is
    /// pending exactly under an open sky.
    pub open spec fn placed(state: StateModel, has_skylight: bool) -> Lifecycle {
        Lifecycle { state, tick_pending: has_skylight }
    }

    /// The detector after one event. A due tick does nothing unless one is
    /// pending; where it fires, the state is evaluated and the next tick
    /// is pending. A use evaluates the state in the other mode and leaves
    /// the schedule alone.
    pub open spec fn after(self, event: Event) -> Lifecycle {
        match event {
            Event::TickDue(env) => if self.tick_pending {
                Lifecycle { state: evaluated(self.state, env), tick_pending: true }
            } else {
                self
            },
            Event::Used(env) => Lifecycle {
                state: used(self.state, env),
                tick_pending: self.tick_pending,
            },
        }
    }

    /// The detector after a run of events, the first event first.
    pub open spec fn after_all(self, events: Seq<Event>) -> Lifecycle
        decreases events.len(),
    {
        if events.len() == 0 {
            self
        } else {
            self.after_all(events.drop_last()).after(events.last())
        }
    }
}

/// Whether no player uses the detector in the run.
pub open spec fn untouched(events: Seq<Event>) -> bool {
    forall|i: int| 0 <= i < events.len() ==> (#[trigger] events[i]) is TickDue
}

/// A run of events never changes whether a tick is pending: a detector
/// placed under an open sky keeps ticking, one placed without never
/// starts.
pub proof fn lemma_schedule_is_settled_at_placement(
    state: StateModel,
    has_skylight: bool,
    events: Seq<Event>,
)
    ensures
        Lifecycle::placed(state, has_skylight).after_all(events).tick_pending == has_skylight,
    decreases events.len(),
{
    if events.len() > 0 {
        lemma_schedule_is_settled_at_placement(state, has_skylight, events.drop_last());
    }
}

/// A detector placed in a dimension without sky light is inert: no tick
/// is ever pending, and as long as no player uses it its state stays what
/// it was.
pub proof fn lemma_inert_without_skylight(state: StateModel, events: Seq<Event>)
    ensures
        !Lifecycle::placed(state, false).after_all(events).tick_pending,
        untouched(events) ==> Lifecycle::placed(state, false).after_all(events).state == state,
    decreases events.len(),
{
    lemma_schedule_is_settled_at_placement(state, false, events);
    if events.len() > 0 {
        let earlier = events.drop_last();
        lemma_inert_without_skylight(state, earlier);
        lemma_schedule_is_settled_at_placement(state, false, earlier);
        if untouched(events) {
            assert forall|i: int| 0 <= i < earlier.len() implies (#[trigger] earlier[i])
                is TickDue by {
                assert(earlier[i] == events[i]);
            }
            assert(events.last() == events[events.len() - 1]);
        }
    }
}

/// Under an open sky the stored power follows the environment: after any
/// event the power is the one computed for the stored mode in the
/// environment of that event.
pub proof fn lemma_power_follows_environment(
    state: StateModel,
    events: Seq<Event>,
    env: EnvironmentSnapshot,
)
    requires
        events.len() > 0,
        events.last() == Event::TickDue(env) || events.last() == Event::Used(env),
    ensures
        ({
            let end = Lifecycle::placed(state, true).after_all(events);
            end.state.power == env.power(end.state.inverted) && end.state.wf()
        }),
{
    lemma_schedule_is_settled_at_placement(state, true, events.drop_last());
}

} // verus!

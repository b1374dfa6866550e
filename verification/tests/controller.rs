use daylight_detector::controller::{
    evaluate, update_state, BlockActionResult, DaylightDetectorBlock, EnvironmentSnapshot,
    NotifyStrength, StateWrite, TickPriority, TickRequest, TICK_INTERVAL,
};
use daylight_detector::fixed::{Cosine, Intensity};
use daylight_detector::state::{DetectorState, PowerLevel, STATE_COUNT};

fn power(level: u8) -> PowerLevel {
    PowerLevel::new(level).unwrap()
}

fn state(inverted: bool, level: u8) -> DetectorState {
    DetectorState::new(inverted, power(level))
}

fn snapshot(sky_light: u8, rain: u32, thunder: u32, sun: i32, eased: i32) -> EnvironmentSnapshot {
    EnvironmentSnapshot {
        sky_light,
        rain_level: Intensity::new(rain).unwrap(),
        thunder_level: Intensity::new(thunder).unwrap(),
        sun_cosine: Cosine::new(sun).unwrap(),
        eased_cosine: Cosine::new(eased).unwrap(),
    }
}

fn noon() -> EnvironmentSnapshot {
    snapshot(15, 0, 0, 65536, 65536)
}

fn midnight() -> EnvironmentSnapshot {
    snapshot(15, 0, 0, -65536, -53020)
}

fn dusk() -> EnvironmentSnapshot {
    snapshot(15, 0, 0, -3971, 17206)
}

fn stored_after(before: DetectorState, write: Option<StateWrite>) -> DetectorState {
    match write {
        Some(w) => w.state,
        None => before,
    }
}

fn the_tick() -> TickRequest {
    TickRequest { delay: 20, priority: TickPriority::Normal }
}

#[test]
fn state_index_puts_inverted_first() {
    assert_eq!(state(true, 0).to_index(), 0);
    assert_eq!(state(true, 15).to_index(), 15);
    assert_eq!(state(false, 0).to_index(), 16);
    assert_eq!(state(false, 7).to_index(), 23);
    assert_eq!(state(false, 15).to_index(), 31);
}

#[test]
fn state_index_round_trip() {
    for inverted in [false, true] {
        for level in 0u8..=15 {
            let s = state(inverted, level);
            assert_eq!(DetectorState::from_index(s.to_index()), Some(s));
        }
    }
    for index in 0..STATE_COUNT {
        assert_eq!(DetectorState::from_index(index).unwrap().to_index(), index);
    }
}

#[test]
fn state_index_out_of_range() {
    assert_eq!(DetectorState::from_index(32), None);
    assert_eq!(DetectorState::from_index(33), None);
    assert_eq!(DetectorState::from_index(u16::MAX), None);
}

#[test]
fn toggled_state_keeps_the_power() {
    assert_eq!(state(false, 9).toggled(), state(true, 9));
    assert_eq!(state(true, 0).toggled(), state(false, 0));
    assert_eq!(state(true, 4).toggled().toggled(), state(true, 4));
}

#[test]
fn evaluate_exact_values() {
    assert_eq!(evaluate(&noon(), false).level(), 15);
    assert_eq!(evaluate(&noon(), true).level(), 0);
    assert_eq!(evaluate(&midnight(), false).level(), 0);
    assert_eq!(evaluate(&midnight(), true).level(), 11);
    assert_eq!(evaluate(&dusk(), false).level(), 2);
    assert_eq!(evaluate(&dusk(), true).level(), 6);
    assert_eq!(evaluate(&snapshot(15, 65536, 65536, 53966, 58050), false).level(), 9);
    assert_eq!(evaluate(&snapshot(0, 0, 0, -65536, 0), true).level(), 15);
}

#[test]
fn placed_under_an_open_sky_requests_a_tick() {
    let block = DaylightDetectorBlock;
    assert_eq!(block.placed(true), Some(the_tick()));
    assert_eq!(TICK_INTERVAL, 20);
}

#[test]
fn placed_without_sky_light_requests_nothing() {
    let block = DaylightDetectorBlock;
    assert_eq!(block.placed(false), None);
}

#[test]
fn update_state_writes_a_changed_power() {
    let write = update_state(false, power(0), &noon());
    assert_eq!(
        write,
        Some(StateWrite { state: state(false, 15), notify: NotifyStrength::NotifyAll })
    );
    let write = update_state(true, power(3), &midnight());
    assert_eq!(
        write,
        Some(StateWrite { state: state(true, 11), notify: NotifyStrength::NotifyAll })
    );
}

#[test]
fn update_state_writes_nothing_for_the_same_power() {
    assert_eq!(update_state(false, power(15), &noon()), None);
    assert_eq!(update_state(true, power(0), &noon()), None);
    assert_eq!(update_state(false, power(0), &midnight()), None);
    assert_eq!(update_state(false, power(2), &dusk()), None);
}

#[test]
fn tick_writes_on_change_and_always_rearms() {
    let block = DaylightDetectorBlock;
    let outcome = block.on_scheduled_tick(state(false, 15), &dusk());
    assert_eq!(
        outcome.write,
        Some(StateWrite { state: state(false, 2), notify: NotifyStrength::NotifyAll })
    );
    assert_eq!(outcome.rearm, the_tick());
    let outcome = block.on_scheduled_tick(state(false, 2), &dusk());
    assert_eq!(outcome.write, None);
    assert_eq!(outcome.rearm, the_tick());
}

#[test]
fn tick_twice_in_one_environment_writes_once() {
    let block = DaylightDetectorBlock;
    for env in [noon(), midnight(), dusk()] {
        for inverted in [false, true] {
            for level in 0u8..=15 {
                let before = state(inverted, level);
                let first = block.on_scheduled_tick(before, &env);
                let stored = stored_after(before, first.write);
                assert_eq!(stored.inverted, inverted);
                assert_eq!(stored.power, evaluate(&env, inverted));
                let second = block.on_scheduled_tick(stored, &env);
                assert_eq!(second.write, None);
                assert_eq!(second.rearm, the_tick());
            }
        }
    }
}

#[test]
fn use_flips_the_mode_first() {
    let block = DaylightDetectorBlock;
    let outcome = block.normal_use(state(false, 15), &noon());
    assert_eq!(
        outcome.mode_write,
        StateWrite { state: state(true, 15), notify: NotifyStrength::ListenersOnly }
    );
    assert_eq!(
        outcome.power_write,
        Some(StateWrite { state: state(true, 0), notify: NotifyStrength::NotifyAll })
    );
    assert_eq!(outcome.result, BlockActionResult::Success);
}

#[test]
fn use_writes_the_power_only_if_it_changes() {
    let block = DaylightDetectorBlock;
    let outcome = block.normal_use(state(true, 15), &noon());
    assert_eq!(
        outcome.mode_write,
        StateWrite { state: state(false, 15), notify: NotifyStrength::ListenersOnly }
    );
    assert_eq!(outcome.power_write, None);
    assert_eq!(outcome.result, BlockActionResult::Success);
}

#[test]
fn use_twice_restores_the_mode() {
    let block = DaylightDetectorBlock;
    for (first_env, second_env) in [(noon(), noon()), (noon(), dusk()), (midnight(), noon())] {
        for inverted in [false, true] {
            for level in [0u8, 2, 11, 15] {
                let before = state(inverted, level);
                let first = block.normal_use(before, &first_env);
                assert_eq!(first.mode_write.state, state(!inverted, level));
                let between = stored_after(first.mode_write.state, first.power_write);
                assert_eq!(between.inverted, !inverted);
                assert_eq!(between.power, evaluate(&first_env, !inverted));
                let second = block.normal_use(between, &second_env);
                let after = stored_after(second.mode_write.state, second.power_write);
                assert_eq!(after.inverted, inverted);
                assert_eq!(after.power, evaluate(&second_env, inverted));
            }
        }
    }
}

#[test]
fn scenario_toggle_changes_only_the_mode_before_the_power() {
    let block = DaylightDetectorBlock;
    for env in [noon(), midnight(), dusk(), snapshot(7, 30000, 65536, 20000, 40000)] {
        for inverted in [false, true] {
            for level in 0u8..=15 {
                let before = state(inverted, level);
                let outcome = block.normal_use(before, &env);
                assert_eq!(outcome.mode_write.state.inverted, !inverted);
                assert_eq!(outcome.mode_write.state.power, before.power);
                assert_eq!(outcome.mode_write.notify, NotifyStrength::ListenersOnly);
                let stored = stored_after(outcome.mode_write.state, outcome.power_write);
                assert_eq!(stored.inverted, !inverted);
                assert_eq!(stored.power, evaluate(&env, !inverted));
                if let Some(write) = outcome.power_write {
                    assert_eq!(write.notify, NotifyStrength::NotifyAll);
                    assert_ne!(write.state.power, before.power);
                }
            }
        }
    }
}

#[test]
fn detector_always_emits_redstone_power() {
    assert!(DaylightDetectorBlock.emits_redstone_power());
}

#[test]
fn weak_power_is_the_stored_power() {
    let block = DaylightDetectorBlock;
    for level in 0u8..=15 {
        assert_eq!(block.get_weak_redstone_power(state(false, level)), level);
        assert_eq!(block.get_weak_redstone_power(state(true, level)), level);
    }
}

use province_sim::context::SimulationContext;
use province_sim::speed::ControlEvent;
use province_sim::state::SimulationState;

const MS: u64 = 1_000_000;

fn playing_at(level: u64) -> SimulationContext {
    let mut context = SimulationContext::new();
    context.set_speed(level);
    context
}

#[test]
fn context_starts_paused_at_speed_zero() {
    let context = SimulationContext::new();
    assert_eq!(context.speed().level(), 0);
    assert_eq!(context.state(), SimulationState::Paused);
    assert_eq!(context.population(), 10000);
    assert_eq!(context.province().pops(), 10000);
    assert_eq!(context.clock().accumulated(), 0);
    assert_eq!(context.clock().period(), 1_200 * MS);
}

#[test]
fn setting_speed_zero_pauses() {
    for from in 0..=5u64 {
        let mut context = playing_at(from);
        context.set_speed(0);
        assert_eq!(context.speed().level(), 0);
        assert_eq!(context.state(), SimulationState::Paused);
    }
}

#[test]
fn setting_a_positive_speed_from_zero_plays() {
    for level in 1..=5u64 {
        let mut context = SimulationContext::new();
        context.set_speed(level);
        assert_eq!(context.speed().level(), level);
        assert_eq!(context.state(), SimulationState::Playing);
    }
}

#[test]
fn set_speed_clamps_the_request() {
    let mut context = SimulationContext::new();
    context.set_speed(9);
    assert_eq!(context.speed().level(), 5);
    assert_eq!(context.state(), SimulationState::Playing);
    assert_eq!(context.clock().period(), 200 * MS);
}

#[test]
fn state_is_paused_exactly_at_speed_zero() {
    let mut context = SimulationContext::new();
    let events = [
        ControlEvent::DecrementSpeed,
        ControlEvent::IncrementSpeed,
        ControlEvent::IncrementSpeed,
        ControlEvent::DecrementSpeed,
        ControlEvent::DecrementSpeed,
        ControlEvent::DecrementSpeed,
        ControlEvent::IncrementSpeed,
        ControlEvent::IncrementSpeed,
        ControlEvent::IncrementSpeed,
        ControlEvent::IncrementSpeed,
        ControlEvent::IncrementSpeed,
        ControlEvent::IncrementSpeed,
        ControlEvent::IncrementSpeed,
    ];
    for event in events {
        context.handle(event);
        let paused = context.state() == SimulationState::Paused;
        assert_eq!(paused, context.speed().level() == 0);
        assert_eq!(context.clock().period(), context.speed().tick_period());
    }
    assert_eq!(context.speed().level(), 5);
}

#[test]
fn pausing_twice_is_a_no_op() {
    let mut context = playing_at(1);
    context.decrement_speed();
    assert_eq!(context.state(), SimulationState::Paused);
    context.decrement_speed();
    assert_eq!(context.state(), SimulationState::Paused);
    assert_eq!(context.speed().level(), 0);
}

#[test]
fn playing_stays_playing_between_positive_speeds() {
    let mut context = playing_at(3);
    context.decrement_speed();
    assert_eq!(context.speed().level(), 2);
    assert_eq!(context.state(), SimulationState::Playing);
    context.increment_speed();
    assert_eq!(context.state(), SimulationState::Playing);
}

#[test]
fn each_speed_change_sets_the_period() {
    let mut context = SimulationContext::new();
    let periods = [1_000 * MS, 800 * MS, 600 * MS, 400 * MS, 200 * MS, 200 * MS];
    for period in periods {
        context.increment_speed();
        assert_eq!(context.clock().period(), period);
    }
    let periods = [400 * MS, 600 * MS, 800 * MS, 1_000 * MS, 1_200 * MS, 1_200 * MS];
    for period in periods {
        context.decrement_speed();
        assert_eq!(context.clock().period(), period);
    }
}

#[test]
fn speed_change_keeps_progress_and_population() {
    let mut context = playing_at(1);
    assert_eq!(context.update(1_300 * MS), 1);
    assert_eq!(context.clock().accumulated(), 300 * MS);
    context.increment_speed();
    assert_eq!(context.clock().accumulated(), 300 * MS);
    assert_eq!(context.population(), 10100);
    assert_eq!(context.update(499 * MS), 0);
    assert_eq!(context.update(1 * MS), 1);
    assert_eq!(context.population(), 10200);
}

#[test]
fn update_applies_one_tick_per_period() {
    let mut context = playing_at(5);
    assert!(context.can_update(199 * MS));
    assert_eq!(context.update(199 * MS), 0);
    assert_eq!(context.population(), 10000);
    assert_eq!(context.update(1 * MS), 1);
    assert_eq!(context.population(), 10100);
}

#[test]
fn update_catches_up_after_a_stall() {
    let mut context = playing_at(5);
    assert_eq!(context.update(2_050 * MS), 10);
    assert_eq!(context.population(), 11000);
    assert_eq!(context.clock().accumulated(), 50 * MS);
}

#[test]
fn update_while_paused_keeps_the_population() {
    let mut context = SimulationContext::new();
    for delta in [0u64, 1, 1_199 * MS, 1_200 * MS, 60_000 * MS, u64::MAX] {
        assert!(context.can_update(delta));
        assert_eq!(context.update(delta), 0);
        assert_eq!(context.population(), 10000);
        assert_eq!(context.state(), SimulationState::Paused);
    }
}

#[test]
fn clock_runs_while_paused() {
    let mut context = SimulationContext::new();
    context.update(1_500 * MS);
    assert_eq!(context.clock().accumulated(), 300 * MS);
    assert_eq!(context.population(), 10000);
}

#[test]
fn growth_does_not_depend_on_the_frame_length() {
    let period = 600 * MS;
    let frames: Vec<Vec<u64>> = vec![
        vec![4 * period],
        vec![period; 4],
        vec![period / 3; 12],
        vec![1, 2 * period, period - 1, period],
    ];
    for deltas in frames {
        let mut context = playing_at(3);
        let mut applied: u64 = 0;
        for delta in deltas {
            applied += context.update(delta);
        }
        assert_eq!(applied, 4);
        assert_eq!(context.population(), 10400);
        assert_eq!(context.clock().accumulated(), 0);
    }
}

#[test]
fn can_update_turns_false_only_when_the_counter_is_full() {
    let mut context = playing_at(5);
    let per_frame = (u64::MAX / (200 * MS)) as u128;
    let mut frames: u64 = 0;
    while context.can_update(u64::MAX) {
        let before = context.population();
        let carried = context.clock().accumulated();
        let due = (carried as u128 + u64::MAX as u128) / (200 * MS) as u128;
        assert!(due == per_frame || due == per_frame + 1);
        let applied = context.update(u64::MAX);
        assert_eq!(applied as u128, due);
        assert_eq!(context.population(), before + 100 * applied);
        frames += 1;
    }
    assert!(frames > 1_000_000);
    let left = (u64::MAX - context.population()) / 100;
    assert!((left as u128) < per_frame + 1);
    assert!(context.can_update(0));
    assert!(context.can_update(199 * MS));
}

use little_mad_trials::countdown;
use little_mad_trials::countdown::{Countdown, RUN_MS, SETUP_MS, TEARDOWN_MS, VICTORY_MS};
use little_mad_trials::state::{AppState, TransitionRequest};

#[test]
fn new_clock_is_finished_and_empty() {
    let clock = Countdown::new();
    assert_eq!(clock.duration_ms, 0);
    assert_eq!(clock.elapsed_ms, 0);
    assert!(clock.transition.is_none());
    assert!(clock.finished());
    assert_eq!(clock.remaining(), 0);
}

#[test]
fn reset_sets_duration_and_zeroes_elapsed() {
    let mut clock = Countdown::new();
    clock.tick(5);
    clock.reset(1500, Some(AppState::Start));
    assert_eq!(clock.duration_ms, 1500);
    assert_eq!(clock.elapsed_ms, 0);
    assert_eq!(clock.transition, Some(AppState::Start));
    assert!(!clock.finished());
    assert_eq!(clock.remaining(), 1500);
}

#[test]
fn tick_accumulates_within_the_run() {
    let mut clock = Countdown::new();
    clock.reset(1000, None);
    clock.tick(300);
    assert_eq!(clock.elapsed_ms, 300);
    assert_eq!(clock.remaining(), 700);
    clock.tick(300);
    assert_eq!(clock.elapsed_ms, 600);
    assert!(!clock.finished());
}

#[test]
fn tick_clamps_overshoot_exactly_at_duration() {
    let mut clock = Countdown::new();
    clock.reset(1000, None);
    clock.tick(700);
    clock.tick(700);
    assert_eq!(clock.elapsed_ms, 1000);
    assert!(clock.finished());
    assert_eq!(clock.remaining(), 0);
}

#[test]
fn tick_after_finished_is_a_no_op() {
    let mut clock = Countdown::new();
    clock.reset(400, None);
    clock.tick(400);
    assert!(clock.finished());
    clock.tick(123);
    assert_eq!(clock.elapsed_ms, 400);
    assert!(clock.finished());
}

#[test]
fn tick_handles_huge_deltas_without_overflow() {
    let mut clock = Countdown::new();
    clock.reset(1000, None);
    clock.tick(u64::MAX);
    assert_eq!(clock.elapsed_ms, 1000);
    assert!(clock.finished());
}

#[test]
fn transition_fires_only_when_finished() {
    let mut clock = Countdown::new();
    clock.reset(1000, Some(AppState::Victory));
    let mut request = TransitionRequest::new();
    clock.tick(999);
    countdown::transition(&clock, &mut request);
    assert_eq!(request.take(), None);
    clock.tick(1);
    countdown::transition(&clock, &mut request);
    assert_eq!(request.take(), Some(AppState::Victory));
}

#[test]
fn transition_without_target_never_fires() {
    let mut clock = Countdown::new();
    clock.reset(100, None);
    clock.tick(100);
    let mut request = TransitionRequest::new();
    countdown::transition(&clock, &mut request);
    assert_eq!(request.take(), None);
}

#[test]
fn state_entries_reset_the_clock() {
    let mut clock = Countdown::new();
    countdown::enter_setup(&mut clock);
    assert_eq!(clock.duration_ms, SETUP_MS);
    assert_eq!(clock.transition, Some(AppState::Start));
    countdown::enter_start(&mut clock);
    assert_eq!(clock.duration_ms, RUN_MS);
    assert_eq!(clock.elapsed_ms, 0);
    assert_eq!(clock.transition, Some(AppState::Victory));
    countdown::enter_victory(&mut clock);
    assert_eq!(clock.duration_ms, VICTORY_MS);
    assert_eq!(clock.transition, None);
    countdown::enter_teardown(&mut clock);
    assert_eq!(clock.duration_ms, TEARDOWN_MS);
    assert_eq!(clock.transition, Some(AppState::Setup));
}

#[test]
fn countdown_system_ticks_the_clock() {
    let mut clock = Countdown::new();
    clock.reset(500, None);
    countdown::countdown(&mut clock, 200);
    assert_eq!(clock.elapsed_ms, 200);
}

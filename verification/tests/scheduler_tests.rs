use wintrack::config::{Config, ScheduledMessage};
use wintrack::scheduler::{SchedulerState, TickOutcome};

fn config_with_schedule(interval_minutes: u64, enabled: bool) -> Config {
    let mut c = Config::default();
    c.scheduled_messages.push(ScheduledMessage { interval_minutes, enabled });
    c
}

#[test]
fn not_due_at_59_minutes() {
    let cfg = config_with_schedule(60, true);
    let mut state = SchedulerState::new(1000);
    let outcome = state.tick(&cfg, 1000 + 59 * 60);
    assert_eq!(outcome, TickOutcome::Idle);
    assert_eq!(state.last_sent_at_secs, 1000);
}

#[test]
fn due_at_60_minutes_with_one_hour_zero_minutes() {
    let cfg = config_with_schedule(60, true);
    let mut state = SchedulerState::new(1000);
    let outcome = state.tick(&cfg, 1000 + 60 * 60);
    assert_eq!(outcome, TickOutcome::Due { hours: 1, remainder_minutes: 0 });
    assert_eq!(state.last_sent_at_secs, 1000 + 60 * 60);
}

#[test]
fn due_decomposes_hours_and_minutes() {
    let cfg = config_with_schedule(90, true);
    let mut state = SchedulerState::new(0);
    // 95 minutes elapsed: 1 hour and 35 minutes.
    let outcome = state.tick(&cfg, 95 * 60);
    assert_eq!(outcome, TickOutcome::Due { hours: 1, remainder_minutes: 35 });
}

#[test]
fn empty_schedule_is_permanently_idle() {
    let cfg = Config::default();
    let mut state = SchedulerState::new(0);
    let outcome = state.tick(&cfg, 1_000_000);
    assert_eq!(outcome, TickOutcome::Idle);
    assert_eq!(state.last_sent_at_secs, 0);
}

#[test]
fn disabled_schedule_is_idle_and_keeps_accruing() {
    let cfg_off = config_with_schedule(60, false);
    let mut state = SchedulerState::new(0);
    assert_eq!(state.tick(&cfg_off, 2 * 60 * 60), TickOutcome::Idle);
    assert_eq!(state.last_sent_at_secs, 0);

    // Re-enabling after time accrued makes a message due at once.
    let cfg_on = config_with_schedule(60, true);
    let outcome = state.tick(&cfg_on, 2 * 60 * 60);
    assert_eq!(outcome, TickOutcome::Due { hours: 2, remainder_minutes: 0 });
}

#[test]
fn zero_interval_never_fires() {
    let cfg = config_with_schedule(0, true);
    let mut state = SchedulerState::new(0);
    assert_eq!(state.tick(&cfg, 10_000_000), TickOutcome::Idle);
}

#[test]
fn only_first_entry_is_honored() {
    let mut cfg = config_with_schedule(1_000_000, true);
    cfg.scheduled_messages.push(ScheduledMessage { interval_minutes: 1, enabled: true });
    let mut state = SchedulerState::new(0);
    // The second entry would be long due, but only the first is consulted.
    assert_eq!(state.tick(&cfg, 3600), TickOutcome::Idle);
}

#[test]
fn failed_send_does_not_retry_before_next_interval() {
    // last_sent_at advances on "due" regardless of dispatch outcome, so the
    // very next tick is not due again.
    let cfg = config_with_schedule(1, true);
    let mut state = SchedulerState::new(0);
    assert!(matches!(state.tick(&cfg, 60), TickOutcome::Due { .. }));
    assert_eq!(state.tick(&cfg, 90), TickOutcome::Idle);
    assert_eq!(state.last_sent_at_secs, 60);
}

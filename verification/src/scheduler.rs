//! The periodic scheduler's due-time decision: once per fixed tick, decide
//! from the configuration and the elapsed time whether a recurring message
//! is due, and account for the send.

use crate::config::Config;
use crate::config::ScheduledMessage;
use crate::config::ConfigView;
use vstd::prelude::*;

verus! {

/// Scheduler state: when the last periodic message was sent, in seconds of
/// the process's monotonic clock. Never persisted; resets on restart.
#[derive(Clone, Copy, PartialEq, Eq, Structural, Debug)]
pub struct SchedulerState {
    pub last_sent_at_secs: u64,
}

/// What one tick decided.
#[derive(Clone, Copy, PartialEq, Eq, Structural, Debug)]
pub enum TickOutcome {
    /// Nothing is due: no schedule entry, disabled, zero interval, or not
    /// enough elapsed time.
    Idle,
    /// A message is due, with the elapsed time decomposed into whole hours
    /// and leftover minutes for the message text.
    Due { hours: u64, remainder_minutes: u64 },
}

/// Whole minutes elapsed between `last` and `now`.
pub open spec fn elapsed_minutes(last: u64, now: u64) -> int {
    (now - last) / 60
}

/// The due condition: the first schedule entry exists, is enabled, has a
/// positive interval, and at least that many whole minutes have elapsed.
/// Entries after the first are stored but never consulted.
pub open spec fn due_now(c: ConfigView, last: u64, now: u64) -> bool {
    &&& c.scheduled_messages.len() > 0
    &&& c.scheduled_messages[0].enabled
    &&& c.scheduled_messages[0].interval_minutes > 0
    &&& elapsed_minutes(last, now) >= c.scheduled_messages[0].interval_minutes
}

/// The hourly threshold, for any start time `last`: with the first entry
/// enabled at a 60-minute interval, one minute under the hour nothing is
/// due, and exactly at the hour a message is due — which `tick`'s contract
/// then turns into `Due { hours: 1, remainder_minutes: 0 }` and an advance
/// of `last_sent_at_secs`.
pub proof fn lemma_hourly_threshold(c: ConfigView, last: u64)
    requires
        c.scheduled_messages.len() > 0,
        c.scheduled_messages[0] == (ScheduledMessage { interval_minutes: 60, enabled: true }),
        last + 3600 <= u64::MAX,
    ensures
        !due_now(c, last, (last + 3540) as u64),
        due_now(c, last, (last + 3600) as u64),
        elapsed_minutes(last, (last + 3600) as u64) / 60 == 1,
        elapsed_minutes(last, (last + 3600) as u64) % 60 == 0,
{
}

impl SchedulerState {
    /// Arms the scheduler at process start: the elapsed clock starts now.
    pub fn new(now_secs: u64) -> (s: Self)
        ensures
            s.last_sent_at_secs == now_secs,
    {
        SchedulerState { last_sent_at_secs: now_secs }
    }

    /// One fixed tick. When the due condition holds, the elapsed minutes are
    /// decomposed into hours and leftover minutes and `last_sent_at_secs`
    /// advances to this tick's `now_secs` — whether or not the send that
    /// follows will succeed, so a failed send never causes a retry storm.
    /// Otherwise the state is untouched, so time keeps accruing: re-enabling
    /// a schedule can make a message due at once.
    pub fn tick(&mut self, config: &Config, now_secs: u64) -> (o: TickOutcome)
        requires
            now_secs >= old(self).last_sent_at_secs,
        ensures
            due_now(config@, old(self).last_sent_at_secs, now_secs) ==> {
                let mins = elapsed_minutes(old(self).last_sent_at_secs, now_secs);
                &&& o == (TickOutcome::Due {
                    hours: (mins / 60) as u64,
                    remainder_minutes: (mins % 60) as u64,
                })
                &&& final(self).last_sent_at_secs == now_secs
            },
            !due_now(config@, old(self).last_sent_at_secs, now_secs) ==> o == TickOutcome::Idle
                && *final(self) == *old(self),
    {
        if config.scheduled_messages.len() > 0 {
            let schedule = config.scheduled_messages[0];
            if schedule.enabled && schedule.interval_minutes > 0 {
                let mins = (now_secs - self.last_sent_at_secs) / 60;
                if mins >= schedule.interval_minutes {
                    let hours = mins / 60;
                    let remainder_minutes = mins % 60;
                    self.last_sent_at_secs = now_secs;
                    return TickOutcome::Due { hours, remainder_minutes };
                }
            }
        }
        TickOutcome::Idle
    }
}

} // verus!

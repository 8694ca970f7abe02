//! The single authoritative countdown clock driving one level run.
//!
//! The clock is advanced once per simulation tick by the frame-time
//! provider and is reset (with a state-specific duration and an optional
//! transition target) every time the game state machine enters a state.
//! Advancing past the configured duration is clamped, so the reported
//! elapsed time never exceeds the run length.

use vstd::prelude::*;

use crate::state::{AppState, TransitionRequest};

verus! {

/// Run length of the board-entry choreography (the Setup state).
pub const SETUP_MS: u64 = 1500;

/// Run length of one full level (the Start and Game states share it).
pub const RUN_MS: u64 = 20000;

/// How long the victory screen holds before input is honoured.
pub const VICTORY_MS: u64 = 1000;

/// Run length of the board-exit choreography (the Teardown state).
pub const TEARDOWN_MS: u64 = 1500;

/// The resettable countdown clock. One instance exists per process; all
/// phase timelines read the same clock each tick.
#[derive(Clone, Debug)]
pub struct Countdown {
    /// Total length of the current run, in milliseconds.
    pub duration_ms: u64,
    /// Time consumed so far, in milliseconds; never exceeds `duration_ms`.
    pub elapsed_ms: u64,
    /// Which state to enter once the clock expires, if any.
    pub transition: Option<AppState>,
}

impl Countdown {
    /// Elapsed time never runs past the configured duration.
    pub open spec fn wf(self) -> bool {
        self.elapsed_ms <= self.duration_ms
    }

    /// The clock has consumed its whole run.
    pub open spec fn is_finished(self) -> bool {
        self.elapsed_ms >= self.duration_ms
    }

    /// A fresh clock: zero-length run, already expired, no target.
    pub fn new() -> (r: Countdown)
        ensures
            r == (Countdown { duration_ms: 0, elapsed_ms: 0, transition: None }),
            r.wf(),
    {
        Countdown { duration_ms: 0, elapsed_ms: 0, transition: None }
    }

    /// Start a new run: set its length, zero the elapsed time and record
    /// which state the clock's expiry should request, if any.
    pub fn reset(&mut self, duration_ms: u64, transition: Option<AppState>)
        ensures
            *final(self) == (Countdown { duration_ms, elapsed_ms: 0, transition }),
            final(self).wf(),
    {
        self.duration_ms = duration_ms;
        self.elapsed_ms = 0;
        self.transition = transition;
    }

    /// Advance the clock by one frame's delta. Overshoot past the run
    /// length is absorbed: the elapsed time is clamped to the duration,
    /// so a tick after the clock finished leaves it unchanged.
    pub fn tick(&mut self, delta_ms: u64)
        requires
            old(self).wf(),
        ensures
            final(self).wf(),
            final(self).duration_ms == old(self).duration_ms,
            final(self).transition == old(self).transition,
            final(self).elapsed_ms == if old(self).elapsed_ms + delta_ms >= old(
                self,
            ).duration_ms {
                old(self).duration_ms as int
            } else {
                old(self).elapsed_ms + delta_ms
            },
            final(self).elapsed_ms >= old(self).elapsed_ms,
            old(self).elapsed_ms + delta_ms >= old(self).duration_ms ==> final(self).is_finished(),
    {
        let room = self.duration_ms - self.elapsed_ms;
        if delta_ms >= room {
            self.elapsed_ms = self.duration_ms;
        } else {
            self.elapsed_ms = self.elapsed_ms + delta_ms;
        }
    }

    /// Time left in the current run.
    pub fn remaining(&self) -> (r: u64)
        requires
            self.wf(),
        ensures
            r == self.duration_ms - self.elapsed_ms,
    {
        self.duration_ms - self.elapsed_ms
    }

    /// Whether the run is over (elapsed time reached the duration).
    pub fn finished(&self) -> (r: bool)
        ensures
            r == self.is_finished(),
    {
        self.elapsed_ms >= self.duration_ms
    }
}

/// Per-frame clock advance: the one mutation of the shared clock in a
/// tick, ordered before every timeline update that reads it.
pub fn countdown(countdown: &mut Countdown, delta_ms: u64)
    requires
        old(countdown).wf(),
    ensures
        final(countdown).wf(),
        final(countdown).duration_ms == old(countdown).duration_ms,
        final(countdown).transition == old(countdown).transition,
        final(countdown).elapsed_ms == if old(countdown).elapsed_ms + delta_ms >= old(
            countdown,
        ).duration_ms {
            old(countdown).duration_ms as int
        } else {
            old(countdown).elapsed_ms + delta_ms
        },
        final(countdown).elapsed_ms >= old(countdown).elapsed_ms,
{
    countdown.tick(delta_ms);
}

/// Once the clock expires, request its recorded target state; until then
/// (or with no target recorded) leave the mailbox untouched.
pub fn transition(countdown: &Countdown, request: &mut TransitionRequest)
    ensures
        final(request).pending == if countdown.transition is Some && countdown.is_finished() {
            countdown.transition
        } else {
            old(request).pending
        },
{
    if let Some(target) = countdown.transition {
        if countdown.finished() {
            request.request(target);
        }
    }
}

/// Entering Setup: the short board-entry run, then move on to Start.
pub fn enter_setup(countdown: &mut Countdown)
    ensures
        *final(countdown) == (Countdown {
            duration_ms: SETUP_MS,
            elapsed_ms: 0,
            transition: Some(AppState::Start),
        }),
{
    countdown.reset(SETUP_MS, Some(AppState::Start));
}

/// Entering Start: the full level run; surviving it means victory.
pub fn enter_start(countdown: &mut Countdown)
    ensures
        *final(countdown) == (Countdown {
            duration_ms: RUN_MS,
            elapsed_ms: 0,
            transition: Some(AppState::Victory),
        }),
{
    countdown.reset(RUN_MS, Some(AppState::Victory));
}

/// Entering Victory: a short hold with no automatic follow-up state.
pub fn enter_victory(countdown: &mut Countdown)
    ensures
        *final(countdown) == (Countdown {
            duration_ms: VICTORY_MS,
            elapsed_ms: 0,
            transition: None,
        }),
{
    countdown.reset(VICTORY_MS, None);
}

/// Entering Teardown: the board-exit run, then back to Setup.
pub fn enter_teardown(countdown: &mut Countdown)
    ensures
        *final(countdown) == (Countdown {
            duration_ms: TEARDOWN_MS,
            elapsed_ms: 0,
            transition: Some(AppState::Setup),
        }),
{
    countdown.reset(TEARDOWN_MS, Some(AppState::Setup));
}

} // verus!

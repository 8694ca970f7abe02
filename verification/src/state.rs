//! Top-level game states and the single-slot transition-request mailbox.
//!
//! State changes are never applied in place: candidate systems write a
//! pending request into the mailbox, and one authority drains it once per
//! tick. A later request in the same tick overwrites an earlier one
//! (last write wins).

use vstd::prelude::*;

verus! {

/// The authoritative top-level state of one game session.
#[derive(Clone, Copy, PartialEq, Eq, Structural, Hash, Debug)]
pub enum AppState {
    Splash,
    Setup,
    Start,
    Game,
    Defeat,
    Victory,
    Teardown,
}

/// Single-slot mailbox for pending state changes: writers overwrite,
/// one authority drains it at a fixed point in the tick order.
#[derive(Clone, Debug)]
pub struct TransitionRequest {
    pub pending: Option<AppState>,
}

impl TransitionRequest {
    /// An empty mailbox: no transition has been requested.
    pub fn new() -> (r: TransitionRequest)
        ensures
            r.pending is None,
    {
        TransitionRequest { pending: None }
    }

    /// Request a state change, overwriting any earlier request from the
    /// same tick (last write wins).
    pub fn request(&mut self, target: AppState)
        ensures
            final(self).pending == Some(target),
    {
        self.pending = Some(target);
    }

    /// Drain the mailbox: hand the pending request (if any) to the
    /// authority and leave the mailbox empty.
    pub fn take(&mut self) -> (r: Option<AppState>)
        ensures
            r == old(self).pending,
            final(self).pending is None,
    {
        let r = self.pending;
        self.pending = None;
        r
    }
}

/// Confirm input on the splash screen requests the board setup state.
pub fn start(current: AppState, confirm: bool, request: &mut TransitionRequest)
    ensures
        final(request).pending == if current == AppState::Splash && confirm {
            Some(AppState::Setup)
        } else {
            old(request).pending
        },
{
    if confirm && matches!(current, AppState::Splash) {
        request.request(AppState::Setup);
    }
}

/// Confirm input on the defeat or victory screen requests the teardown
/// state, which replays the level.
pub fn restart(current: AppState, confirm: bool, request: &mut TransitionRequest)
    ensures
        final(request).pending == if (current == AppState::Defeat || current == AppState::Victory)
            && confirm {
            Some(AppState::Teardown)
        } else {
            old(request).pending
        },
{
    if confirm && (matches!(current, AppState::Defeat) || matches!(current, AppState::Victory)) {
        request.request(AppState::Teardown);
    }
}

} // verus!

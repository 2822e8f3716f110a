//! The flush round: two delivery sessions, one per record stream, advanced
//! in lockstep.

use crate::session::{DeliverySession, SessionStatus};
use vstd::prelude::*;

verus! {

/// The two delivery sessions of one flush round.
#[derive(Clone, Copy, Debug)]
pub struct FlushRound {
    pub logs: DeliverySession,
    pub spans: DeliverySession,
}

/// What the caller must do after both sessions took a step.
#[derive(Clone, Copy, Debug)]
pub enum FlushAction {
    /// Suspend for this many seconds, then take the next step.
    Wait(u64),
    /// Take the next step at once.
    Continue,
    /// The round is over; nothing is left of it.
    Done,
}

/// How the statuses of the two sessions combine into one action: a wait, if
/// either asks for one, and the longer if both do; the end of the round if
/// both have finished; otherwise the next step at once.
pub open spec fn spec_combine(logs: SessionStatus, spans: SessionStatus) -> FlushAction {
    match (logs, spans) {
        (SessionStatus::Timeout(d1), SessionStatus::Timeout(d2)) => FlushAction::Wait(
            if d1 >= d2 {
                d1
            } else {
                d2
            },
        ),
        (SessionStatus::Timeout(d), _) => FlushAction::Wait(d),
        (_, SessionStatus::Timeout(d)) => FlushAction::Wait(d),
        (SessionStatus::Finished, SessionStatus::Finished) => FlushAction::Done,
        _ => FlushAction::Continue,
    }
}

/// Combines the statuses of the two sessions into one action.
pub fn combine(logs: SessionStatus, spans: SessionStatus) -> (action: FlushAction)
    ensures
        action == spec_combine(logs, spans),
{
    match (logs, spans) {
        (SessionStatus::Timeout(d1), SessionStatus::Timeout(d2)) => FlushAction::Wait(
            if d1 >= d2 {
                d1
            } else {
                d2
            },
        ),
        (SessionStatus::Timeout(d), _) => FlushAction::Wait(d),
        (_, SessionStatus::Timeout(d)) => FlushAction::Wait(d),
        (SessionStatus::Finished, SessionStatus::Finished) => FlushAction::Done,
        _ => FlushAction::Continue,
    }
}

} // verus!

//! The contract with an interactive review surface.
//!
//! The surface itself — terminal, screen, key handling — is an external
//! collaborator and a pure consumer: it receives an ordered diagnostic
//! list, and all it ever hands back is an exit signal. These are the
//! decisions of that exchange, as a state machine the surface drives.

use vstd::prelude::*;

verus! {

/// Where a review session stands.
#[derive(Clone, Copy, PartialEq, Eq, Structural, Debug)]
pub enum ReviewState {
    /// Nothing shown yet.
    Start,
    /// The finding at this position is on show.
    Reviewing(usize),
    /// The session is over; nothing further is shown.
    Done,
}

/// What the surface observed since the last step: the exit signal, or
/// anything else (a tick, any other key).
#[derive(Clone, Copy, PartialEq, Eq, Structural, Debug)]
pub enum ReviewEvent {
    QuitRequested,
    Other,
}

/// One decision step: a session over `total` findings begins at the first
/// one (or is immediately over when there is none), the exit signal ends
/// it, and anything else keeps the current finding on show.
pub open spec fn review_step_spec(s: ReviewState, total: usize, e: ReviewEvent) -> ReviewState {
    match s {
        ReviewState::Start => if total == 0 {
            ReviewState::Done
        } else {
            ReviewState::Reviewing(0)
        },
        ReviewState::Reviewing(i) => match e {
            ReviewEvent::QuitRequested => ReviewState::Done,
            ReviewEvent::Other => ReviewState::Reviewing(i),
        },
        ReviewState::Done => ReviewState::Done,
    }
}

/// A state is well formed for `total` findings when any position on show
/// exists in the list.
pub open spec fn review_state_wf(s: ReviewState, total: usize) -> bool {
    match s {
        ReviewState::Reviewing(i) => i < total,
        _ => true,
    }
}

/// The decision step the surface calls once per observed event.
pub fn review_step(s: ReviewState, total: usize, e: ReviewEvent) -> (r: ReviewState)
    ensures
        r == review_step_spec(s, total, e),
{
    match s {
        ReviewState::Start => if total == 0 {
            ReviewState::Done
        } else {
            ReviewState::Reviewing(0)
        },
        ReviewState::Reviewing(i) => match e {
            ReviewEvent::QuitRequested => ReviewState::Done,
            ReviewEvent::Other => ReviewState::Reviewing(i),
        },
        ReviewState::Done => ReviewState::Done,
    }
}

/// Whether the surface should stop drawing and hand control back.
pub fn review_done(s: &ReviewState) -> (r: bool)
    ensures
        r == (s is Done),
{
    match s {
        ReviewState::Done => true,
        _ => false,
    }
}

/// Stepping keeps a state well formed: a session never shows a position
/// outside the list, and a finished session stays finished.
pub proof fn law_review_step_wf(s: ReviewState, total: usize, e: ReviewEvent)
    requires
        review_state_wf(s, total),
    ensures
        review_state_wf(review_step_spec(s, total, e), total),
        s is Done ==> review_step_spec(s, total, e) is Done,
{
}

} // verus!

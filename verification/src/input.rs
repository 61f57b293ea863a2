//! The input check at the end of a frame.

use vstd::prelude::*;

verus! {

/// A key press as the animation sees it: only the cancel key matters.
#[derive(Clone, Copy, Debug, PartialEq, Eq, Structural)]
pub enum Key {
    /// The cancel key.
    Escape,
    /// Any other key.
    Other,
}

/// How a run of the animation ends.
#[derive(Clone, Copy, Debug, PartialEq, Eq, Structural)]
pub enum ExitStatus {
    /// The user asked for the end.
    Success,
    /// A failure that was handed up unchanged.
    Failure,
}

/// What the loop does after a frame.
#[derive(Clone, Copy, Debug, PartialEq, Eq, Structural)]
pub enum FrameOutcome {
    /// Wait for the next display refresh and draw another frame.
    Continue,
    /// Stop, with the given status.
    Terminate(ExitStatus),
}

/// The outcome that a polled key calls for: the cancel key ends the run
/// with success, anything else (or no key at all) lets it go on.
pub open spec fn outcome_of(key: Option<Key>) -> FrameOutcome {
    if key == Some(Key::Escape) {
        FrameOutcome::Terminate(ExitStatus::Success)
    } else {
        FrameOutcome::Continue
    }
}

/// Turns the key polled in this frame, if any, into the frame's outcome.
/// The check itself never fails.
pub fn handle_key_events(key: Option<Key>) -> (outcome: FrameOutcome)
    ensures
        outcome == outcome_of(key),
        outcome == FrameOutcome::Terminate(ExitStatus::Success) <==> key == Some(Key::Escape),
        outcome != FrameOutcome::Terminate(ExitStatus::Failure),
{
    match key {
        Some(Key::Escape) => FrameOutcome::Terminate(ExitStatus::Success),
        _ => FrameOutcome::Continue,
    }
}

} // verus!

//! The named states of a round.

use vstd::prelude::*;

verus! {

/// The state a round is in. A round is in exactly one phase at a time.
#[derive(Clone, Copy, Debug, PartialEq, Eq, Structural)]
pub enum Phase {
    /// The title is shown; the cards are not yet on the table.
    Intro,
    /// A question is open and the countdown runs.
    Playing,
    /// A side was picked; the chosen card is shown for a moment.
    Picked,
    /// The short flash between two questions.
    Transition,
    /// The round is over and its result is on display.
    Results,
}

impl Phase {
    /// Whether the current question still waits for its pick: it is about to
    /// be opened, or it is open.
    pub open spec fn awaits_pick(self) -> bool {
        self == Phase::Intro || self == Phase::Playing
    }
}

} // verus!

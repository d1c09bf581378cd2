//! The tally of a finished round and the result it stands for.

use vstd::prelude::*;

verus! {

/// The category a finished round falls into.
#[derive(Clone, Copy, Debug, PartialEq, Eq, Structural)]
pub enum Outcome {
    LeftLeaning,
    RightLeaning,
    Balanced,
}

impl Outcome {
    /// The line that tells the player the outcome.
    pub open spec fn spec_headline(self) -> &'static str {
        match self {
            Outcome::LeftLeaning => "You're a CHAOTIC GREMLIN!",
            Outcome::RightLeaning => "You're a FUNCTIONING ADULT!",
            Outcome::Balanced => "You're PERFECTLY BALANCED!",
        }
    }

    /// The name under which the outcome is kept in a record.
    pub open spec fn spec_result_type(self) -> &'static str {
        match self {
            Outcome::LeftLeaning => "chaotic_gremlin",
            Outcome::RightLeaning => "functioning_adult",
            Outcome::Balanced => "perfectly_balanced",
        }
    }

    /// The line that tells the player the outcome.
    #[verifier::when_used_as_spec(spec_headline)]
    pub fn headline(self) -> (text: &'static str)
        ensures
            text == self.spec_headline(),
    {
        match self {
            Outcome::LeftLeaning => "You're a CHAOTIC GREMLIN!",
            Outcome::RightLeaning => "You're a FUNCTIONING ADULT!",
            Outcome::Balanced => "You're PERFECTLY BALANCED!",
        }
    }

    /// The name under which the outcome is kept in a record.
    #[verifier::when_used_as_spec(spec_result_type)]
    pub fn result_type(self) -> (name: &'static str)
        ensures
            name == self.spec_result_type(),
    {
        match self {
            Outcome::LeftLeaning => "chaotic_gremlin",
            Outcome::RightLeaning => "functioning_adult",
            Outcome::Balanced => "perfectly_balanced",
        }
    }
}

/// The outcome that a pair of tallies stands for.
pub open spec fn outcome_of(score_l: nat, score_r: nat) -> Outcome {
    if score_l > score_r {
        Outcome::LeftLeaning
    } else if score_r > score_l {
        Outcome::RightLeaning
    } else {
        Outcome::Balanced
    }
}

/// Maps the two tallies to their outcome by plain comparison.
pub fn resolve(score_l: u64, score_r: u64) -> (outcome: Outcome)
    ensures
        outcome == outcome_of(score_l as nat, score_r as nat),
{
    if score_l > score_r {
        Outcome::LeftLeaning
    } else if score_r > score_l {
        Outcome::RightLeaning
    } else {
        Outcome::Balanced
    }
}

} // verus!

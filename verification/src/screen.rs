//! What a round has to say at any moment: the lines of text that are on
//! screen in its phase.

use crate::game::Game;
use crate::model::GameView;
use crate::outcome::{outcome_of, resolve};
use crate::pace::{countdown, seconds_shown, HURRY_TIME};
use crate::phase::Phase;
use vstd::prelude::*;

verus! {

/// The title of the game, shown during the intro.
pub const TITLE: &'static str = "TWO PEOPLE";

/// The line under the title.
pub const CHOOSE_FAST: &'static str = "CHOOSE FAST!";

/// The flash between two questions.
pub const GO: &'static str = "GO!";

/// The banner over a card that was picked for the player.
pub const TOO_SLOW: &'static str = "UH OH! TOO SLOW!";

/// The line over the result.
pub const PLAY_AGAIN: &'static str = "Press R to play again!";

/// The hint at the bottom while a round is played.
pub const HINT_CLICK: &'static str = "Click a card to choose!";

/// The hint at the bottom of the result screen.
pub const HINT_RESTART: &'static str = "Press R to restart";

/// The text that is on screen.
#[derive(Clone, Copy, Debug, PartialEq, Eq)]
pub struct VisibleText {
    /// The line at the top: the title, the question, or the invitation to
    /// play again.
    pub prompt: Option<&'static str>,
    /// The line across the middle, if there is one.
    pub banner: Option<&'static str>,
    /// Whether the two cards are on the table.
    pub cards: bool,
    /// The label of the left card, while the cards are on the table.
    pub left: Option<&'static str>,
    /// The label of the right card, while the cards are on the table.
    pub right: Option<&'static str>,
    /// The countdown in whole seconds, while a question is open.
    pub countdown: Option<u64>,
    /// Whether the countdown is shown as urgent.
    pub urgent: bool,
    /// The result of the round, once it is over.
    pub outcome: Option<&'static str>,
    /// The hint at the bottom.
    pub hint: &'static str,
}

impl GameView {
    /// Whether the cards are on the table: from the first question until the
    /// round is over.
    pub open spec fn cards_shown(self) -> bool {
        self.phase == Phase::Playing || self.phase == Phase::Picked || self.phase
            == Phase::Transition
    }

    /// The text on screen. The intro shows the title; an open question shows
    /// its prompt, its two answers and the countdown; a picked card keeps the
    /// answers and, if the time ran out, says so; the flash says go; and the
    /// result screen shows the outcome and how to play again.
    pub open spec fn visible_text(self) -> VisibleText {
        let asked = self.cards_shown() && self.question < self.questions.len();
        VisibleText {
            prompt: match self.phase {
                Phase::Intro => Some(TITLE),
                Phase::Playing => if asked {
                    Some(self.questions[self.question as int].title)
                } else {
                    None
                },
                Phase::Picked => None,
                Phase::Transition => None,
                Phase::Results => Some(PLAY_AGAIN),
            },
            banner: match self.phase {
                Phase::Intro => Some(CHOOSE_FAST),
                Phase::Playing => None,
                Phase::Picked => if self.timeouts > 0 {
                    Some(TOO_SLOW)
                } else {
                    None
                },
                Phase::Transition => Some(GO),
                Phase::Results => None,
            },
            cards: self.cards_shown(),
            left: if asked {
                Some(self.questions[self.question as int].left)
            } else {
                None
            },
            right: if asked {
                Some(self.questions[self.question as int].right)
            } else {
                None
            },
            countdown: if self.phase == Phase::Playing {
                Some(seconds_shown(self.timer) as u64)
            } else {
                None
            },
            urgent: self.phase == Phase::Playing && self.timer <= HURRY_TIME,
            outcome: if self.phase == Phase::Results {
                Some(outcome_of(self.score_l, self.score_r).spec_headline())
            } else {
                None
            },
            hint: if self.phase == Phase::Results {
                HINT_RESTART
            } else {
                HINT_CLICK
            },
        }
    }
}

impl Game {
    /// The text that is on screen.
    pub fn visible_text(&self) -> (text: VisibleText)
        ensures
            text == self@.visible_text(),
    {
        let phase = self.phase();
        let cards_shown = phase == Phase::Playing || phase == Phase::Picked || phase
            == Phase::Transition;
        let q = if cards_shown {
            self.current_question()
        } else {
            None
        };
        VisibleText {
            prompt: match phase {
                Phase::Intro => Some(TITLE),
                Phase::Playing => match q {
                    Some(q) => Some(q.title),
                    None => None,
                },
                Phase::Picked => None,
                Phase::Transition => None,
                Phase::Results => Some(PLAY_AGAIN),
            },
            banner: match phase {
                Phase::Intro => Some(CHOOSE_FAST),
                Phase::Playing => None,
                Phase::Picked => if self.timeouts() > 0 {
                    Some(TOO_SLOW)
                } else {
                    None
                },
                Phase::Transition => Some(GO),
                Phase::Results => None,
            },
            cards: cards_shown,
            left: match q {
                Some(q) => Some(q.left),
                None => None,
            },
            right: match q {
                Some(q) => Some(q.right),
                None => None,
            },
            countdown: if phase == Phase::Playing {
                Some(countdown(self.timer()))
            } else {
                None
            },
            urgent: phase == Phase::Playing && self.timer() <= HURRY_TIME,
            outcome: if phase == Phase::Results {
                Some(resolve(self.score_l(), self.score_r()).headline())
            } else {
                None
            },
            hint: if phase == Phase::Results {
                HINT_RESTART
            } else {
                HINT_CLICK
            },
        }
    }
}

} // verus!

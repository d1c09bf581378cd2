//! The game as mathematics: the state of a round and the rules that take it
//! from one state to the next. The executable game is held to these rules.

use crate::choice::{Choice, PlayArea};
use crate::effect::{Effect, SoundType};
use crate::outcome::{outcome_of, Outcome};
use crate::pace::{
    celebration, go_pause, seconds_shown, tremble_after, INTRO_PAUSE, PICKED_PAUSE,
    QUESTION_TIME, SECOND, TREMBLE_MAX,
};
use crate::phase::Phase;
use crate::questions::Q;
use crate::supply::unused_indices;
use vstd::prelude::*;

verus! {

/// The state of a round.
#[verifier::ext_equal]
pub struct GameView {
    /// The phase the round is in.
    pub phase: Phase,
    /// The time left on the countdown of the open question.
    pub timer: nat,
    /// The time left on the pause of the current phase.
    pub wait: nat,
    /// The position in the deck of the current question.
    pub question: usize,
    /// The picks of the left side.
    pub score_l: nat,
    /// The picks of the right side.
    pub score_r: nat,
    /// The side picked for the current question, once it is picked.
    pub picked: Option<Choice>,
    /// The identifier of the session.
    pub session_id: Seq<char>,
    /// The last whole second of the countdown that was announced.
    pub last_tick: nat,
    /// The card under the pointer.
    pub hovered_card: Option<Choice>,
    /// Whether the result of the round was handed out.
    pub results_shown: bool,
    /// The questions in a row that the player let run out.
    pub timeouts: nat,
    /// The questions in a row that the player answered.
    pub streak: nat,
    /// The positions in the deck of the questions drawn so far, in the order
    /// they were drawn.
    pub used_questions: Seq<usize>,
    /// The sum of the reaction times of the player's answers.
    pub total_reaction_time: nat,
    /// The number of the player's answers.
    pub answers_count: nat,
    /// The reaction time of the player's last answer.
    pub last_reaction: nat,
    /// The tremble of the cards, in thousandths.
    pub tremble: nat,
    /// The deck.
    pub questions: Seq<Q>,
}

/// What one frame brings: the time that passed, the click if there was one,
/// and the two things left to chance, each used only where the rules call for
/// it.
#[derive(Clone, Copy, Debug)]
pub struct Frame {
    /// The time since the last frame.
    pub dt: u64,
    /// The card the player clicked in this frame, if any.
    pub click: Option<Choice>,
    /// The side that is picked for the player if the countdown runs out.
    pub side: Choice,
    /// The position in the deck of the question that is taken next. A
    /// position that is not among the unused ones stands for the first unused
    /// one.
    pub next: usize,
}

/// The record of a finished round.
pub struct SummaryView {
    pub session_id: Seq<char>,
    pub score_l: nat,
    pub score_r: nat,
    pub outcome: Outcome,
}

/// The tallies after one more pick of `side`.
pub open spec fn scored(score_l: nat, score_r: nat, side: Choice) -> (nat, nat) {
    match side {
        Choice::Left => (score_l + 1, score_r),
        Choice::Right => (score_l, score_r + 1),
    }
}

/// The identifier of the session that follows `prev`, given a freshly drawn
/// one: the fresh one, marked with a trailing `+` in the one case where it
/// repeats `prev`.
pub open spec fn next_session_id(prev: Seq<char>, fresh: Seq<char>) -> Seq<char> {
    if fresh == prev {
        fresh.push('+')
    } else {
        fresh
    }
}

/// The identifier of a new session differs from the one before it, whatever
/// was drawn.
pub proof fn lemma_new_session_differs(prev: Seq<char>, fresh: Seq<char>)
    ensures
        next_session_id(prev, fresh) != prev,
{
    if fresh == prev {
        assert(fresh.push('+').len() == prev.len() + 1);
    }
}

impl GameView {
    /// A round before anything happened: the first question of the deck is
    /// the current one, nothing is scored, and the given phase is entered
    /// with the given pause. With an empty deck there is nothing to ask, and
    /// the round is over at once.
    pub open spec fn fresh(
        phase: Phase,
        wait: nat,
        session_id: Seq<char>,
        questions: Seq<Q>,
    ) -> GameView {
        GameView {
            phase: if questions.len() == 0 {
                Phase::Results
            } else {
                phase
            },
            timer: QUESTION_TIME as nat,
            wait: if questions.len() == 0 {
                0
            } else {
                wait
            },
            question: 0,
            score_l: 0,
            score_r: 0,
            picked: None,
            session_id,
            last_tick: seconds_shown(QUESTION_TIME as nat),
            hovered_card: None,
            results_shown: false,
            timeouts: 0,
            streak: 0,
            used_questions: if questions.len() == 0 {
                Seq::empty()
            } else {
                seq![0usize]
            },
            total_reaction_time: 0,
            answers_count: 0,
            last_reaction: QUESTION_TIME as nat,
            tremble: 0,
            questions,
        }
    }

    /// The round as the game opens: the title is up for the intro pause.
    pub open spec fn opening(session_id: Seq<char>, questions: Seq<Q>) -> GameView {
        GameView::fresh(Phase::Intro, INTRO_PAUSE as nat, session_id, questions)
    }

    /// The round as a replay starts it: straight into the first question.
    pub open spec fn replayed(session_id: Seq<char>, questions: Seq<Q>) -> GameView {
        GameView::fresh(Phase::Playing, 0, session_id, questions)
    }

    /// The positions in the deck that were not drawn yet, in increasing order.
    pub open spec fn unused(self) -> Seq<usize> {
        unused_indices(self.questions.len() as usize, self.used_questions)
    }

    /// The number of picks scored so far.
    pub open spec fn picks(self) -> nat {
        self.score_l + self.score_r
    }

    /// What holds of every round, whatever happened to it.
    pub open spec fn wf(self) -> bool {
        &&& self.questions.len() <= usize::MAX
        &&& self.used_questions.no_duplicates()
        &&& forall|i: int|
            0 <= i < self.used_questions.len() ==> (#[trigger] self.used_questions[i])
                < self.questions.len()
        &&& self.used_questions.len() > 0 ==> self.question == self.used_questions.last()
        &&& self.used_questions.len() == 0 ==> self.phase == Phase::Results
        &&& self.picks() + (if self.phase.awaits_pick() {
            1nat
        } else {
            0nat
        }) == self.used_questions.len()
        &&& self.answers_count + self.timeouts <= self.picks()
        &&& self.streak <= self.answers_count
        &&& self.timer <= QUESTION_TIME
        &&& self.phase == Phase::Playing ==> self.timer > 0
        &&& self.wait <= INTRO_PAUSE
        &&& self.total_reaction_time <= QUESTION_TIME * self.answers_count
        &&& self.last_reaction <= QUESTION_TIME
        &&& self.tremble <= TREMBLE_MAX
        &&& self.last_tick <= seconds_shown(QUESTION_TIME as nat)
        &&& self.phase.awaits_pick() ==> self.picked is None
        &&& (self.phase == Phase::Picked || self.phase == Phase::Transition)
            ==> self.picked is Some
        &&& self.results_shown ==> self.phase == Phase::Results
    }

    /// The intro: the title stays for its pause, then the first question
    /// opens with the full question time.
    pub open spec fn intro_tick(self, dt: nat) -> (GameView, Seq<Effect>) {
        if self.phase != Phase::Intro {
            (self, Seq::empty())
        } else if dt < self.wait {
            (GameView { wait: (self.wait - dt) as nat, ..self }, Seq::empty())
        } else {
            (
                GameView {
                    phase: Phase::Playing,
                    wait: 0,
                    timer: QUESTION_TIME as nat,
                    last_tick: seconds_shown(QUESTION_TIME as nat),
                    ..self
                },
                seq![Effect::Sound(SoundType::Whoosh)],
            )
        }
    }

    /// The countdown of an open question. A frame announces the whole second
    /// it arrives in, if that second is below the last one announced:
    /// urgently from two seconds down. A frame that runs a second or more
    /// past the end of the countdown arrives in no second and announces none.
    /// When the time is up the question is picked for the player: `side` is
    /// scored as any pick is, the streak ends, and the picked card is shown.
    pub open spec fn timer_tick(self, dt: nat, side: Choice) -> (GameView, Seq<Effect>) {
        if self.phase != Phase::Playing {
            (self, Seq::empty())
        } else {
            let left: nat = if dt < self.timer {
                (self.timer - dt) as nat
            } else {
                0
            };
            let secs = seconds_shown(left);
            let announced = secs < self.last_tick && dt < self.timer + SECOND;
            let last_tick = if announced {
                secs
            } else {
                self.last_tick
            };
            let ticks = if !announced {
                Seq::empty()
            } else if secs <= 2 {
                seq![Effect::Sound(SoundType::TickUrgent)]
            } else {
                seq![Effect::Sound(SoundType::Tick)]
            };
            if left > 0 {
                (GameView { timer: left, last_tick, ..self }, ticks)
            } else {
                let (score_l, score_r) = scored(self.score_l, self.score_r, side);
                (
                    GameView {
                        phase: Phase::Picked,
                        timer: 0,
                        wait: PICKED_PAUSE as nat,
                        last_tick,
                        picked: Some(side),
                        score_l,
                        score_r,
                        timeouts: self.timeouts + 1,
                        streak: 0,
                        ..self
                    },
                    ticks.push(Effect::Sound(SoundType::Whoosh)),
                )
            }
        }
    }

    /// A click on a card while a question is open: the side is scored, the
    /// reaction time is taken into the books, the tremble follows the speed
    /// of the answer, and the pick is celebrated. At any other time a click
    /// changes nothing.
    pub open spec fn click_cards(self, choice: Choice) -> (GameView, Seq<Effect>) {
        if self.phase != Phase::Playing {
            (self, Seq::empty())
        } else {
            let reaction = (QUESTION_TIME - self.timer) as nat;
            let total = self.total_reaction_time + reaction;
            let answers = self.answers_count + 1;
            let tremble = tremble_after(self.tremble, reaction);
            let streak = self.streak + 1;
            let (score_l, score_r) = scored(self.score_l, self.score_r, choice);
            (
                GameView {
                    phase: Phase::Picked,
                    wait: PICKED_PAUSE as nat,
                    picked: Some(choice),
                    score_l,
                    score_r,
                    timeouts: 0,
                    streak,
                    total_reaction_time: total,
                    answers_count: answers,
                    last_reaction: reaction,
                    tremble,
                    ..self
                },
                seq![
                    Effect::Sound(SoundType::Select),
                    Effect::Fireworks {
                        intensity: celebration(streak, total, answers, tremble) as u128,
                    },
                ],
            )
        }
    }

    /// A click at a point: off the play surface it changes nothing, on it it
    /// is a click on the card of its half.
    pub open spec fn click_at(self, area: PlayArea, x: int, y: int) -> (GameView, Seq<Effect>) {
        match area.spec_zone_at(x, y) {
            Some(choice) => self.click_cards(choice),
            None => (self, Seq::empty()),
        }
    }

    /// The pause that shows the picked card. When it is over, the flash
    /// before the next question begins. The pick stays as it is, and so do
    /// the current question and the questions drawn.
    pub open spec fn picked_tick(self, dt: nat) -> (GameView, Seq<Effect>) {
        if self.phase != Phase::Picked {
            (self, Seq::empty())
        } else if dt < self.wait {
            (GameView { wait: (self.wait - dt) as nat, ..self }, Seq::empty())
        } else {
            (
                GameView {
                    phase: Phase::Transition,
                    wait: go_pause(self.answers_count, self.last_reaction),
                    ..self
                },
                seq![Effect::Sound(SoundType::Go)],
            )
        }
    }

    /// The flash between two questions. When it is over and no question is
    /// left unused, the round ends. Otherwise the next question is taken:
    /// the wanted one if it is unused, the first unused one if it is not. It
    /// becomes the current question, is marked as used, has no pick yet, and
    /// is opened with the full question time.
    pub open spec fn transition_tick(self, dt: nat, want: usize) -> (GameView, Seq<Effect>) {
        if self.phase != Phase::Transition {
            (self, Seq::empty())
        } else if dt < self.wait {
            (GameView { wait: (self.wait - dt) as nat, ..self }, Seq::empty())
        } else if self.unused().len() == 0 {
            (
                GameView { phase: Phase::Results, wait: 0, ..self },
                seq![Effect::Sound(SoundType::Result)],
            )
        } else {
            let next = if self.unused().contains(want) {
                want
            } else {
                self.unused()[0]
            };
            (
                GameView {
                    phase: Phase::Playing,
                    wait: 0,
                    question: next,
                    used_questions: self.used_questions.push(next),
                    timer: QUESTION_TIME as nat,
                    last_tick: seconds_shown(QUESTION_TIME as nat),
                    picked: None,
                    ..self
                },
                seq![Effect::Sound(SoundType::CardIn)],
            )
        }
    }

    /// One frame: the ticks of the phases and the click, in this order, each
    /// working on what the one before left.
    pub open spec fn step(self, frame: Frame) -> (GameView, Seq<Effect>) {
        let a = self.intro_tick(frame.dt as nat);
        let b = a.0.timer_tick(frame.dt as nat, frame.side);
        let c = match frame.click {
            Some(choice) => b.0.click_cards(choice),
            None => (b.0, Seq::empty()),
        };
        let d = c.0.picked_tick(frame.dt as nat);
        let e = d.0.transition_tick(frame.dt as nat, frame.next);
        (e.0, a.1 + b.1 + c.1 + d.1 + e.1)
    }

    /// The pointer moved over a card, or off the cards, while a question is
    /// open. Coming onto a card is announced by a sound.
    pub open spec fn hover_cards(self, hovered: Option<Choice>) -> (GameView, Seq<Effect>) {
        if self.phase != Phase::Playing || hovered == self.hovered_card {
            (self, Seq::empty())
        } else {
            (
                GameView { hovered_card: hovered, ..self },
                if hovered is Some {
                    seq![Effect::Sound(SoundType::Hover)]
                } else {
                    Seq::empty()
                },
            )
        }
    }

    /// The record of the round as it stands.
    pub open spec fn summary(self) -> SummaryView {
        SummaryView {
            session_id: self.session_id,
            score_l: self.score_l,
            score_r: self.score_r,
            outcome: outcome_of(self.score_l, self.score_r),
        }
    }

    /// The result of a finished round is handed out once.
    pub open spec fn show_results(self) -> (GameView, Option<SummaryView>) {
        if self.phase != Phase::Results || self.results_shown {
            (self, None)
        } else {
            (GameView { results_shown: true, ..self }, Some(self.summary()))
        }
    }

    /// The replay command. On the result screen it starts a new round under a
    /// new identifier, with nothing scored and with `deck` as the deck; at any
    /// other time, or when it was not given, nothing changes.
    pub open spec fn handle_replay(self, pressed: bool, fresh_id: Seq<char>, deck: Seq<Q>) -> (
        GameView,
        Seq<Effect>,
    ) {
        if self.phase != Phase::Results || !pressed {
            (self, Seq::empty())
        } else {
            (
                GameView::replayed(next_session_id(self.session_id, fresh_id), deck),
                seq![Effect::Sound(SoundType::CardIn)],
            )
        }
    }
}

} // verus!

//! The game itself: the state of a round and the functions that advance it.
//! Each function does what its rule in the model says, and nothing else.

use crate::chance::{fresh_session_id, is_hyphenated_v4, random_below, random_seed};
use crate::choice::{Choice, PlayArea};
use crate::effect::{Effect, SoundType};
use crate::model::{
    lemma_new_session_differs, next_session_id, Frame, GameView, SummaryView,
};
use crate::outcome::{resolve, Outcome};
use crate::pace::{
    bonus_for, countdown, next_tremble, pause_before_next, seconds_shown, HURRY_TIME,
    INTRO_PAUSE, PICKED_PAUSE, QUESTION_TIME, SECOND, SHAKE_UNTIL,
};
use crate::phase::Phase;
use crate::questions::{catalog_view, shuffled_deck, Questions, Q};
use crate::supply::{
    draw_next, is_used, lemma_distinct_indices_fit, lemma_unused_indices, nth_unused,
};
use crate::upkeep::{
    lemma_click_cards_wf, lemma_fresh_wf, lemma_hover_cards_wf, lemma_intro_tick_wf,
    lemma_picked_tick_wf, lemma_show_results_wf, lemma_timer_tick_wf, lemma_transition_tick_wf,
};
use vstd::prelude::*;
use vstd::string::StringExecFns;

verus! {

/// The record of a finished round, as it is handed to whoever keeps scores.
#[derive(Debug)]
pub struct RoundSummary {
    pub session_id: String,
    pub score_l: u64,
    pub score_r: u64,
    pub outcome: Outcome,
}

impl View for RoundSummary {
    type V = SummaryView;

    open spec fn view(&self) -> SummaryView {
        SummaryView {
            session_id: self.session_id@,
            score_l: self.score_l as nat,
            score_r: self.score_r as nat,
            outcome: self.outcome,
        }
    }
}

/// A round of the game. Its state can only be changed through the functions
/// below, so it is well-formed at all times.
#[derive(Debug)]
pub struct Game {
    phase: Phase,
    timer: u64,
    wait: u64,
    question: usize,
    score_l: u64,
    score_r: u64,
    picked: Option<Choice>,
    session_id: String,
    last_tick: u64,
    hovered_card: Option<Choice>,
    results_shown: bool,
    timeouts: u64,
    streak: u64,
    used_questions: Vec<usize>,
    total_reaction_time: u128,
    answers_count: u64,
    last_reaction: u64,
    tremble: u64,
    questions: Questions,
}

impl View for Game {
    type V = GameView;

    closed spec fn view(&self) -> GameView {
        GameView {
            phase: self.phase,
            timer: self.timer as nat,
            wait: self.wait as nat,
            question: self.question,
            score_l: self.score_l as nat,
            score_r: self.score_r as nat,
            picked: self.picked,
            session_id: self.session_id@,
            last_tick: self.last_tick as nat,
            hovered_card: self.hovered_card,
            results_shown: self.results_shown,
            timeouts: self.timeouts as nat,
            streak: self.streak as nat,
            used_questions: self.used_questions@,
            total_reaction_time: self.total_reaction_time as nat,
            answers_count: self.answers_count as nat,
            last_reaction: self.last_reaction as nat,
            tremble: self.tremble as nat,
            questions: self.questions@,
        }
    }
}

/// Joins two lists of effects into one.
fn join(first: Vec<Effect>, second: Vec<Effect>) -> (all: Vec<Effect>)
    ensures
        all@ == first@ + second@,
{
    let mut all = first;
    let mut rest = second;
    all.append(&mut rest);
    all
}

/// A list with a single sound in it.
fn sound(kind: SoundType) -> (fx: Vec<Effect>)
    ensures
        fx@ == seq![Effect::Sound(kind)],
{
    let mut fx: Vec<Effect> = Vec::new();
    fx.push(Effect::Sound(kind));
    assert(fx@ =~= seq![Effect::Sound(kind)]);
    fx
}

/// The side that stands for a number: the left one for zero, the right one
/// for anything else.
pub fn side_for(r: usize) -> (side: Choice)
    ensures
        side == if r == 0 {
            Choice::Left
        } else {
            Choice::Right
        },
{
    if r == 0 {
        Choice::Left
    } else {
        Choice::Right
    }
}

impl Game {
    #[verifier::type_invariant]
    spec fn inv(self) -> bool {
        self@.wf()
    }

    /// A round with nothing scored, about to enter `phase` for `wait`.
    fn fresh(phase: Phase, wait: u64, session_id: String, questions: Questions) -> (g: Game)
        requires
            phase.awaits_pick(),
            wait <= INTRO_PAUSE,
        ensures
            g@ == GameView::fresh(phase, wait as nat, session_id@, questions@),
            g@.wf(),
    {
        let empty = questions.len() == 0;
        let mut used: Vec<usize> = Vec::new();
        if !empty {
            used.push(0);
        }
        proof {
            lemma_fresh_wf(phase, wait as nat, session_id@, questions@);
            assert(used@ =~= GameView::fresh(
                phase,
                wait as nat,
                session_id@,
                questions@,
            ).used_questions);
        }
        Game {
            phase: if empty {
                Phase::Results
            } else {
                phase
            },
            timer: QUESTION_TIME,
            wait: if empty {
                0
            } else {
                wait
            },
            question: 0,
            score_l: 0,
            score_r: 0,
            picked: None,
            session_id,
            last_tick: countdown(QUESTION_TIME),
            hovered_card: None,
            results_shown: false,
            timeouts: 0,
            streak: 0,
            used_questions: used,
            total_reaction_time: 0,
            answers_count: 0,
            last_reaction: QUESTION_TIME,
            tremble: 0,
            questions,
        }
    }

    /// Opens a round under the given identifier, to be played from the given
    /// deck. The round begins with the intro and the first question of the
    /// deck; with an empty deck it is over at once.
    pub fn new(session_id: String, questions: Questions) -> (g: Game)
        ensures
            g@ == GameView::opening(session_id@, questions@),
            g@.wf(),
    {
        Game::fresh(Phase::Intro, INTRO_PAUSE, session_id, questions)
    }

    /// Starts a round as a replay does: under the given identifier, from the
    /// given deck, straight at the first question and without the intro.
    pub fn replayed(session_id: String, questions: Questions) -> (g: Game)
        ensures
            g@ == GameView::replayed(session_id@, questions@),
            g@.wf(),
    {
        Game::fresh(Phase::Playing, 0, session_id, questions)
    }

    /// The intro: once its pause is over, the first question opens.
    pub fn intro_tick(self, dt: u64) -> (out: (Game, Vec<Effect>))
        ensures
            out.0@ == self@.intro_tick(dt as nat).0,
            out.1@ == self@.intro_tick(dt as nat).1,
            out.0@.wf(),
    {
        proof {
            use_type_invariant(&self);
            lemma_intro_tick_wf(self@, dt as nat);
        }
        if self.phase != Phase::Intro {
            (self, Vec::new())
        } else if dt < self.wait {
            (Game { wait: self.wait - dt, ..self }, Vec::new())
        } else {
            (
                Game {
                    phase: Phase::Playing,
                    wait: 0,
                    timer: QUESTION_TIME,
                    last_tick: countdown(QUESTION_TIME),
                    ..self
                },
                sound(SoundType::Whoosh),
            )
        }
    }

    /// The countdown of the open question. When it runs out, `side` is picked
    /// for the player and scored.
    pub fn timer_tick(self, dt: u64, side: Choice) -> (out: (Game, Vec<Effect>))
        ensures
            out.0@ == self@.timer_tick(dt as nat, side).0,
            out.1@ == self@.timer_tick(dt as nat, side).1,
            out.0@.wf(),
    {
        proof {
            use_type_invariant(&self);
            lemma_timer_tick_wf(self@, dt as nat, side);
            lemma_distinct_indices_fit(self@.used_questions, self@.questions.len());
        }
        if self.phase != Phase::Playing {
            return (self, Vec::new());
        }
        let left: u64 = if dt < self.timer {
            self.timer - dt
        } else {
            0
        };
        let secs = countdown(left);
        let announced = secs < self.last_tick && (dt < self.timer || dt - self.timer < SECOND);
        let last_tick: u64 = if announced {
            secs
        } else {
            self.last_tick
        };
        let mut fx: Vec<Effect> = if !announced {
            Vec::new()
        } else if secs <= 2 {
            sound(SoundType::TickUrgent)
        } else {
            sound(SoundType::Tick)
        };
        if left > 0 {
            (Game { timer: left, last_tick, ..self }, fx)
        } else {
            fx.push(Effect::Sound(SoundType::Whoosh));
            let score_l: u64 = match side {
                Choice::Left => self.score_l + 1,
                Choice::Right => self.score_l,
            };
            let score_r: u64 = match side {
                Choice::Left => self.score_r,
                Choice::Right => self.score_r + 1,
            };
            (
                Game {
                    phase: Phase::Picked,
                    timer: 0,
                    wait: PICKED_PAUSE,
                    last_tick,
                    picked: Some(side),
                    score_l,
                    score_r,
                    timeouts: self.timeouts + 1,
                    streak: 0,
                    ..self
                },
                fx,
            )
        }
    }

    /// A click at a point of the play surface. A click off the surface
    /// changes nothing; one on it is a click on the card of its half.
    pub fn click_at(self, area: PlayArea, x: i32, y: i32) -> (out: (Game, Vec<Effect>))
        ensures
            out.0@ == self@.click_at(area, x as int, y as int).0,
            out.1@ == self@.click_at(area, x as int, y as int).1,
            out.0@.wf(),
    {
        proof {
            use_type_invariant(&self);
        }
        match area.zone_at(x, y) {
            Some(choice) => self.click_cards(choice),
            None => (self, Vec::new()),
        }
    }

    /// A click on a card. It counts while a question is open and at no other
    /// time.
    pub fn click_cards(self, choice: Choice) -> (out: (Game, Vec<Effect>))
        ensures
            out.0@ == self@.click_cards(choice).0,
            out.1@ == self@.click_cards(choice).1,
            out.0@.wf(),
    {
        proof {
            use_type_invariant(&self);
            lemma_click_cards_wf(self@, choice);
            lemma_distinct_indices_fit(self@.used_questions, self@.questions.len());
        }
        if self.phase != Phase::Playing {
            return (self, Vec::new());
        }
        let reaction: u64 = QUESTION_TIME - self.timer;
        let total: u128 = self.total_reaction_time + reaction as u128;
        let answers: u64 = self.answers_count + 1;
        let tremble = next_tremble(self.tremble, reaction);
        let streak: u64 = self.streak + 1;
        let intensity: u128 = streak as u128 + bonus_for(total, answers) as u128 + (tremble
            / 200) as u128;
        let score_l: u64 = match choice {
            Choice::Left => self.score_l + 1,
            Choice::Right => self.score_l,
        };
        let score_r: u64 = match choice {
            Choice::Left => self.score_r,
            Choice::Right => self.score_r + 1,
        };
        let mut fx = sound(SoundType::Select);
        fx.push(Effect::Fireworks { intensity });
        assert(fx@ =~= self@.click_cards(choice).1);
        (
            Game {
                phase: Phase::Picked,
                wait: PICKED_PAUSE,
                picked: Some(choice),
                score_l,
                score_r,
                timeouts: 0,
                streak,
                total_reaction_time: total,
                answers_count: answers,
                last_reaction: reaction,
                tremble,
                ..self
            },
            fx,
        )
    }

    /// The pause that shows the picked card. When it is over the flash
    /// begins; the pick, the current question and the questions drawn stay as
    /// they are.
    pub fn picked_tick(self, dt: u64) -> (out: (Game, Vec<Effect>))
        ensures
            out.0@ == self@.picked_tick(dt as nat).0,
            out.1@ == self@.picked_tick(dt as nat).1,
            out.0@.wf(),
    {
        proof {
            use_type_invariant(&self);
            lemma_picked_tick_wf(self@, dt as nat);
        }
        if self.phase != Phase::Picked {
            (self, Vec::new())
        } else if dt < self.wait {
            (Game { wait: self.wait - dt, ..self }, Vec::new())
        } else {
            let wait = pause_before_next(self.answers_count, self.last_reaction);
            (Game { phase: Phase::Transition, wait, ..self }, sound(SoundType::Go))
        }
    }

    /// The flash between two questions. When it is over, the wanted question
    /// is taken and opened if it is unused, the first unused one if it is
    /// not, or the round ends if none is left.
    pub fn transition_tick(self, dt: u64, want: usize) -> (out: (Game, Vec<Effect>))
        ensures
            out.0@ == self@.transition_tick(dt as nat, want).0,
            out.1@ == self@.transition_tick(dt as nat, want).1,
            out.0@.wf(),
    {
        proof {
            use_type_invariant(&self);
            lemma_transition_tick_wf(self@, dt as nat, want);
            lemma_unused_indices(self@.questions.len() as usize, self@.used_questions);
        }
        if self.phase != Phase::Transition {
            return (self, Vec::new());
        }
        if dt < self.wait {
            return (Game { wait: self.wait - dt, ..self }, Vec::new());
        }
        let n = self.questions.len();
        let next = if want < n && !is_used(&self.used_questions, want) {
            Some(want)
        } else {
            nth_unused(n, &self.used_questions, 0)
        };
        match next {
            None => (Game { phase: Phase::Results, wait: 0, ..self }, sound(SoundType::Result)),
            Some(next) => {
                let mut used = self.used_questions;
                used.push(next);
                (
                    Game {
                        phase: Phase::Playing,
                        wait: 0,
                        question: next,
                        used_questions: used,
                        timer: QUESTION_TIME,
                        last_tick: countdown(QUESTION_TIME),
                        picked: None,
                        ..self
                    },
                    sound(SoundType::CardIn),
                )
            },
        }
    }

    /// One frame with everything given: the time that passed, the click, and
    /// what chance would decide.
    pub fn advance(self, frame: Frame) -> (out: (Game, Vec<Effect>))
        ensures
            out.0@ == self@.step(frame).0,
            out.1@ == self@.step(frame).1,
            out.0@.wf(),
    {
        let (g, fx_intro) = self.intro_tick(frame.dt);
        let (g, fx_timer) = g.timer_tick(frame.dt, frame.side);
        let (g, fx_click) = match frame.click {
            Some(choice) => g.click_cards(choice),
            None => (g, Vec::new()),
        };
        let (g, fx_picked) = g.picked_tick(frame.dt);
        let (g, fx_next) = g.transition_tick(frame.dt, frame.next);
        let fx = join(join(join(join(fx_intro, fx_timer), fx_click), fx_picked), fx_next);
        (g, fx)
    }

    /// One frame of play. Time passes, the click, if any, is taken, and where
    /// the rules leave something to chance it is drawn here: the side that is
    /// picked when the countdown runs out, and the question that is taken
    /// when the flash ends. The outcome is the one that `advance` gives for
    /// the same time and click with what was drawn.
    pub fn update(self, click: Option<Choice>, dt: u64) -> (out: (Game, Vec<Effect>))
        ensures
            exists|side: Choice, next: usize|
                {
                    &&& out.0@ == (#[trigger] self@.step(Frame { dt, click, side, next })).0
                    &&& out.1@ == self@.step(Frame { dt, click, side, next }).1
                },
            out.0@.wf(),
    {
        let (g, fx_intro) = self.intro_tick(dt);
        let side = if g.phase == Phase::Playing && dt >= g.timer {
            side_for(random_below(2))
        } else {
            Choice::Left
        };
        let (g, fx_timer) = g.timer_tick(dt, side);
        let (g, fx_click) = match click {
            Some(choice) => g.click_cards(choice),
            None => (g, Vec::new()),
        };
        let (g, fx_picked) = g.picked_tick(dt);
        let drawn = if g.phase == Phase::Transition && dt >= g.wait {
            draw_next(g.questions.len(), &g.used_questions)
        } else {
            None
        };
        let next = match drawn {
            Some(i) => i,
            None => 0,
        };
        let (g, fx_next) = g.transition_tick(dt, next);
        let fx = join(join(join(join(fx_intro, fx_timer), fx_click), fx_picked), fx_next);
        proof {
            let frame = Frame { dt, click, side, next };
            assert(g@ == self@.step(frame).0);
            assert(fx@ == self@.step(frame).1);
        }
        (g, fx)
    }

    /// The pointer came to rest on `hovered`: a card, or none.
    pub fn hover_cards(self, hovered: Option<Choice>) -> (out: (Game, Vec<Effect>))
        ensures
            out.0@ == self@.hover_cards(hovered).0,
            out.1@ == self@.hover_cards(hovered).1,
            out.0@.wf(),
    {
        proof {
            use_type_invariant(&self);
            lemma_hover_cards_wf(self@, hovered);
        }
        if self.phase != Phase::Playing || hovered == self.hovered_card {
            (self, Vec::new())
        } else {
            let fx = if hovered.is_some() {
                sound(SoundType::Hover)
            } else {
                Vec::new()
            };
            (Game { hovered_card: hovered, ..self }, fx)
        }
    }

    /// Hands out the record of the round, once, when the round is over.
    pub fn show_results(self) -> (out: (Game, Option<RoundSummary>))
        ensures
            out.0@ == self@.show_results().0,
            summary_view(out.1) == self@.show_results().1,
            out.0@.wf(),
    {
        proof {
            use_type_invariant(&self);
            lemma_show_results_wf(self@);
        }
        if self.phase != Phase::Results || self.results_shown {
            (self, None)
        } else {
            let summary = RoundSummary {
                session_id: self.session_id.clone(),
                score_l: self.score_l,
                score_r: self.score_r,
                outcome: resolve(self.score_l, self.score_r),
            };
            (Game { results_shown: true, ..self }, Some(summary))
        }
    }

    /// The replay command with everything given: whether the key was pressed,
    /// a freshly drawn identifier, and the seed of the new shuffle. On the
    /// result screen a pressed key starts a new round: nothing is scored, the
    /// deck is shuffled with the seed, and the identifier is the fresh one,
    /// or the fresh one with a `+` behind it should it repeat the old one.
    pub fn replay_with(self, pressed: bool, fresh_id: String, seed: u64) -> (out: (
        Game,
        Vec<Effect>,
    ))
        ensures
            out.0@ == self@.handle_replay(
                pressed,
                fresh_id@,
                shuffled_deck(self@.questions, seed),
            ).0,
            out.1@ == self@.handle_replay(
                pressed,
                fresh_id@,
                shuffled_deck(self@.questions, seed),
            ).1,
            out.0@.questions.len() == self@.questions.len(),
            out.0@.questions.to_multiset() == self@.questions.to_multiset(),
            out.0@.wf(),
    {
        proof {
            use_type_invariant(&self);
        }
        if self.phase != Phase::Results || !pressed {
            return (self, Vec::new());
        }
        let session_id = if fresh_id == self.session_id {
            proof {
                reveal_strlit("+");
                assert(fresh_id@ + "+"@ =~= fresh_id@.push('+'));
            }
            fresh_id.concat("+")
        } else {
            fresh_id
        };
        let questions = self.questions.reshuffled(seed);
        (Game::replayed(session_id, questions), sound(SoundType::CardIn))
    }

    /// The replay command. On the result screen a pressed key starts a new
    /// round with nothing scored, under an identifier that differs from the
    /// old one, with the deck shuffled anew; the identifier and the seed are
    /// drawn here. At any other time, and without the key, nothing changes.
    pub fn handle_replay(self, pressed: bool) -> (out: (Game, Vec<Effect>))
        ensures
            !(pressed && self@.phase == Phase::Results) ==> out.0@ == self@ && out.1@
                == Seq::<Effect>::empty(),
            pressed && self@.phase == Phase::Results ==> exists|id: Seq<char>, seed: u64|
                #![trigger is_hyphenated_v4(id), shuffled_deck(self@.questions, seed)]
                {
                    &&& is_hyphenated_v4(id)
                    &&& out.0@ == GameView::replayed(
                        next_session_id(self@.session_id, id),
                        shuffled_deck(self@.questions, seed),
                    )
                },
            pressed && self@.phase == Phase::Results ==> {
                &&& out.0@.score_l == 0
                &&& out.0@.score_r == 0
                &&& out.0@.session_id != self@.session_id
                &&& out.0@ == GameView::replayed(out.0@.session_id, out.0@.questions)
                &&& out.1@ == seq![Effect::Sound(SoundType::CardIn)]
            },
            out.0@.questions.len() == self@.questions.len(),
            out.0@.questions.to_multiset() == self@.questions.to_multiset(),
            out.0@.wf(),
    {
        proof {
            use_type_invariant(&self);
        }
        if self.phase != Phase::Results || !pressed {
            return (self, Vec::new());
        }
        let fresh_id = fresh_session_id();
        let seed = random_seed();
        proof {
            lemma_new_session_differs(self@.session_id, fresh_id@);
        }
        self.replay_with(true, fresh_id, seed)
    }

    /// Does nothing when run. To the verifier it says what is true of every
    /// round: that it is well-formed.
    pub fn well_formed(&self)
        ensures
            self@.wf(),
    {
        proof {
            use_type_invariant(self);
        }
    }

    /// The phase of the round.
    pub fn phase(&self) -> (phase: Phase)
        ensures
            phase == self@.phase,
    {
        self.phase
    }

    /// The time left on the countdown of the open question.
    pub fn timer(&self) -> (timer: u64)
        ensures
            timer == self@.timer,
    {
        self.timer
    }

    /// The time left on the pause of the current phase.
    pub fn wait(&self) -> (wait: u64)
        ensures
            wait == self@.wait,
    {
        self.wait
    }

    /// The position in the deck of the current question.
    pub fn question(&self) -> (question: usize)
        ensures
            question == self@.question,
    {
        self.question
    }

    /// The picks of the left side.
    pub fn score_l(&self) -> (score: u64)
        ensures
            score == self@.score_l,
    {
        self.score_l
    }

    /// The picks of the right side.
    pub fn score_r(&self) -> (score: u64)
        ensures
            score == self@.score_r,
    {
        self.score_r
    }

    /// The side picked for the current question, once it is picked.
    pub fn picked(&self) -> (picked: Option<Choice>)
        ensures
            picked == self@.picked,
    {
        self.picked
    }

    /// The identifier of the session.
    pub fn session_id(&self) -> (id: &String)
        ensures
            id@ == self@.session_id,
    {
        &self.session_id
    }

    /// The last whole second of the countdown that was announced.
    pub fn last_tick(&self) -> (secs: u64)
        ensures
            secs == self@.last_tick,
    {
        self.last_tick
    }

    /// The card under the pointer.
    pub fn hovered_card(&self) -> (hovered: Option<Choice>)
        ensures
            hovered == self@.hovered_card,
    {
        self.hovered_card
    }

    /// Whether the result of the round was handed out.
    pub fn results_shown(&self) -> (shown: bool)
        ensures
            shown == self@.results_shown,
    {
        self.results_shown
    }

    /// The questions in a row that the player let run out.
    pub fn timeouts(&self) -> (n: u64)
        ensures
            n == self@.timeouts,
    {
        self.timeouts
    }

    /// The questions in a row that the player answered.
    pub fn streak(&self) -> (n: u64)
        ensures
            n == self@.streak,
    {
        self.streak
    }

    /// The positions in the deck of the questions drawn so far.
    pub fn used_questions(&self) -> (used: &Vec<usize>)
        ensures
            used@ == self@.used_questions,
    {
        &self.used_questions
    }

    /// The sum of the reaction times of the player's answers.
    pub fn total_reaction_time(&self) -> (total: u128)
        ensures
            total == self@.total_reaction_time,
    {
        self.total_reaction_time
    }

    /// The number of the player's answers.
    pub fn answers_count(&self) -> (n: u64)
        ensures
            n == self@.answers_count,
    {
        self.answers_count
    }

    /// The reaction time of the player's last answer.
    pub fn last_reaction(&self) -> (time: u64)
        ensures
            time == self@.last_reaction,
    {
        self.last_reaction
    }

    /// The tremble of the cards, in thousandths.
    pub fn tremble(&self) -> (tremble: u64)
        ensures
            tremble == self@.tremble,
    {
        self.tremble
    }

    /// The deck.
    pub fn questions(&self) -> (deck: &Questions)
        ensures
            deck@ == self@.questions,
    {
        &self.questions
    }

    /// The current question, if the deck has any.
    pub fn current_question(&self) -> (q: Option<Q>)
        ensures
            q == if self@.question < self@.questions.len() {
                Some(self@.questions[self@.question as int])
            } else {
                None
            },
    {
        self.questions.get(self.question)
    }

    /// The whole seconds to show on the countdown.
    pub fn countdown_secs(&self) -> (secs: u64)
        ensures
            secs == seconds_shown(self@.timer),
    {
        countdown(self.timer)
    }

    /// Whether the countdown is to be shown as urgent: a question is open and
    /// no more than the hurry time is left.
    pub fn is_hurry(&self) -> (hurry: bool)
        ensures
            hurry == (self@.phase == Phase::Playing && self@.timer <= HURRY_TIME),
    {
        self.phase == Phase::Playing && self.timer <= HURRY_TIME
    }

    /// Whether the screen shakes: during the first part of the pause that
    /// shows a picked card.
    pub fn is_shaking(&self) -> (shaking: bool)
        ensures
            shaking == (self@.phase == Phase::Picked && self@.wait > SHAKE_UNTIL),
    {
        self.phase == Phase::Picked && self.wait > SHAKE_UNTIL
    }
}

/// The view of a record that may be absent.
pub open spec fn summary_view(summary: Option<RoundSummary>) -> Option<SummaryView> {
    match summary {
        Some(s) => Some(s@),
        None => None,
    }
}

impl Default for Game {
    /// Opens a round over the catalog, shuffled with a seed drawn at random,
    /// under a freshly drawn identifier. The round is in the intro, with the
    /// first of its twenty questions as the current one and nothing scored.
    fn default() -> (g: Game)
        ensures
            exists|id: Seq<char>, seed: u64|
                #![trigger is_hyphenated_v4(id), shuffled_deck(catalog_view(), seed)]
                {
                    &&& is_hyphenated_v4(id)
                    &&& g@ == GameView::opening(id, shuffled_deck(catalog_view(), seed))
                },
            g@ == GameView::opening(g@.session_id, g@.questions),
            is_hyphenated_v4(g@.session_id),
            g@.questions.len() == 20,
            g@.questions.to_multiset() == catalog_view().to_multiset(),
            g@.phase == Phase::Intro,
            g@.wait == INTRO_PAUSE,
            g@.used_questions == seq![0usize],
            g@.wf(),
    {
        let id = fresh_session_id();
        let questions = Questions::default();
        Game::new(id, questions)
    }
}

} // verus!

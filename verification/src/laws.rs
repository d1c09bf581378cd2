//! What holds of the game over whole runs, proved from its rules.

use crate::choice::Choice;
use crate::effect::{Effect, SoundType};
use crate::model::{lemma_new_session_differs, Frame, GameView};
use crate::pace::{go_pause, seconds_shown, QUESTION_TIME, SECOND};
use crate::phase::Phase;
use crate::questions::{shuffled_deck, Q};
use crate::supply::{
    lemma_distinct_indices_fit, lemma_exhausted, lemma_unused_indices, spec_nth_unused,
};
use crate::upkeep::{
    lemma_handle_replay_wf, lemma_hover_cards_wf, lemma_show_results_wf, lemma_step_wf,
};
use vstd::prelude::*;

verus! {

/// One thing that can happen to a round.
pub enum Action {
    /// A frame of play: time passes and the player may click.
    Tick(Frame),
    /// The pointer moves onto a card or off the cards.
    Hover(Option<Choice>),
    /// The result is asked for.
    ShowResults,
    /// The replay command, with the identifier drawn for the new session and
    /// the deck the new round is played from.
    Replay { fresh_id: Seq<char>, deck: Seq<Q> },
}

impl Action {
    /// Whether a machine can carry the action out: a replay's deck must not
    /// be longer than a machine can count.
    pub open spec fn feasible(self) -> bool {
        match self {
            Action::Replay { fresh_id, deck } => deck.len() <= usize::MAX,
            _ => true,
        }
    }
}

impl GameView {
    /// The round after an action.
    pub open spec fn apply(self, action: Action) -> GameView {
        match action {
            Action::Tick(frame) => self.step(frame).0,
            Action::Hover(hovered) => self.hover_cards(hovered).0,
            Action::ShowResults => self.show_results().0,
            Action::Replay { fresh_id, deck } => self.handle_replay(true, fresh_id, deck).0,
        }
    }

    /// The round after a sequence of actions, the first one first.
    pub open spec fn run(self, actions: Seq<Action>) -> GameView
        decreases actions.len(),
    {
        if actions.len() == 0 {
            self
        } else {
            self.run(actions.drop_last()).apply(actions.last())
        }
    }

    /// The round after a sequence of frames, the first one first.
    pub open spec fn play(self, frames: Seq<Frame>) -> GameView
        decreases frames.len(),
    {
        if frames.len() == 0 {
            self
        } else {
            self.play(frames.drop_last()).step(frames.last()).0
        }
    }

    /// In how many of the five phases the round is.
    pub open spec fn active_phases(self) -> nat {
        let one = |p: Phase|
            if self.phase == p {
                1nat
            } else {
                0nat
            };
        one(Phase::Intro) + one(Phase::Playing) + one(Phase::Picked) + one(Phase::Transition) + one(
            Phase::Results,
        )
    }
}

/// Whether a rule may take a round from one phase to another: it may leave
/// the phase alone, or move it one step along the cycle of a round. Nothing
/// leads out of the result screen but a replay.
pub open spec fn follows(from: Phase, to: Phase) -> bool {
    from == to || match from {
        Phase::Intro => to == Phase::Playing,
        Phase::Playing => to == Phase::Picked,
        Phase::Picked => to == Phase::Transition,
        Phase::Transition => to == Phase::Playing || to == Phase::Results,
        Phase::Results => false,
    }
}

/// Each rule moves a round at most one step along the cycle, and only the
/// rule of a phase moves a round out of that phase.
pub proof fn lemma_rules_follow_the_cycle(g: GameView, dt: nat, side: Choice, want: usize)
    ensures
        follows(g.phase, g.intro_tick(dt).0.phase),
        follows(g.phase, g.timer_tick(dt, side).0.phase),
        follows(g.phase, g.click_cards(side).0.phase),
        follows(g.phase, g.picked_tick(dt).0.phase),
        follows(g.phase, g.transition_tick(dt, want).0.phase),
        g.phase != Phase::Intro ==> g.intro_tick(dt).0 == g,
        g.phase != Phase::Playing ==> g.timer_tick(dt, side).0 == g && g.click_cards(side).0 == g,
        g.phase != Phase::Picked ==> g.picked_tick(dt).0 == g,
        g.phase != Phase::Transition ==> g.transition_tick(dt, want).0 == g,
        g.hover_cards(Some(side)).0.phase == g.phase,
        g.hover_cards(None).0.phase == g.phase,
        g.show_results().0.phase == g.phase,
{
}

/// Whatever is done to a well-formed round, in whatever order, it stays
/// well-formed.
pub proof fn lemma_run_wf(g: GameView, actions: Seq<Action>)
    requires
        g.wf(),
        forall|i: int| 0 <= i < actions.len() ==> (#[trigger] actions[i]).feasible(),
    ensures
        g.run(actions).wf(),
    decreases actions.len(),
{
    if actions.len() > 0 {
        let before = g.run(actions.drop_last());
        assert forall|i: int| 0 <= i < actions.drop_last().len() implies (
        #[trigger] actions.drop_last()[i]).feasible() by {
            assert(actions.drop_last()[i] == actions[i]);
        }
        lemma_run_wf(g, actions.drop_last());
        assert(actions.last() == actions[actions.len() - 1]);
        match actions.last() {
            Action::Tick(frame) => lemma_step_wf(before, frame),
            Action::Hover(hovered) => lemma_hover_cards_wf(before, hovered),
            Action::ShowResults => lemma_show_results_wf(before),
            Action::Replay { fresh_id, deck } => lemma_handle_replay_wf(
                before,
                true,
                fresh_id,
                deck,
            ),
        }
    }
}

/// Whatever frames a well-formed round is played through, it stays
/// well-formed.
pub proof fn lemma_play_wf(g: GameView, frames: Seq<Frame>)
    requires
        g.wf(),
    ensures
        g.play(frames).wf(),
    decreases frames.len(),
{
    if frames.len() > 0 {
        lemma_play_wf(g, frames.drop_last());
        lemma_step_wf(g.play(frames.drop_last()), frames.last());
    }
}

/// After any sequence of ticks and clicks the round is in exactly one phase.
pub proof fn lemma_one_phase_active(g: GameView, frames: Seq<Frame>)
    ensures
        g.play(frames).active_phases() == 1,
{
}

/// No question is drawn twice within a session: after any sequence of ticks
/// and clicks the questions drawn so far are all different, they are
/// questions of the deck, and there are no more of them than the deck holds.
pub proof fn lemma_no_question_repeats(g: GameView, frames: Seq<Frame>)
    requires
        g.wf(),
    ensures
        g.play(frames).used_questions.no_duplicates(),
        forall|i: int|
            0 <= i < g.play(frames).used_questions.len() ==> (#[trigger] g.play(
                frames,
            ).used_questions[i]) < g.questions.len(),
        g.play(frames).used_questions.len() <= g.questions.len(),
        g.play(frames).questions == g.questions,
{
    lemma_play_wf(g, frames);
    lemma_play_keeps_draws(g, frames);
    lemma_distinct_indices_fit(g.play(frames).used_questions, g.questions.len());
}

/// A frame never takes back a draw: the questions drawn before it are still
/// the first ones drawn after it, and at most one is added. The deck and the
/// session stay the same.
pub proof fn lemma_step_keeps_draws(g: GameView, frame: Frame)
    ensures
        g.used_questions.is_prefix_of(g.step(frame).0.used_questions),
        g.step(frame).0.used_questions.len() <= g.used_questions.len() + 1,
        g.step(frame).0.questions == g.questions,
        g.step(frame).0.session_id == g.session_id,
{
}

/// A sequence of frames never takes back a draw, nor changes the deck or the
/// session.
pub proof fn lemma_play_keeps_draws(g: GameView, frames: Seq<Frame>)
    ensures
        g.used_questions.is_prefix_of(g.play(frames).used_questions),
        g.play(frames).questions == g.questions,
        g.play(frames).session_id == g.session_id,
    decreases frames.len(),
{
    if frames.len() > 0 {
        lemma_play_keeps_draws(g, frames.drop_last());
        lemma_step_keeps_draws(g.play(frames.drop_last()), frames.last());
    }
}

/// The pause that shows a picked card changes nothing but the phase and the
/// pause: when it ends the flash begins, and the pick, the tallies, the
/// current question and the questions drawn are what they were.
pub proof fn lemma_picked_pause_keeps_the_pick(g: GameView, dt: nat)
    requires
        g.phase == Phase::Picked,
        dt >= g.wait,
    ensures
        g.picked_tick(dt).0 == (GameView {
            phase: Phase::Transition,
            wait: go_pause(g.answers_count, g.last_reaction),
            ..g
        }),
        g.picked_tick(dt).1 == seq![Effect::Sound(SoundType::Go)],
{
}

/// When the flash ends and a question is left, a question is taken that was
/// not asked before in the session: it becomes the current one, it is the
/// one added to the questions drawn, it has no pick yet, and it is opened
/// with the full question time. If the wanted question is unused, it is the
/// one taken.
pub proof fn lemma_flash_takes_an_unused_question(g: GameView, dt: nat, want: usize)
    requires
        g.wf(),
        g.phase == Phase::Transition,
        dt >= g.wait,
        g.unused().len() > 0,
    ensures
        g.transition_tick(dt, want).0.phase == Phase::Playing,
        g.transition_tick(dt, want).0.question < g.questions.len(),
        !g.used_questions.contains(g.transition_tick(dt, want).0.question),
        g.transition_tick(dt, want).0.used_questions == g.used_questions.push(
            g.transition_tick(dt, want).0.question,
        ),
        g.transition_tick(dt, want).0.picked is None,
        g.transition_tick(dt, want).0.timer == QUESTION_TIME,
        g.transition_tick(dt, want).0.last_tick == seconds_shown(QUESTION_TIME as nat),
        g.transition_tick(dt, want).1 == seq![Effect::Sound(SoundType::CardIn)],
        g.unused().contains(want) ==> g.transition_tick(dt, want).0.question == want,
{
    lemma_unused_indices(g.questions.len() as usize, g.used_questions);
    let avail = g.unused();
    let q = g.transition_tick(dt, want).0.question;
    assert(avail.contains(q));
    let k = choose|k: int| 0 <= k < avail.len() && avail[k] == q;
    assert(!g.used_questions.contains(avail[k]));
}

/// A number drawn below the number of unused questions decides the question
/// that is taken when the flash ends: the unused question of that rank, in
/// increasing order. Every unused question is taken for exactly one number.
pub proof fn lemma_drawn_rank_decides_the_question(g: GameView, dt: nat, r: usize)
    requires
        g.phase == Phase::Transition,
        dt >= g.wait,
        r < g.unused().len(),
    ensures
        spec_nth_unused(g.questions.len() as usize, g.used_questions, r) == Some(g.unused()[r as int]),
        g.transition_tick(dt, g.unused()[r as int]).0.question == g.unused()[r as int],
        forall|s: usize|
            s < g.unused().len() && s != r ==> g.transition_tick(
                dt,
                #[trigger] g.unused()[s as int],
            ).0.question != g.unused()[r as int],
{
    lemma_unused_indices(g.questions.len() as usize, g.used_questions);
    let avail = g.unused();
    assert(avail.contains(avail[r as int]));
    assert forall|s: usize| s < avail.len() && s != r implies g.transition_tick(
        dt,
        #[trigger] avail[s as int],
    ).0.question != avail[r as int] by {
        assert(avail.contains(avail[s as int]));
    }
}

/// When the flash ends and every question of the deck was drawn, the round
/// ends, whatever chance would have decided: nothing changes but the phase
/// and the pause, and the result is announced.
pub proof fn lemma_exhausted_deck_ends_round(g: GameView, dt: nat, want: usize)
    requires
        g.phase == Phase::Transition,
        dt >= g.wait,
        g.unused().len() == 0,
    ensures
        g.transition_tick(dt, want).0 == (GameView { phase: Phase::Results, wait: 0, ..g }),
        g.transition_tick(dt, want).1 == seq![Effect::Sound(SoundType::Result)],
{
}

/// The end of the flash ends the round exactly when no question is left.
pub proof fn lemma_round_ends_when_deck_is_exhausted(g: GameView, dt: nat, want: usize)
    requires
        g.phase == Phase::Transition,
        dt >= g.wait,
    ensures
        g.transition_tick(dt, want).0.phase == if g.unused().len() == 0 {
            Phase::Results
        } else {
            Phase::Playing
        },
        g.unused().len() == 0 <==> forall|i: usize|
            i < g.questions.len() as usize ==> g.used_questions.contains(i),
{
    lemma_exhausted(g.questions.len() as usize, g.used_questions);
}

/// Once the deck is exhausted no further question is opened, and where the
/// round goes does not depend on chance: two frames with the same time and
/// click lead to the same phase and leave the same questions drawn.
pub proof fn lemma_exhausted_deck_ignores_chance(g: GameView, a: Frame, b: Frame)
    requires
        g.unused().len() == 0,
        a.dt == b.dt,
        a.click == b.click,
    ensures
        g.step(a).0.phase == g.step(b).0.phase,
        g.step(a).0.used_questions == g.used_questions,
        g.step(b).0.used_questions == g.used_questions,
{
}

/// Once the deck is exhausted, a frame as long as a question lasts ends the
/// round from wherever it stands, whatever chance decides.
pub proof fn lemma_exhausted_deck_reaches_results(g: GameView, frame: Frame)
    requires
        g.wf(),
        g.unused().len() == 0,
        frame.dt >= QUESTION_TIME,
    ensures
        g.step(frame).0.phase == Phase::Results,
{
}

/// A finished round stays as it is until it is replayed: frames change
/// nothing and ask for nothing.
pub proof fn lemma_results_is_terminal(g: GameView, frame: Frame)
    requires
        g.phase == Phase::Results,
    ensures
        g.step(frame).0 == g,
        g.step(frame).1 == Seq::<Effect>::empty(),
{
    assert(g.step(frame).1 =~= Seq::<Effect>::empty());
}

/// A replay starts from nothing: both tallies are zero, and the new session
/// has an identifier that differs from the old one, whatever was drawn.
pub proof fn lemma_replay_starts_afresh(g: GameView, fresh_id: Seq<char>, deck: Seq<Q>)
    requires
        g.phase == Phase::Results,
    ensures
        g.handle_replay(true, fresh_id, deck).0.score_l == 0,
        g.handle_replay(true, fresh_id, deck).0.score_r == 0,
        g.handle_replay(true, fresh_id, deck).0.session_id != g.session_id,
        g.handle_replay(true, fresh_id, deck).0.questions == deck,
{
    lemma_new_session_differs(g.session_id, fresh_id);
}

/// What the countdown announces. With `s` the whole second a frame arrives
/// in, counted up from the end of the countdown, a second is announced
/// exactly if the frame does not run a second or more past the end and `s` is
/// below the last second announced. Then `s` is the last second announced,
/// and the sound is the urgent one exactly if `s` is two or less. The last
/// second announced never goes up.
pub proof fn lemma_countdown_announces(g: GameView, dt: nat, side: Choice)
    requires
        g.phase == Phase::Playing,
    ensures
        ({
            let s = if dt < g.timer {
                seconds_shown((g.timer - dt) as nat)
            } else {
                0
            };
            let announced = dt < g.timer + SECOND && s < g.last_tick;
            let ticks = g.timer_tick(dt, side).1.filter(
                |e: Effect|
                    e == Effect::Sound(SoundType::Tick) || e == Effect::Sound(
                        SoundType::TickUrgent,
                    ),
            );
            &&& g.timer_tick(dt, side).0.last_tick <= g.last_tick
            &&& g.timer_tick(dt, side).0.last_tick == if announced {
                s
            } else {
                g.last_tick
            }
            &&& ticks == if !announced {
                Seq::<Effect>::empty()
            } else if s <= 2 {
                seq![Effect::Sound(SoundType::TickUrgent)]
            } else {
                seq![Effect::Sound(SoundType::Tick)]
            }
        }),
{
    let keep = |e: Effect|
        e == Effect::Sound(SoundType::Tick) || e == Effect::Sound(SoundType::TickUrgent);
    let fx = g.timer_tick(dt, side).1;
    reveal_with_fuel(Seq::filter, 3);
    assert(fx.len() <= 2);
    if fx.len() == 0 {
        assert(fx.filter(keep) =~= Seq::<Effect>::empty());
    } else if fx.len() == 1 {
        assert(fx.drop_last() =~= Seq::<Effect>::empty());
        assert(fx.filter(keep) =~= if keep(fx[0]) {
            seq![fx[0]]
        } else {
            Seq::<Effect>::empty()
        });
    } else {
        assert(fx.drop_last().drop_last() =~= Seq::<Effect>::empty());
        assert(fx.drop_last().len() == 1);
        assert(fx.filter(keep) =~= seq![fx[0]]);
    }
}

/// When the countdown runs out, exactly one pick is scored: the side that
/// chance picked for the player, and the picked card is shown.
pub proof fn lemma_expiry_scores_one_pick(g: GameView, dt: nat, side: Choice)
    requires
        g.phase == Phase::Playing,
        dt >= g.timer,
    ensures
        g.timer_tick(dt, side).0.phase == Phase::Picked,
        g.timer_tick(dt, side).0.picked == Some(side),
        g.timer_tick(dt, side).0.picks() == g.picks() + 1,
        g.timer_tick(dt, side).0.score_l == g.score_l + if side == Choice::Left {
            1nat
        } else {
            0nat
        },
        g.timer_tick(dt, side).0.score_r == g.score_r + if side == Choice::Right {
            1nat
        } else {
            0nat
        },
{
}

/// When the countdown runs out in a frame, a click in the same frame counts
/// for nothing: the frame scores the one pick of the expiry and no other.
pub proof fn lemma_expiry_beats_click(g: GameView, frame: Frame)
    requires
        g.phase == Phase::Playing,
        frame.dt >= g.timer,
    ensures
        g.step(frame).0.picks() == g.picks() + 1,
        g.step(frame).0.score_l + g.step(frame).0.score_r == g.step(
            Frame { click: None, ..frame },
        ).0.score_l + g.step(Frame { click: None, ..frame }).0.score_r,
{
}

/// A click while the countdown still runs counts: the frame scores the side
/// that was clicked, once, and nothing else.
pub proof fn lemma_click_in_time_counts(g: GameView, frame: Frame, choice: Choice)
    requires
        g.phase == Phase::Playing,
        frame.dt < g.timer,
        frame.click == Some(choice),
    ensures
        g.step(frame).0.score_l == g.score_l + if choice == Choice::Left {
            1nat
        } else {
            0nat
        },
        g.step(frame).0.score_r == g.score_r + if choice == Choice::Right {
            1nat
        } else {
            0nat
        },
        g.step(frame).0.answers_count == g.answers_count + 1,
{
}

/// No pick is counted twice and no question is left unscored: a frame scores
/// at most one pick, and after any sequence of ticks and clicks there are as
/// many picks as questions were drawn, less the one that still waits for its
/// pick. A finished round has a pick for every question it drew.
pub proof fn lemma_every_question_scored_once(g: GameView, frames: Seq<Frame>)
    requires
        g.wf(),
    ensures
        g.play(frames).picks() + (if g.play(frames).phase.awaits_pick() {
            1nat
        } else {
            0nat
        }) == g.play(frames).used_questions.len(),
        g.play(frames).phase == Phase::Results ==> g.play(frames).picks() == g.play(
            frames,
        ).used_questions.len(),
        forall|frame: Frame| #[trigger]
            g.play(frames).step(frame).0.picks() <= g.play(frames).picks() + 1,
{
    lemma_play_wf(g, frames);
}

/// The order of the questions is decided by the seed: the same entries
/// shuffled with the same seed give the same deck.
pub proof fn lemma_same_seed_same_deck(entries: Seq<Q>, seed_a: u64, seed_b: u64)
    requires
        seed_a == seed_b,
    ensures
        shuffled_deck(entries, seed_a) == shuffled_deck(entries, seed_b),
{
}

} // verus!

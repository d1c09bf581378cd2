//! Every rule of the game keeps a well-formed round well-formed.

use crate::choice::Choice;
use crate::model::{Frame, GameView};
use crate::pace::INTRO_PAUSE;
use crate::phase::Phase;
use crate::questions::Q;
use crate::supply::lemma_unused_indices;
use vstd::prelude::*;

verus! {

/// A fresh round is well-formed, whatever phase it starts in.
pub proof fn lemma_fresh_wf(phase: Phase, wait: nat, session_id: Seq<char>, questions: Seq<Q>)
    requires
        phase.awaits_pick(),
        wait <= INTRO_PAUSE,
        questions.len() <= usize::MAX,
    ensures
        GameView::fresh(phase, wait, session_id, questions).wf(),
{
}

/// The intro keeps a round well-formed.
pub proof fn lemma_intro_tick_wf(g: GameView, dt: nat)
    requires
        g.wf(),
    ensures
        g.intro_tick(dt).0.wf(),
{
}

/// The countdown keeps a round well-formed.
pub proof fn lemma_timer_tick_wf(g: GameView, dt: nat, side: Choice)
    requires
        g.wf(),
    ensures
        g.timer_tick(dt, side).0.wf(),
{
}

/// A click keeps a round well-formed.
pub proof fn lemma_click_cards_wf(g: GameView, choice: Choice)
    requires
        g.wf(),
    ensures
        g.click_cards(choice).0.wf(),
{
}

/// The pause after a pick keeps a round well-formed.
pub proof fn lemma_picked_tick_wf(g: GameView, dt: nat)
    requires
        g.wf(),
    ensures
        g.picked_tick(dt).0.wf(),
{
}

/// The flash, and the draw of the next question at its end, keep a round
/// well-formed.
pub proof fn lemma_transition_tick_wf(g: GameView, dt: nat, want: usize)
    requires
        g.wf(),
    ensures
        g.transition_tick(dt, want).0.wf(),
{
    let next = g.transition_tick(dt, want).0;
    if g.phase == Phase::Transition && dt >= g.wait && g.unused().len() > 0 {
        let avail = g.unused();
        lemma_unused_indices(g.questions.len() as usize, g.used_questions);
        let q = if avail.contains(want) {
            want
        } else {
            avail[0]
        };
        assert(avail.contains(q));
        let k = choose|k: int| 0 <= k < avail.len() && avail[k] == q;
        assert(!g.used_questions.contains(q));
        assert(q < g.questions.len());
        assert(next.used_questions == g.used_questions.push(q));
        assert(next.used_questions.no_duplicates()) by {
            assert forall|i: int, j: int|
                0 <= i < next.used_questions.len() && 0 <= j < next.used_questions.len() && i
                    != j implies next.used_questions[i] != next.used_questions[j] by {
                if i < g.used_questions.len() && j < g.used_questions.len() {
                } else if i < g.used_questions.len() {
                    assert(g.used_questions.contains(g.used_questions[i]));
                } else {
                    assert(g.used_questions.contains(g.used_questions[j]));
                }
            }
        }
    }
}

/// A whole frame keeps a round well-formed.
pub proof fn lemma_step_wf(g: GameView, frame: Frame)
    requires
        g.wf(),
    ensures
        g.step(frame).0.wf(),
{
    let dt = frame.dt as nat;
    let a = g.intro_tick(dt).0;
    lemma_intro_tick_wf(g, dt);
    let b = a.timer_tick(dt, frame.side).0;
    lemma_timer_tick_wf(a, dt, frame.side);
    let c = match frame.click {
        Some(choice) => b.click_cards(choice).0,
        None => b,
    };
    if let Some(choice) = frame.click {
        lemma_click_cards_wf(b, choice);
    }
    let d = c.picked_tick(dt).0;
    lemma_picked_tick_wf(c, dt);
    lemma_transition_tick_wf(d, dt, frame.next);
}

/// The pointer keeps a round well-formed.
pub proof fn lemma_hover_cards_wf(g: GameView, hovered: Option<Choice>)
    requires
        g.wf(),
    ensures
        g.hover_cards(hovered).0.wf(),
{
}

/// Handing out the result keeps a round well-formed.
pub proof fn lemma_show_results_wf(g: GameView)
    requires
        g.wf(),
    ensures
        g.show_results().0.wf(),
{
}

/// A replay keeps a round well-formed, with any deck that a machine can hold.
pub proof fn lemma_handle_replay_wf(g: GameView, pressed: bool, fresh_id: Seq<char>, deck: Seq<Q>)
    requires
        g.wf(),
        deck.len() <= usize::MAX,
    ensures
        g.handle_replay(pressed, fresh_id, deck).0.wf(),
{
}

} // verus!

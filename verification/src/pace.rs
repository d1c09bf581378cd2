//! The clock of the game: how long things last, and what the speed of the
//! player's answers does to the tremble of the cards and to the celebration
//! of a pick. All durations are whole microseconds, and the tremble is
//! counted in thousandths.

use vstd::prelude::*;

verus! {

/// One second.
pub const SECOND: u64 = 1_000_000;

/// The time a question stays open.
pub const QUESTION_TIME: u64 = 5_000_000;

/// The remaining time at and below which the countdown is shown as urgent.
pub const HURRY_TIME: u64 = 2_000_000;

/// How long the title stays before the first question.
pub const INTRO_PAUSE: u64 = 1_500_000;

/// How long a picked card is shown.
pub const PICKED_PAUSE: u64 = 600_000;

/// The part of the picked pause, counted from its end, without screen shake.
pub const SHAKE_UNTIL: u64 = 400_000;

/// The flash between two questions while the player warms up.
pub const GO_PAUSE_WARMUP: u64 = 500_000;

/// The flash between two questions after a quick answer.
pub const GO_PAUSE_QUICK: u64 = 150_000;

/// The flash between two questions after a slower answer.
pub const GO_PAUSE_STEADY: u64 = 300_000;

/// The number of answers after which the flash between questions shortens.
pub const WARMUP_ANSWERS: u64 = 20;

/// The strongest tremble, in thousandths.
pub const TREMBLE_MAX: u64 = 1_500;

/// The whole seconds shown for a remaining time: the time rounded up.
pub open spec fn seconds_shown(timer: nat) -> nat {
    (timer + SECOND - 1) as nat / SECOND as nat
}

/// `tremble` raised by `step`, but not beyond the maximum.
pub open spec fn raised(tremble: nat, step: nat) -> nat {
    if tremble + step < TREMBLE_MAX {
        tremble + step
    } else {
        TREMBLE_MAX as nat
    }
}

/// The tremble after an answer that took `reaction`. An answer within half a
/// second raises it by 50, one within a second by 20, one within two seconds
/// by 8, up to the maximum; a slower one calms it by 100, down to nothing.
pub open spec fn tremble_after(tremble: nat, reaction: nat) -> nat {
    if 2 * reaction < SECOND {
        raised(tremble, 50)
    } else if reaction < SECOND {
        raised(tremble, 20)
    } else if reaction < 2 * SECOND {
        raised(tremble, 8)
    } else if tremble >= 100 {
        (tremble - 100) as nat
    } else {
        0
    }
}

/// The bonus for answering fast: the share of the question time that the
/// player leaves unused on average, in tenths, rounded down. `total` is the
/// sum of `count` reaction times.
pub open spec fn speed_bonus(total: nat, count: nat) -> nat {
    let full = QUESTION_TIME * count;
    if count == 0 || total >= full {
        0
    } else {
        (10 * (full - total) / full) as nat
    }
}

/// The intensity of the celebration after a pick: the streak, the speed
/// bonus, and one point for every 200 thousandths of tremble.
pub open spec fn celebration(streak: nat, total: nat, count: nat, tremble: nat) -> nat {
    streak + speed_bonus(total, count) + tremble / 200
}

/// How long the flash before the next question lasts.
pub open spec fn go_pause(answers: nat, last_reaction: nat) -> nat {
    if answers < WARMUP_ANSWERS {
        GO_PAUSE_WARMUP as nat
    } else if last_reaction < SECOND {
        GO_PAUSE_QUICK as nat
    } else {
        GO_PAUSE_STEADY as nat
    }
}

/// The whole seconds to show for a remaining time.
pub fn countdown(timer: u64) -> (secs: u64)
    ensures
        secs == seconds_shown(timer as nat),
{
    if timer % SECOND == 0 {
        timer / SECOND
    } else {
        timer / SECOND + 1
    }
}

/// `tremble` raised by `step`, but not beyond the maximum.
fn raise(tremble: u64, step: u64) -> (next: u64)
    requires
        step <= TREMBLE_MAX,
    ensures
        next == raised(tremble as nat, step as nat),
{
    if tremble < TREMBLE_MAX - step {
        tremble + step
    } else {
        TREMBLE_MAX
    }
}

/// The tremble after an answer that took `reaction`.
pub fn next_tremble(tremble: u64, reaction: u64) -> (next: u64)
    ensures
        next == tremble_after(tremble as nat, reaction as nat),
{
    if reaction < SECOND / 2 {
        raise(tremble, 50)
    } else if reaction < SECOND {
        raise(tremble, 20)
    } else if reaction < 2 * SECOND {
        raise(tremble, 8)
    } else if tremble >= 100 {
        tremble - 100
    } else {
        0
    }
}

/// The speed bonus for `count` answers that took `total` together.
pub fn bonus_for(total: u128, count: u64) -> (bonus: u64)
    ensures
        bonus == speed_bonus(total as nat, count as nat),
        bonus <= 10,
{
    let full: u128 = (QUESTION_TIME as u128) * (count as u128);
    if count == 0 || total >= full {
        0
    } else {
        let spare: u128 = full - total;
        let tenths: u128 = (10 * spare) / full;
        assert(tenths <= 10) by (nonlinear_arith)
            requires
                tenths == (10 * spare) / (full as int),
                0 < spare <= full,
        ;
        tenths as u64
    }
}

/// The pause before the next question.
pub fn pause_before_next(answers: u64, last_reaction: u64) -> (pause: u64)
    ensures
        pause == go_pause(answers as nat, last_reaction as nat),
{
    if answers < WARMUP_ANSWERS {
        GO_PAUSE_WARMUP
    } else if last_reaction < SECOND {
        GO_PAUSE_QUICK
    } else {
        GO_PAUSE_STEADY
    }
}

} // verus!

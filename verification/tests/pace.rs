use two_people::pace::{
    bonus_for, countdown, next_tremble, pause_before_next, GO_PAUSE_QUICK, GO_PAUSE_STEADY,
    GO_PAUSE_WARMUP, HURRY_TIME, INTRO_PAUSE, PICKED_PAUSE, QUESTION_TIME, SECOND,
    SHAKE_UNTIL, TREMBLE_MAX, WARMUP_ANSWERS,
};

#[test]
fn durations_are_in_microseconds() {
    assert_eq!(SECOND, 1_000_000);
    assert_eq!(QUESTION_TIME, 5 * SECOND);
    assert_eq!(HURRY_TIME, 2 * SECOND);
    assert_eq!(INTRO_PAUSE, 1_500_000);
    assert_eq!(PICKED_PAUSE, 600_000);
    assert_eq!(SHAKE_UNTIL, 400_000);
    assert_eq!(WARMUP_ANSWERS, 20);
}

#[test]
fn countdown_rounds_up_to_whole_seconds() {
    assert_eq!(countdown(0), 0);
    assert_eq!(countdown(1), 1);
    assert_eq!(countdown(999_999), 1);
    assert_eq!(countdown(1_000_000), 1);
    assert_eq!(countdown(1_000_001), 2);
    assert_eq!(countdown(5_000_000), 5);
    assert_eq!(countdown(u64::MAX), 18_446_744_073_710);
}

#[test]
fn quick_answers_raise_the_tremble() {
    assert_eq!(next_tremble(0, 0), 50);
    assert_eq!(next_tremble(0, 499_999), 50);
    assert_eq!(next_tremble(0, 500_000), 20);
    assert_eq!(next_tremble(0, 999_999), 20);
    assert_eq!(next_tremble(0, 1_000_000), 8);
    assert_eq!(next_tremble(0, 1_999_999), 8);
}

#[test]
fn slow_answers_calm_the_tremble() {
    assert_eq!(next_tremble(300, 2_000_000), 200);
    assert_eq!(next_tremble(100, 5_000_000), 0);
    assert_eq!(next_tremble(99, 2_000_000), 0);
    assert_eq!(next_tremble(0, 2_000_000), 0);
}

#[test]
fn tremble_stops_at_its_maximum() {
    assert_eq!(TREMBLE_MAX, 1_500);
    assert_eq!(next_tremble(1_449, 0), 1_499);
    assert_eq!(next_tremble(1_450, 0), 1_500);
    assert_eq!(next_tremble(1_500, 0), 1_500);
    assert_eq!(next_tremble(1_490, 600_000), 1_500);
    assert_eq!(next_tremble(1_495, 1_500_000), 1_500);
    assert_eq!(next_tremble(u64::MAX, 0), 1_500);
    assert_eq!(next_tremble(u64::MAX, 3_000_000), u64::MAX - 100);
}

#[test]
fn speed_bonus_is_the_unused_share_in_tenths() {
    assert_eq!(bonus_for(0, 1), 10);
    assert_eq!(bonus_for(1, 1), 9);
    assert_eq!(bonus_for(1_200_000, 1), 7);
    assert_eq!(bonus_for(1_400_000, 2), 8);
    assert_eq!(bonus_for(2_500_000, 1), 5);
    assert_eq!(bonus_for(4_999_999, 1), 0);
    assert_eq!(bonus_for(5_000_000, 1), 0);
    assert_eq!(bonus_for(9_000_000, 1), 0);
    assert_eq!(bonus_for(0, 0), 0);
    assert_eq!(bonus_for(u128::MAX, u64::MAX), 0);
    assert_eq!(bonus_for(0, u64::MAX), 10);
}

#[test]
fn flash_shortens_after_the_warm_up() {
    assert_eq!(pause_before_next(0, 0), GO_PAUSE_WARMUP);
    assert_eq!(pause_before_next(19, 0), GO_PAUSE_WARMUP);
    assert_eq!(pause_before_next(20, 999_999), GO_PAUSE_QUICK);
    assert_eq!(pause_before_next(20, 1_000_000), GO_PAUSE_STEADY);
    assert_eq!(GO_PAUSE_WARMUP, 500_000);
    assert_eq!(GO_PAUSE_QUICK, 150_000);
    assert_eq!(GO_PAUSE_STEADY, 300_000);
}

use two_people::choice::{Choice, PlayArea};
use two_people::effect::{sparks_for, stars_for};
use two_people::outcome::{resolve, Outcome};

#[test]
fn more_left_picks_lean_left() {
    assert_eq!(resolve(3, 1), Outcome::LeftLeaning);
}

#[test]
fn more_right_picks_lean_right() {
    assert_eq!(resolve(1, 3), Outcome::RightLeaning);
}

#[test]
fn equal_picks_are_balanced() {
    assert_eq!(resolve(2, 2), Outcome::Balanced);
    assert_eq!(resolve(0, 0), Outcome::Balanced);
}

#[test]
fn resolver_gives_the_same_answer_every_time() {
    let first = resolve(7, 4);
    let _ = resolve(1, 9);
    let _ = resolve(5, 5);
    assert_eq!(resolve(7, 4), first);
    assert_eq!(resolve(u64::MAX, u64::MAX - 1), Outcome::LeftLeaning);
    assert_eq!(resolve(u64::MAX - 1, u64::MAX), Outcome::RightLeaning);
}

#[test]
fn outcomes_have_their_lines_and_names() {
    assert_eq!(Outcome::LeftLeaning.headline(), "You're a CHAOTIC GREMLIN!");
    assert_eq!(Outcome::RightLeaning.headline(), "You're a FUNCTIONING ADULT!");
    assert_eq!(Outcome::Balanced.headline(), "You're PERFECTLY BALANCED!");
    assert_eq!(Outcome::LeftLeaning.result_type(), "chaotic_gremlin");
    assert_eq!(Outcome::RightLeaning.result_type(), "functioning_adult");
    assert_eq!(Outcome::Balanced.result_type(), "perfectly_balanced");
}

#[test]
fn clicks_select_the_half_they_land_in() {
    let area = PlayArea { half_width: 640, half_height: 360 };
    assert_eq!(area.zone_at(-1, 0), Some(Choice::Left));
    assert_eq!(area.zone_at(-640, -360), Some(Choice::Left));
    assert_eq!(area.zone_at(0, 0), Some(Choice::Right));
    assert_eq!(area.zone_at(640, 360), Some(Choice::Right));
}

#[test]
fn clicks_off_the_surface_select_nothing() {
    let area = PlayArea { half_width: 640, half_height: 360 };
    assert_eq!(area.zone_at(-641, 0), None);
    assert_eq!(area.zone_at(641, 0), None);
    assert_eq!(area.zone_at(0, 361), None);
    assert_eq!(area.zone_at(0, -361), None);
    assert_eq!(area.zone_at(i32::MIN, i32::MAX), None);
    let nothing = PlayArea { half_width: 0, half_height: 0 };
    assert_eq!(nothing.zone_at(0, 0), Some(Choice::Right));
    assert_eq!(nothing.zone_at(-1, 0), None);
}

#[test]
fn celebrations_grow_with_intensity_up_to_a_cap() {
    assert_eq!(sparks_for(0), 20);
    assert_eq!(sparks_for(1), 35);
    assert_eq!(sparks_for(13), 215);
    assert_eq!(sparks_for(14), 220);
    assert_eq!(sparks_for(1000), 220);
    assert_eq!(stars_for(0), 0);
    assert_eq!(stars_for(9), 45);
    assert_eq!(stars_for(10), 50);
    assert_eq!(stars_for(u128::MAX), 50);
}

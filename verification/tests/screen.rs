use two_people::choice::Choice;
use two_people::game::Game;
use two_people::phase::Phase;
use two_people::questions::{Questions, Q};
use two_people::screen::{
    VisibleText, CHOOSE_FAST, GO, HINT_CLICK, HINT_RESTART, PLAY_AGAIN, TITLE, TOO_SLOW,
};

fn two_questions() -> Questions {
    Questions(vec![
        Q { title: "Tea or...", left: "TEA", right: "COFFEE" },
        Q { title: "Cats or...", left: "CATS", right: "DOGS" },
    ])
}

#[test]
fn the_lines_are_what_they_say() {
    assert_eq!(TITLE, "TWO PEOPLE");
    assert_eq!(CHOOSE_FAST, "CHOOSE FAST!");
    assert_eq!(GO, "GO!");
    assert_eq!(TOO_SLOW, "UH OH! TOO SLOW!");
    assert_eq!(PLAY_AGAIN, "Press R to play again!");
    assert_eq!(HINT_CLICK, "Click a card to choose!");
    assert_eq!(HINT_RESTART, "Press R to restart");
}

#[test]
fn the_intro_shows_the_title() {
    let g = Game::new(String::from("s1"), two_questions());
    assert_eq!(
        g.visible_text(),
        VisibleText {
            prompt: Some("TWO PEOPLE"),
            banner: Some("CHOOSE FAST!"),
            cards: false,
            left: None,
            right: None,
            countdown: None,
            urgent: false,
            outcome: None,
            hint: "Click a card to choose!",
        }
    );
}

#[test]
fn an_open_question_shows_its_text_and_the_countdown() {
    let g = Game::new(String::from("s1"), two_questions());
    let (g, _) = g.intro_tick(1_500_000);
    assert_eq!(
        g.visible_text(),
        VisibleText {
            prompt: Some("Tea or..."),
            banner: None,
            cards: true,
            left: Some("TEA"),
            right: Some("COFFEE"),
            countdown: Some(5),
            urgent: false,
            outcome: None,
            hint: "Click a card to choose!",
        }
    );
    let (g, _) = g.timer_tick(3_000_001, Choice::Left);
    let text = g.visible_text();
    assert_eq!(text.countdown, Some(2));
    assert!(text.urgent);
}

#[test]
fn a_picked_card_keeps_the_answers_on_screen() {
    let g = Game::new(String::from("s1"), two_questions());
    let (g, _) = g.intro_tick(1_500_000);
    let (g, _) = g.click_cards(Choice::Left);
    assert_eq!(
        g.visible_text(),
        VisibleText {
            prompt: None,
            banner: None,
            cards: true,
            left: Some("TEA"),
            right: Some("COFFEE"),
            countdown: None,
            urgent: false,
            outcome: None,
            hint: "Click a card to choose!",
        }
    );
    let (g, _) = g.picked_tick(600_000);
    assert_eq!(g.phase(), Phase::Transition);
    let text = g.visible_text();
    assert_eq!(text.banner, Some("GO!"));
    assert_eq!(text.prompt, None);
    assert!(text.cards);
    assert_eq!(text.left, Some("TEA"));
    assert_eq!(text.right, Some("COFFEE"));
    let (g, _) = g.transition_tick(500_000, 1);
    let text = g.visible_text();
    assert_eq!(text.prompt, Some("Cats or..."));
    assert_eq!(text.left, Some("CATS"));
    assert_eq!(text.right, Some("DOGS"));
    assert_eq!(text.banner, None);
}

#[test]
fn a_card_picked_for_the_player_says_too_slow() {
    let g = Game::new(String::from("s1"), two_questions());
    let (g, _) = g.intro_tick(1_500_000);
    let (g, _) = g.timer_tick(5_000_000, Choice::Right);
    let text = g.visible_text();
    assert_eq!(text.banner, Some("UH OH! TOO SLOW!"));
    assert_eq!(text.countdown, None);
    assert!(!text.urgent);
}

#[test]
fn the_result_screen_shows_the_outcome() {
    let g = Game::new(String::from("s1"), two_questions());
    let (g, _) = g.intro_tick(1_500_000);
    let (g, _) = g.click_cards(Choice::Left);
    let (g, _) = g.picked_tick(600_000);
    let (g, _) = g.transition_tick(500_000, 1);
    let (g, _) = g.click_cards(Choice::Left);
    let (g, _) = g.picked_tick(600_000);
    let (g, _) = g.transition_tick(500_000, 0);
    assert_eq!(g.phase(), Phase::Results);
    assert_eq!(
        g.visible_text(),
        VisibleText {
            prompt: Some("Press R to play again!"),
            banner: None,
            cards: false,
            left: None,
            right: None,
            countdown: None,
            urgent: false,
            outcome: Some("You're a CHAOTIC GREMLIN!"),
            hint: "Press R to restart",
        }
    );
}

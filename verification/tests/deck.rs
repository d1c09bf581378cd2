use two_people::questions::{catalog, Questions, CATALOG_LEN, LEFTS, Q, RIGHTS, TITLES};

fn titles(deck: &Questions) -> Vec<&'static str> {
    let mut all = Vec::new();
    for i in 0..deck.len() {
        match deck.get(i) {
            Some(q) => all.push(q.title),
            None => panic!("the deck is shorter than it says"),
        }
    }
    all
}

#[test]
fn catalog_holds_twenty_questions() {
    let all = catalog();
    assert_eq!(all.len(), 20);
    assert_eq!(CATALOG_LEN, 20);
    assert_eq!(all[0].title, "There are 2 types of people...");
    assert_eq!(all[0].left, "EARLY\nBIRD");
    assert_eq!(all[0].right, "NIGHT\nOWL");
    assert_eq!(all[19].title, "Drunk behavior...");
    assert_eq!(all[19].left, "CLINGY\nAF");
    assert_eq!(all[19].right, "SLEEPY\nQUIET");
    for i in 0..20 {
        assert_eq!(all[i], Q { title: TITLES[i], left: LEFTS[i], right: RIGHTS[i] });
    }
}

#[test]
fn same_seed_gives_the_same_deck() {
    let a = Questions::shuffled(catalog(), 2024);
    let b = Questions::shuffled(catalog(), 2024);
    assert_eq!(a.0, b.0);
    let c = Questions::shuffled(catalog(), 0);
    let d = Questions::shuffled(catalog(), 0);
    assert_eq!(c.0, d.0);
}

#[test]
fn shuffle_changes_the_order() {
    let listed = Questions(catalog());
    let a = Questions::shuffled(catalog(), 1);
    let b = Questions::shuffled(catalog(), 2);
    assert_ne!(a.0, listed.0);
    assert_ne!(b.0, listed.0);
    assert_ne!(a.0, b.0);
}

#[test]
fn shuffle_keeps_every_question_once() {
    for seed in 0..25u64 {
        let deck = Questions::shuffled(catalog(), seed);
        assert_eq!(deck.len(), 20);
        let mut got = titles(&deck);
        got.sort();
        let mut want = titles(&Questions(catalog()));
        want.sort();
        assert_eq!(got, want);
    }
}

#[test]
fn shuffle_of_small_decks() {
    let none = Questions::shuffled(Vec::new(), 9);
    assert_eq!(none.len(), 0);
    assert_eq!(none.get(0), None);
    let only = Q { title: "t", left: "l", right: "r" };
    let one = Questions::shuffled(vec![only], 9);
    assert_eq!(one.len(), 1);
    assert_eq!(one.get(0), Some(only));
    assert_eq!(one.get(1), None);
}

#[test]
fn arranged_takes_the_entries_in_the_given_order() {
    let a = Q { title: "a", left: "1", right: "2" };
    let b = Q { title: "b", left: "3", right: "4" };
    let c = Q { title: "c", left: "5", right: "6" };
    let entries = vec![a, b, c];
    let deck = Questions::arranged(&entries, &vec![2, 0, 1]).expect("the order fits");
    assert_eq!(deck.0, vec![c, a, b]);
    let twice = Questions::arranged(&entries, &vec![1, 1]).expect("the order fits");
    assert_eq!(twice.0, vec![b, b]);
    let none = Questions::arranged(&entries, &vec![]).expect("the order fits");
    assert_eq!(none.len(), 0);
    assert!(Questions::arranged(&entries, &vec![0, 3]).is_none());
    assert!(Questions::arranged(&Vec::new(), &vec![0]).is_none());
}

#[test]
fn reshuffle_is_a_shuffle_of_the_deck() {
    let first = Questions::shuffled(catalog(), 5);
    let order = first.0.clone();
    let again = first.reshuffled(11);
    let direct = Questions::shuffled(order, 11);
    assert_eq!(again.0, direct.0);
    assert_eq!(again.len(), 20);
}

#[test]
fn default_deck_is_the_catalog_in_some_order() {
    let deck = Questions::default();
    assert_eq!(deck.len(), 20);
    let mut got = titles(&deck);
    got.sort();
    let mut want = titles(&Questions(catalog()));
    want.sort();
    assert_eq!(got, want);
}

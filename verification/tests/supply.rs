use two_people::supply::{count_unused, draw_next, is_used, nth_unused, unused};

#[test]
fn unused_lists_what_is_left_in_order() {
    assert_eq!(unused(5, &vec![3, 0]), vec![1, 2, 4]);
    assert_eq!(unused(3, &vec![]), vec![0, 1, 2]);
    assert_eq!(unused(3, &vec![2, 1, 0]), Vec::<usize>::new());
    assert_eq!(unused(0, &vec![0]), Vec::<usize>::new());
    assert_eq!(unused(2, &vec![7, 1, 1]), vec![0]);
}

#[test]
fn is_used_finds_what_was_drawn() {
    assert!(is_used(&vec![4, 2], 2));
    assert!(!is_used(&vec![4, 2], 3));
    assert!(!is_used(&vec![], 0));
}

#[test]
fn nth_unused_counts_among_the_unused() {
    let used = vec![0, 2];
    assert_eq!(nth_unused(4, &used, 0), Some(1));
    assert_eq!(nth_unused(4, &used, 1), Some(3));
    assert_eq!(nth_unused(4, &used, 2), None);
    assert_eq!(nth_unused(0, &used, 0), None);
}

#[test]
fn count_unused_counts_what_is_left() {
    assert_eq!(count_unused(5, &vec![3, 0]), 3);
    assert_eq!(count_unused(3, &vec![2, 1, 0]), 0);
    assert_eq!(count_unused(0, &vec![]), 0);
    assert_eq!(count_unused(2, &vec![7, 1, 1]), 1);
}

#[test]
fn draw_signals_exhaustion() {
    assert_eq!(draw_next(3, &vec![0, 1, 2]), None);
    assert_eq!(draw_next(0, &vec![]), None);
}

#[test]
fn draw_returns_the_only_one_left() {
    for _ in 0..50 {
        assert_eq!(draw_next(4, &vec![3, 0, 1]), Some(2));
    }
}

#[test]
fn draws_never_repeat_until_the_pool_is_empty() {
    for _ in 0..20 {
        let mut used: Vec<usize> = vec![0];
        for _ in 1..20 {
            let drawn = draw_next(20, &used);
            let i = match drawn {
                Some(i) => i,
                None => panic!("the pool ran dry early"),
            };
            assert!(i < 20);
            assert!(!used.contains(&i));
            used.push(i);
        }
        assert_eq!(draw_next(20, &used), None);
        let mut seen = used.clone();
        seen.sort();
        assert_eq!(seen, (0..20).collect::<Vec<usize>>());
    }
}

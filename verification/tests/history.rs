use std::collections::VecDeque;
use system_overview::history::{push_value, push_bounded, latest, chart_points};

fn deque(v: &[u64]) -> VecDeque<u64> {
    v.iter().copied().collect()
}

#[test]
fn push_value_appends_below_limit() {
    let mut h = deque(&[1, 2, 3]);
    push_value(&mut h, 4);
    assert_eq!(h, deque(&[1, 2, 3, 4]));
}

#[test]
fn push_value_drops_oldest_at_limit() {
    let mut h: VecDeque<u64> = (0..10).collect();
    push_value(&mut h, 10);
    assert_eq!(h, (1..11).collect::<VecDeque<u64>>());
    assert_eq!(h.len(), 10);
}

#[test]
fn push_value_never_exceeds_ten() {
    let mut h = VecDeque::new();
    for i in 0..25u64 {
        push_value(&mut h, i);
        assert!(h.len() <= 10);
        assert_eq!(*h.back().unwrap(), i);
    }
    assert_eq!(h, (15..25).collect::<VecDeque<u64>>());
}

#[test]
fn push_value_drops_only_one_from_an_overlong_history() {
    let mut h: VecDeque<u64> = (0..12).collect();
    push_value(&mut h, 12);
    assert_eq!(h, (1..13).collect::<VecDeque<u64>>());
}

#[test]
fn push_bounded_trims_to_cap() {
    let mut h: VecDeque<u64> = (0..70).collect();
    push_bounded(&mut h, 70, 60);
    assert_eq!(h, (11..71).collect::<VecDeque<u64>>());
}

#[test]
fn push_bounded_with_zero_cap_empties() {
    let mut h = deque(&[1, 2]);
    push_bounded(&mut h, 3, 0);
    assert!(h.is_empty());
}

#[test]
fn latest_of_empty_and_nonempty() {
    assert_eq!(latest(&VecDeque::new()), 0);
    assert_eq!(latest(&deque(&[5, 7, 9])), 9);
}

#[test]
fn chart_points_place_newest_at_59() {
    let pts = chart_points(&deque(&[10, 20, 30]));
    assert_eq!(pts, vec![(57, 10), (58, 20), (59, 30)]);
    assert!(chart_points(&VecDeque::new()).is_empty());
}

#[test]
fn chart_points_full_history_starts_at_zero() {
    let h: VecDeque<u64> = (100..160).collect();
    let pts = chart_points(&h);
    assert_eq!(pts.len(), 60);
    assert_eq!(pts[0], (0, 100));
    assert_eq!(pts[59], (59, 159));
}

#[test]
fn push_value_run_keeps_last_ten() {
    for n in 0..25u64 {
        let mut h = VecDeque::new();
        for v in 0..n {
            push_value(&mut h, v * 3);
        }
        let start = n.saturating_sub(10);
        assert_eq!(h, (start..n).map(|v| v * 3).collect::<VecDeque<u64>>());
    }
}

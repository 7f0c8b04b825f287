use trailblazer::animation::{AnimationError, AnimationState};

const MS: u64 = 1_000_000;

#[test]
fn wraps_after_last_index() {
    let mut s = AnimationState::new(1, 3, 300 * MS).unwrap();
    let mut seen = Vec::new();
    for _ in 0..4 {
        assert!(s.advance(300 * MS));
        seen.push(s.current_index());
    }
    assert_eq!(seen, vec![2, 3, 1, 2]);
    assert_eq!(s.elapsed(), 0);
}

#[test]
fn short_tick_keeps_frame() {
    let mut s = AnimationState::new(1, 3, 300 * MS).unwrap();
    assert!(!s.advance(299 * MS));
    assert_eq!(s.current_index(), 1);
    assert_eq!(s.elapsed(), 299 * MS);
    let mut t = AnimationState::new(0, 5, 300 * MS).unwrap();
    assert!(!t.advance(0));
    assert_eq!(t.current_index(), 0);
    assert_eq!(t.elapsed(), 0);
}

#[test]
fn leftover_time_carries_over() {
    let mut s = AnimationState::new(1, 3, 300 * MS).unwrap();
    let first = s.advance(200 * MS);
    let second = s.advance(200 * MS);
    assert!(!first);
    assert!(second);
    assert_eq!(s.current_index(), 2);
    assert_eq!(s.elapsed(), 100 * MS);
}

#[test]
fn long_tick_fires_once_and_keeps_surplus() {
    let mut s = AnimationState::new(1, 3, 300 * MS).unwrap();
    assert!(s.advance(700 * MS));
    assert_eq!(s.current_index(), 2);
    assert_eq!(s.elapsed(), 400 * MS);
    assert!(s.advance(0));
    assert_eq!(s.current_index(), 3);
    assert_eq!(s.elapsed(), 100 * MS);
}

#[test]
fn zero_interval_is_rejected() {
    assert_eq!(
        AnimationState::new(1, 3, 0).unwrap_err(),
        AnimationError::InvalidConfiguration
    );
}

#[test]
fn reversed_range_is_rejected() {
    assert_eq!(
        AnimationState::new(4, 3, 300 * MS).unwrap_err(),
        AnimationError::InvalidConfiguration
    );
}

#[test]
fn new_starts_on_first_index() {
    let s = AnimationState::new(1, 500, 300 * MS).unwrap();
    assert_eq!(s.first_index(), 1);
    assert_eq!(s.last_index(), 500);
    assert_eq!(s.current_index(), 1);
    assert_eq!(s.elapsed(), 0);
    assert_eq!(s.interval(), 300 * MS);
}

#[test]
fn single_frame_range_stays_on_its_frame() {
    let mut s = AnimationState::new(7, 7, 300 * MS).unwrap();
    for _ in 0..5 {
        assert!(s.advance(300 * MS));
        assert_eq!(s.current_index(), 7);
    }
}

#[test]
fn index_stays_in_range_over_many_ticks() {
    let mut s = AnimationState::new(2, 5, 30 * MS).unwrap();
    let deltas = [10, 45, 3, 90, 30, 0, 29, 1, 60, 17];
    let mut fired: u64 = 0;
    let mut sum: u64 = 0;
    for round in 0..20 {
        let d = deltas[round % deltas.len()] * MS;
        sum += d;
        if s.advance(d) {
            fired += 1;
        }
        assert!(s.current_index() >= 2 && s.current_index() <= 5);
    }
    assert_eq!(s.elapsed() + fired * 30 * MS, sum);
}

#[test]
fn largest_index_wraps_without_overflow() {
    let mut s = AnimationState::new(usize::MAX - 1, usize::MAX, 1).unwrap();
    assert!(s.advance(1));
    assert_eq!(s.current_index(), usize::MAX);
    assert!(s.advance(1));
    assert_eq!(s.current_index(), usize::MAX - 1);
}

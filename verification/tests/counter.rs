use source_resolve::cache_buster::CacheBuster;

#[test]
fn counter_starts_at_zero() {
    let mut counter = CacheBuster::new();
    assert_eq!(counter.next(), 0);
    assert_eq!(counter.next(), 1);
    assert_eq!(counter.next(), 2);
}

#[test]
fn consecutive_draws_are_distinct_and_increasing() {
    let mut counter = CacheBuster::new();
    let mut drawn = Vec::new();
    for _ in 0..1000 {
        drawn.push(counter.next());
    }
    for i in 1..drawn.len() {
        assert!(drawn[i - 1] < drawn[i]);
    }
    for (i, value) in drawn.iter().enumerate() {
        assert_eq!(*value, i as u64);
    }
}

#[test]
fn counter_wraps_after_the_greatest_value() {
    let mut counter = CacheBuster::starting_at(u64::MAX - 1);
    assert_eq!(counter.next(), u64::MAX - 1);
    assert_eq!(counter.next(), u64::MAX);
    assert_eq!(counter.next(), 0);
}

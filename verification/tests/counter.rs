use noise_explorer::counter::Counter;

#[test]
fn counter_starts_at_its_lower_bound() {
    assert_eq!(Counter::new(0, 8).count(), 0);
    assert_eq!(Counter::new(3, 5).count(), 3);
    assert_eq!(Counter::new(7, 7).count(), 7);
}

#[test]
fn counter_increment_steps_up_by_one() {
    let mut counter = Counter::new(0, 8);
    counter.increment();
    assert_eq!(counter.count(), 1);
    counter.increment();
    assert_eq!(counter.count(), 2);
}

#[test]
fn counter_increment_at_max_yields_min() {
    let mut counter = Counter::new(0, 1);
    counter.increment();
    assert_eq!(counter.count(), 1);
    counter.increment();
    assert_eq!(counter.count(), 0);

    let mut shifted = Counter::new(3, 5);
    shifted.increment();
    shifted.increment();
    assert_eq!(shifted.count(), 5);
    shifted.increment();
    assert_eq!(shifted.count(), 3);
}

#[test]
fn counter_decrement_at_min_yields_max() {
    let mut counter = Counter::new(0, 8);
    counter.decrement();
    assert_eq!(counter.count(), 8);
    counter.decrement();
    assert_eq!(counter.count(), 7);

    let mut shifted = Counter::new(3, 5);
    shifted.decrement();
    assert_eq!(shifted.count(), 5);
}

#[test]
fn counter_with_one_position_never_moves() {
    let mut counter = Counter::new(4, 4);
    counter.increment();
    assert_eq!(counter.count(), 4);
    counter.decrement();
    assert_eq!(counter.count(), 4);
}

#[test]
fn counter_wraps_at_the_largest_integer() {
    let mut counter = Counter::new(usize::MAX - 1, usize::MAX);
    counter.increment();
    assert_eq!(counter.count(), usize::MAX);
    counter.increment();
    assert_eq!(counter.count(), usize::MAX - 1);
    counter.decrement();
    assert_eq!(counter.count(), usize::MAX);
}

#[test]
fn counter_stays_in_range_over_any_steps() {
    let (min, max) = (2, 6);
    let mut counter = Counter::new(min, max);
    let mut seed: u32 = 12345;
    for _ in 0..10_000 {
        seed = seed.wrapping_mul(1_103_515_245).wrapping_add(12_345);
        if (seed >> 16) & 1 == 0 {
            counter.increment();
        } else {
            counter.decrement();
        }
        assert!(min <= counter.count() && counter.count() <= max);
    }
}

#[test]
fn counter_returns_after_one_step_per_position() {
    let mut counter = Counter::new(2, 6);
    counter.increment();
    counter.increment();
    let start = counter.count();
    for _ in 0..5 {
        counter.increment();
    }
    assert_eq!(counter.count(), start);
    for _ in 0..5 {
        counter.decrement();
    }
    assert_eq!(counter.count(), start);
}

#[test]
fn counter_steps_undo_each_other() {
    let mut counter = Counter::new(0, 8);
    counter.increment();
    counter.decrement();
    assert_eq!(counter.count(), 0);
    counter.decrement();
    counter.increment();
    assert_eq!(counter.count(), 0);
}

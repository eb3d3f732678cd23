use orbit::snowflake::{compose_id, next_increment, IdAllocator, Snowflake, EPOCH, MAX_OFFSET};
use std::collections::HashSet;

#[test]
fn allocator_starts_at_zero() {
    let alloc = IdAllocator::new();
    assert_eq!(alloc.increment, 0);
}

#[test]
fn next_increment_counts_up() {
    let mut alloc = IdAllocator::new();
    assert_eq!(next_increment(&mut alloc), 1);
    assert_eq!(next_increment(&mut alloc), 2);
    assert_eq!(next_increment(&mut alloc), 3);
    assert_eq!(alloc.increment, 3);
}

#[test]
fn next_increment_wraps_at_4096() {
    let mut alloc = IdAllocator { increment: 4095 };
    assert_eq!(next_increment(&mut alloc), 0);
    assert_eq!(next_increment(&mut alloc), 1);
}

#[test]
fn compose_id_exact_values() {
    assert_eq!(compose_id(EPOCH, 0), 0);
    assert_eq!(compose_id(EPOCH, 4095), 4095);
    assert_eq!(compose_id(EPOCH + 1, 5), 4096 + 5);
    assert_eq!(compose_id(EPOCH + 2, 4095), 2 * 4096 + 4095);
    assert_eq!(compose_id(EPOCH + 1_000_000, 7), 1_000_000 * 4096 + 7);
}

#[test]
fn compose_id_keeps_sequence_in_low_bits() {
    assert_eq!(compose_id(EPOCH + 123_456, 789).rem_euclid(4096), 789);
    // Even a clock before the launch epoch leaves the sequence value in
    // the low 12 bits of the (wrapped) identifier.
    assert_eq!(compose_id(0, 5).rem_euclid(4096), 5);
    assert_eq!(compose_id(i64::MIN, 4095).rem_euclid(4096), 4095);
    assert_eq!(compose_id(i64::MAX, 17).rem_euclid(4096), 17);
}

#[test]
fn same_millisecond_ids_are_distinct() {
    // All 4096 sequence values within one millisecond give distinct ids.
    let t = EPOCH + 424_242;
    let mut seen = HashSet::new();
    for inc in 0..4096 {
        assert!(seen.insert(compose_id(t, inc)));
    }
}

#[test]
fn later_millisecond_beats_any_sequence() {
    // The largest id of one millisecond is below the smallest of the next.
    let t = EPOCH + 99;
    assert!(compose_id(t, 4095) < compose_id(t + 1, 0));
    assert!(compose_id(t, 4095) < compose_id(t + 1_000, 0));
}

#[test]
fn minted_ids_are_distinct_and_ordered() {
    let mut alloc = IdAllocator::new();
    let mut seen = HashSet::new();
    let mut last: Option<i64> = None;
    for _ in 0..100 {
        let Snowflake(id) = Snowflake::new(&mut alloc);
        assert!(seen.insert(id));
        // The wall clock lies between the launch epoch and the encoding
        // bound, so sequential mints are strictly increasing.
        if let Some(prev) = last {
            assert!(id > prev);
        }
        last = Some(id);
    }
}

#[test]
fn minted_id_carries_counter() {
    let mut alloc = IdAllocator { increment: 70 };
    let Snowflake(id) = Snowflake::new(&mut alloc);
    assert_eq!(alloc.increment, 71);
    assert_eq!(id.rem_euclid(4096), 71);
}

#[test]
fn minted_id_reflects_current_time() {
    let mut alloc = IdAllocator::new();
    let Snowflake(id) = Snowflake::new(&mut alloc);
    // The id decodes back to a timestamp between the launch epoch and the
    // encoding bound.
    let offset = id >> 12;
    assert!(offset > 0);
    assert!(offset < MAX_OFFSET);
}

use points_ledger::idgen::{initialize_id_generator, IdGenerator};

#[test]
fn initialize_resets_state() {
    let g = initialize_id_generator();
    assert_eq!(g.last_timestamp, 0);
    assert_eq!(g.counter, 0);
}

#[test]
fn first_id_at_fresh_timestamp() {
    let mut g = initialize_id_generator();
    let id = g.next_id(7);
    assert_eq!(id, 7u64 << 32);
    assert_eq!(g.last_timestamp, 7);
    assert_eq!(g.counter, 0);
}

#[test]
fn tie_break_increments_counter() {
    let mut g = initialize_id_generator();
    let first = g.next_id(7);
    let second = g.next_id(7);
    let third = g.next_id(7);
    assert_eq!(first, 7u64 << 32);
    assert_eq!(second, (7u64 << 32) | 1);
    assert_eq!(third, (7u64 << 32) | 2);
    assert_eq!(g.counter, 2);
}

#[test]
fn newer_timestamp_resets_counter() {
    let mut g = initialize_id_generator();
    g.next_id(7);
    g.next_id(7);
    assert_eq!(g.counter, 1);
    let id = g.next_id(8);
    assert_eq!(id, 8u64 << 32);
    assert_eq!(g.counter, 0);
}

#[test]
fn non_decreasing_timestamps_give_strictly_increasing_ids() {
    let mut g = initialize_id_generator();
    let times = [3u64, 3, 3, 5, 5, 9, 10, 10, 10, 11];
    let mut last: Option<u64> = None;
    for t in times {
        let id = g.next_id(t);
        if let Some(prev) = last {
            assert!(id > prev, "id {} did not exceed {}", id, prev);
        }
        last = Some(id);
    }
}

#[test]
fn counter_wraps_at_max() {
    let mut g = IdGenerator { last_timestamp: 7, counter: u32::MAX };
    let id = g.next_id(7);
    assert_eq!(g.counter, 0);
    assert_eq!(id, 7u64 << 32);
}

#[test]
fn older_timestamp_keeps_stored_timestamp() {
    let mut g = IdGenerator { last_timestamp: 9, counter: 0 };
    let id = g.next_id(4);
    assert_eq!(g.last_timestamp, 9);
    assert_eq!(g.counter, 1);
    assert_eq!(id, (9u64 << 32) | 1);
}

#[test]
fn peek_does_not_step_the_generator() {
    let mut g = initialize_id_generator();
    let peeked = g.peek_next_id(7);
    assert_eq!(g.last_timestamp, 0);
    assert_eq!(g.counter, 0);
    let minted = g.next_id(7);
    assert_eq!(peeked, minted);
}

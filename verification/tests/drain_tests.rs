use kson::ListDrain;
use kson::MapDrain;
use kson::MapPhase;

#[test]
fn list_drain_of_three_makes_four_next_calls() {
    let mut drain: ListDrain<u64> = ListDrain::begin(7);
    assert_eq!(drain.iterator(), 7);
    drain.yielded(10);
    drain.yielded(20);
    drain.yielded(30);
    assert_eq!(drain.next_call_count(), 3);
    drain.sentinel();
    assert_eq!(drain.next_call_count(), 4);
    assert_eq!(drain.dispose_iterator(), 7);
    assert_eq!(drain.into_items(), vec![10, 20, 30]);
}

#[test]
fn list_drain_preserves_yield_order() {
    let mut drain: ListDrain<String> = ListDrain::begin(1);
    drain.yielded(String::from("first"));
    drain.yielded(String::from("second"));
    drain.sentinel();
    drain.dispose_iterator();
    let items = drain.into_items();
    assert_eq!(items, vec![String::from("first"), String::from("second")]);
}

#[test]
fn empty_list_drain_makes_one_sentinel_call() {
    let mut drain: ListDrain<u64> = ListDrain::begin(42);
    drain.sentinel();
    assert_eq!(drain.next_call_count(), 1);
    assert_eq!(drain.dispose_iterator(), 42);
    assert_eq!(drain.into_items(), Vec::<u64>::new());
}

#[test]
fn map_drain_of_two_accounts_every_handle() {
    let mut drain: MapDrain<String, u64> = MapDrain::begin(9);
    assert_eq!(drain.iterator(), 9);

    drain.yielded_entry(11);
    assert_eq!(drain.current_phase(), MapPhase::EntryHeld);
    assert_eq!(drain.entry(), 11);
    assert_eq!(drain.extract_entry(String::from("a"), 1), 11);

    drain.yielded_entry(12);
    assert_eq!(drain.extract_entry(String::from("b"), 2), 12);

    drain.sentinel();
    assert_eq!(drain.current_phase(), MapPhase::Exhausted);
    assert_eq!(drain.next_call_count(), 3);
    assert_eq!(drain.entries_disposed_count(), 2);
    assert_eq!(drain.dispose_iterator(), 9);

    let pairs = drain.into_pairs();
    assert_eq!(pairs, vec![(String::from("a"), 1), (String::from("b"), 2)]);
}

#[test]
fn empty_map_drain_disposes_no_entries() {
    let mut drain: MapDrain<u64, u64> = MapDrain::begin(5);
    drain.sentinel();
    assert_eq!(drain.next_call_count(), 1);
    assert_eq!(drain.entries_disposed_count(), 0);
    assert_eq!(drain.dispose_iterator(), 5);
    assert_eq!(drain.into_pairs(), Vec::<(u64, u64)>::new());
}

#[test]
fn map_drain_keeps_duplicate_keys_in_yield_order() {
    let mut drain: MapDrain<u64, u64> = MapDrain::begin(3);
    drain.yielded_entry(21);
    drain.extract_entry(1, 100);
    drain.yielded_entry(22);
    drain.extract_entry(1, 200);
    drain.sentinel();
    drain.dispose_iterator();
    assert_eq!(drain.into_pairs(), vec![(1, 100), (1, 200)]);
}

use cursor_registry::cursor::{bytes_eq, Cursor, CursorStoreEntry};
use cursor_registry::store::CursorStore;

fn entry(
    conn: Option<u64>,
    cursor_id: i64,
    db: &str,
    collection: &str,
    timestamp: u64,
    cursor_timeout: u64,
    session_id: Option<Vec<u8>>,
) -> CursorStoreEntry {
    CursorStoreEntry {
        conn,
        cursor: Cursor { continuation: vec![1, 2, 3], cursor_id },
        db: String::from(db),
        collection: String::from(collection),
        timestamp,
        cursor_timeout,
        session_id,
    }
}

#[test]
fn add_then_claim_returns_the_entry_exactly_once() {
    let mut store = CursorStore::new(false);
    let e = CursorStoreEntry {
        conn: Some(42),
        cursor: Cursor { continuation: vec![9, 8, 7], cursor_id: 11 },
        db: String::from("orders"),
        collection: String::from("open"),
        timestamp: 1_000,
        cursor_timeout: 5_000,
        session_id: Some(vec![5, 6]),
    };
    store.add_cursor((11, String::from("alice")), e);

    let claimed = store.get_cursor((11, String::from("alice")));
    let claimed = claimed.expect("the just-added entry must be claimable");
    assert_eq!(claimed.conn, Some(42));
    assert_eq!(claimed.cursor.continuation, vec![9, 8, 7]);
    assert_eq!(claimed.cursor.cursor_id, 11);
    assert_eq!(claimed.db, String::from("orders"));
    assert_eq!(claimed.collection, String::from("open"));
    assert_eq!(claimed.timestamp, 1_000);
    assert_eq!(claimed.cursor_timeout, 5_000);
    assert_eq!(claimed.session_id, Some(vec![5, 6]));

    assert!(store.get_cursor((11, String::from("alice"))).is_none());
}

#[test]
fn add_overwrites_an_existing_key() {
    let mut store = CursorStore::new(false);
    store.add_cursor((3, String::from("u")), entry(Some(1), 3, "a", "b", 0, 10, None));
    store.add_cursor((3, String::from("u")), entry(Some(2), 3, "c", "d", 7, 20, None));
    assert_eq!(store.len(), 1);

    let claimed = store.get_cursor((3, String::from("u"))).expect("the key must be live");
    assert_eq!(claimed.conn, Some(2));
    assert_eq!(claimed.db, String::from("c"));
    assert_eq!(claimed.timestamp, 7);
}

#[test]
fn same_id_under_two_users_are_distinct_entries() {
    let mut store = CursorStore::new(false);
    store.add_cursor((5, String::from("alice")), entry(Some(1), 5, "a", "x", 0, 10, None));
    store.add_cursor((5, String::from("bob")), entry(Some(2), 5, "a", "x", 0, 10, None));
    assert_eq!(store.len(), 2);

    let a = store.get_cursor((5, String::from("alice"))).expect("alice's entry");
    assert_eq!(a.conn, Some(1));
    let b = store.get_cursor((5, String::from("bob"))).expect("bob's entry");
    assert_eq!(b.conn, Some(2));
}

#[test]
fn evict_expired_removes_exactly_the_timed_out_entries() {
    let mut store = CursorStore::new(true);
    assert!(store.reaper_enabled());
    // Timed out at 100 + 50 = 150.
    store.add_cursor((1, String::from("u")), entry(None, 1, "a", "x", 100, 50, None));
    // Timed out only at 100 + 1000 = 1100.
    store.add_cursor((2, String::from("u")), entry(None, 2, "a", "x", 100, 1_000, None));

    store.evict_expired(149);
    assert_eq!(store.len(), 2);

    store.evict_expired(150);
    assert_eq!(store.len(), 1);
    assert!(store.get_cursor((1, String::from("u"))).is_none());
    assert!(store.get_cursor((2, String::from("u"))).is_some());
}

#[test]
fn evict_with_zero_timeout_removes_immediately() {
    let mut store = CursorStore::new(true);
    store.add_cursor((1, String::from("u")), entry(None, 1, "a", "x", 500, 0, None));
    // Even a clock reading before the entry's timestamp evicts a
    // zero-timeout entry: elapsed time saturates at zero.
    store.evict_expired(400);
    assert_eq!(store.len(), 0);
}

#[test]
fn invalidate_by_collection_removes_exactly_the_matching_pair() {
    let mut store = CursorStore::new(false);
    store.add_cursor((1, String::from("u")), entry(None, 1, "db1", "c1", 0, 10, None));
    store.add_cursor((2, String::from("u")), entry(None, 2, "db1", "c2", 0, 10, None));
    store.add_cursor((3, String::from("u")), entry(None, 3, "db2", "c1", 0, 10, None));

    store.invalidate_cursors_by_collection("db1", "c1");

    assert!(store.get_cursor((1, String::from("u"))).is_none());
    assert!(store.get_cursor((2, String::from("u"))).is_some());
    assert!(store.get_cursor((3, String::from("u"))).is_some());
}

#[test]
fn invalidate_by_database_removes_every_entry_of_that_database() {
    let mut store = CursorStore::new(false);
    store.add_cursor((1, String::from("u")), entry(None, 1, "db1", "c1", 0, 10, None));
    store.add_cursor((2, String::from("v")), entry(None, 2, "db1", "c2", 0, 10, None));
    store.add_cursor((3, String::from("u")), entry(None, 3, "db2", "c1", 0, 10, None));

    store.invalidate_cursors_by_database("db1");

    assert_eq!(store.len(), 1);
    assert!(store.get_cursor((3, String::from("u"))).is_some());
}

#[test]
fn invalidate_by_session_spares_other_and_absent_sessions() {
    let mut store = CursorStore::new(false);
    store.add_cursor((1, String::from("u")), entry(None, 1, "a", "x", 0, 10, Some(vec![1, 1])));
    store.add_cursor((2, String::from("u")), entry(None, 2, "a", "x", 0, 10, Some(vec![2, 2])));
    store.add_cursor((3, String::from("u")), entry(None, 3, "a", "x", 0, 10, None));

    store.invalidate_cursors_by_session(&[1, 1]);

    assert!(store.get_cursor((1, String::from("u"))).is_none());
    assert!(store.get_cursor((2, String::from("u"))).is_some());
    assert!(store.get_cursor((3, String::from("u"))).is_some());
}

#[test]
fn kill_partitions_ids_in_input_order_and_respects_ownership() {
    let mut store = CursorStore::new(false);
    store.add_cursor((1, String::from("u")), entry(Some(10), 1, "a", "x", 0, 10, None));
    store.add_cursor((3, String::from("u")), entry(Some(30), 3, "a", "x", 0, 10, None));
    // The same numeric id exists under another user; `kill` for user "u"
    // must treat it as missing and leave it in place.
    store.add_cursor((2, String::from("v")), entry(Some(20), 2, "a", "x", 0, 10, None));

    let (killed, missing) = store.kill_cursors(String::from("u"), &[3, 2, 1, 4]);
    assert_eq!(killed, vec![3, 1]);
    assert_eq!(missing, vec![2, 4]);

    assert!(store.get_cursor((3, String::from("u"))).is_none());
    assert!(store.get_cursor((1, String::from("u"))).is_none());
    let other = store.get_cursor((2, String::from("v"))).expect("the other user's cursor survives");
    assert_eq!(other.conn, Some(20));
}

#[test]
fn kill_reports_a_duplicate_id_as_missing_the_second_time() {
    let mut store = CursorStore::new(false);
    store.add_cursor((7, String::from("u")), entry(None, 7, "a", "x", 0, 10, None));

    let (killed, missing) = store.kill_cursors(String::from("u"), &[7, 7]);
    assert_eq!(killed, vec![7]);
    assert_eq!(missing, vec![7]);
}

#[test]
fn kill_on_an_empty_list_does_nothing() {
    let mut store = CursorStore::new(false);
    store.add_cursor((7, String::from("u")), entry(None, 7, "a", "x", 0, 10, None));

    let (killed, missing) = store.kill_cursors(String::from("u"), &[]);
    assert!(killed.is_empty());
    assert!(missing.is_empty());
    assert_eq!(store.len(), 1);
}

#[test]
fn bytes_eq_compares_contents() {
    assert!(bytes_eq(&[], &[]));
    assert!(bytes_eq(&[1, 2], &[1, 2]));
    assert!(!bytes_eq(&[1, 2], &[1, 3]));
    assert!(!bytes_eq(&[1, 2], &[1, 2, 3]));
}

#[test]
fn reaper_cycles_evict_within_one_interval_after_the_timeout() {
    // Entry with a 50ms timeout, swept every 10ms (times in nanoseconds):
    // present at every sweep before 50ms, gone at the first sweep at or
    // after it — well before timeout + interval.
    let mut store = CursorStore::new(true);
    let timeout: u64 = 50_000_000;
    let interval: u64 = 10_000_000;
    store.add_cursor((1, String::from("u")), entry(None, 1, "a", "x", 0, timeout, None));

    let mut now: u64 = 0;
    let mut evicted_at: Option<u64> = None;
    for _cycle in 0..10 {
        now += interval;
        store.evict_expired(now);
        if evicted_at.is_none() && store.len() == 0 {
            evicted_at = Some(now);
        }
    }
    assert_eq!(evicted_at, Some(timeout));
    assert!(evicted_at.unwrap() <= timeout + interval);
}

#[test]
fn an_empty_session_id_matches_only_entries_carrying_it() {
    let mut store = CursorStore::new(false);
    store.add_cursor((1, String::from("u")), entry(None, 1, "a", "x", 0, 10, Some(vec![])));
    store.add_cursor((2, String::from("u")), entry(None, 2, "a", "x", 0, 10, None));

    store.invalidate_cursors_by_session(&[]);

    assert!(store.get_cursor((1, String::from("u"))).is_none());
    assert!(store.get_cursor((2, String::from("u"))).is_some());
}

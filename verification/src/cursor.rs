//! Data model of the registry: a cursor, the entry stored per cursor, and the
//! spec-level predicates and map transformers that the store's contracts use.

use vstd::prelude::*;

verus! {

/// One outstanding server-side cursor: the opaque continuation token the
/// backend needs to resume the query, and the protocol-visible cursor id.
/// The registry never interprets the continuation bytes.
#[derive(Debug)]
pub struct Cursor {
    pub continuation: Vec<u8>,
    pub cursor_id: i64,
}

/// Mathematical image of a `Cursor`.
pub struct CursorView {
    pub continuation: Seq<u8>,
    pub cursor_id: i64,
}

impl View for Cursor {
    type V = CursorView;

    open spec fn view(&self) -> CursorView {
        CursorView { continuation: self.continuation@, cursor_id: self.cursor_id }
    }
}

/// One registry entry. `conn` is a handle standing for the exclusively owned
/// backend connection (absent for an exhausted cursor); the registry only
/// moves it, never reads through it. `timestamp` is the insertion time and
/// `cursor_timeout` the idle allowance, both in nanoseconds on one monotonic
/// clock. `session_id` ties the entry to a client session, if any.
pub struct CursorStoreEntry {
    pub conn: Option<u64>,
    pub cursor: Cursor,
    pub db: String,
    pub collection: String,
    pub timestamp: u64,
    pub cursor_timeout: u64,
    pub session_id: Option<Vec<u8>>,
}

/// Mathematical image of a `CursorStoreEntry`.
pub struct CursorStoreEntryView {
    pub conn: Option<u64>,
    pub cursor: CursorView,
    pub db: Seq<char>,
    pub collection: Seq<char>,
    pub timestamp: u64,
    pub cursor_timeout: u64,
    pub session_id: Option<Seq<u8>>,
}

impl View for CursorStoreEntry {
    type V = CursorStoreEntryView;

    open spec fn view(&self) -> CursorStoreEntryView {
        CursorStoreEntryView {
            conn: self.conn,
            cursor: self.cursor@,
            db: self.db@,
            collection: self.collection@,
            timestamp: self.timestamp,
            cursor_timeout: self.cursor_timeout,
            session_id: match self.session_id {
                Some(ref s) => Some(s@),
                None => None,
            },
        }
    }
}

/// The registry's contents as a finite map from (cursor id, owning user) to
/// the stored entry.
pub type StoreView = Map<(i64, Seq<char>), CursorStoreEntryView>;

/// True when an entry has been idle at least its timeout by time `now`.
/// Elapsed time saturates at zero when `now` precedes the entry's timestamp,
/// as a monotonic clock reading subtracted from a later one does.
pub open spec fn expired(e: CursorStoreEntryView, now: u64) -> bool {
    if now >= e.timestamp {
        now - e.timestamp >= e.cursor_timeout
    } else {
        e.cursor_timeout == 0
    }
}

/// True when the entry belongs to exactly this (database, collection) pair.
pub open spec fn matches_collection(e: CursorStoreEntryView, db: Seq<char>, collection: Seq<char>) -> bool {
    e.db == db && e.collection == collection
}

/// True when the entry belongs to this database.
pub open spec fn matches_db(e: CursorStoreEntryView, db: Seq<char>) -> bool {
    e.db == db
}

/// True when the entry carries exactly this session id. An entry with no
/// session never matches.
pub open spec fn matches_session(e: CursorStoreEntryView, session: Seq<u8>) -> bool {
    e.session_id == Some(session)
}

/// The registry after a reaper sweep at time `now`: every entry not yet
/// expired survives unchanged, every expired entry is gone.
pub open spec fn evict_expired_model(m: StoreView, now: u64) -> StoreView {
    Map::new(
        |k: (i64, Seq<char>)| m.dom().contains(k) && !expired(m[k], now),
        |k: (i64, Seq<char>)| m[k],
    )
}

/// The registry after a collection drop: exactly the entries of that
/// (database, collection) pair are gone.
pub open spec fn invalidate_collection_model(m: StoreView, db: Seq<char>, collection: Seq<char>) -> StoreView {
    Map::new(
        |k: (i64, Seq<char>)| m.dom().contains(k) && !matches_collection(m[k], db, collection),
        |k: (i64, Seq<char>)| m[k],
    )
}

/// The registry after a database drop: exactly the entries of that database
/// are gone.
pub open spec fn invalidate_database_model(m: StoreView, db: Seq<char>) -> StoreView {
    Map::new(
        |k: (i64, Seq<char>)| m.dom().contains(k) && !matches_db(m[k], db),
        |k: (i64, Seq<char>)| m[k],
    )
}

/// The registry after a session ends: exactly the entries carrying that
/// session id are gone; entries with no session are untouched.
pub open spec fn invalidate_session_model(m: StoreView, session: Seq<u8>) -> StoreView {
    Map::new(
        |k: (i64, Seq<char>)| m.dom().contains(k) && !matches_session(m[k], session),
        |k: (i64, Seq<char>)| m[k],
    )
}

/// Byte-wise equality of two slices.
pub fn bytes_eq(a: &[u8], b: &[u8]) -> (r: bool)
    ensures
        r == (a@ == b@),
{
    if a.len() != b.len() {
        return false;
    }
    let mut i: usize = 0;
    while i < a.len()
        invariant
            i <= a@.len(),
            a@.len() == b@.len(),
            forall|j: int| 0 <= j < i ==> a@[j] == b@[j],
        decreases a@.len() - i,
    {
        if a[i] != b[i] {
            return false;
        }
        i = i + 1;
    }
    proof {
        assert(a@ =~= b@);
    }
    true
}

/// Executable form of `expired`.
pub fn entry_expired(e: &CursorStoreEntry, now: u64) -> (r: bool)
    ensures
        r == expired(e@, now),
{
    if now >= e.timestamp {
        now - e.timestamp >= e.cursor_timeout
    } else {
        e.cursor_timeout == 0
    }
}

/// Executable form of `matches_collection`.
pub fn entry_matches_collection(e: &CursorStoreEntry, db: &String, collection: &String) -> (r: bool)
    ensures
        r == matches_collection(e@, db@, collection@),
{
    e.collection == *collection && e.db == *db
}

/// Executable form of `matches_db`.
pub fn entry_matches_db(e: &CursorStoreEntry, db: &String) -> (r: bool)
    ensures
        r == matches_db(e@, db@),
{
    e.db == *db
}

/// Executable form of `matches_session`.
pub fn entry_matches_session(e: &CursorStoreEntry, session: &[u8]) -> (r: bool)
    ensures
        r == matches_session(e@, session@),
{
    match &e.session_id {
        Some(s) => bytes_eq(s.as_slice(), session),
        None => false,
    }
}

} // verus!

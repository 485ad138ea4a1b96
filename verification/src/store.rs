//! The cursor store: a registry keyed by (cursor id, owning user) with
//! single-consumption reads, bulk invalidation, explicit kill, and timed
//! eviction driven by the reaper.

use vstd::prelude::*;

use crate::cursor::{
    evict_expired_model, expired, invalidate_collection_model, invalidate_database_model,
    invalidate_session_model, matches_collection, matches_db, matches_session, CursorStoreEntry,
    CursorStoreEntryView, StoreView,
};
use crate::store_map::CursorMap;

verus! {

/// The outcome of killing a list of cursor ids under one user, processed
/// left to right against an evolving registry: the registry afterwards, the
/// ids that were present and removed, and the ids that were absent, each in
/// input order.
pub open spec fn kill_model(m: StoreView, user: Seq<char>, ids: Seq<i64>) -> (StoreView, Seq<i64>, Seq<i64>)
    decreases ids.len(),
{
    if ids.len() == 0 {
        (m, Seq::<i64>::empty(), Seq::<i64>::empty())
    } else {
        let id = ids[0];
        if m.dom().contains((id, user)) {
            let r = kill_model(m.remove((id, user)), user, ids.drop_first());
            (r.0, seq![id] + r.1, r.2)
        } else {
            let r = kill_model(m, user, ids.drop_first());
            (r.0, r.1, seq![id] + r.2)
        }
    }
}

/// The concurrent registry of outstanding cursors. All mutation goes through
/// the contracted map boundary in `store_map`; the contracts here speak of
/// the registry's contents as the finite map `self@`.
pub struct CursorStore {
    cursors: CursorMap,
    reaper_enabled: bool,
}

impl View for CursorStore {
    type V = StoreView;

    closed spec fn view(&self) -> StoreView {
        self.cursors@
    }
}

impl CursorStore {
    /// Whether timed eviction was requested at construction. When false, no
    /// entry is ever removed by time; entries live until claimed, killed or
    /// invalidated.
    pub closed spec fn spec_reaper_enabled(&self) -> bool {
        self.reaper_enabled
    }

    /// Constructs an empty registry. `use_reaper` records whether the owner
    /// should run the reaper; the registry itself never removes an entry by
    /// time unless `evict_expired` is called.
    pub fn new(use_reaper: bool) -> (s: Self)
        ensures
            s@ == StoreView::empty(),
            s.spec_reaper_enabled() == use_reaper,
    {
        CursorStore { cursors: CursorMap::new(), reaper_enabled: use_reaper }
    }

    /// Executable form of `spec_reaper_enabled`.
    pub fn reaper_enabled(&self) -> (b: bool)
        ensures
            b == self.spec_reaper_enabled(),
    {
        self.reaper_enabled
    }

    /// The number of live entries.
    pub fn len(&self) -> (n: usize)
        ensures
            n == self@.len(),
    {
        self.cursors.len()
    }

    /// Unconditional upsert: the entry is stored under the key, silently
    /// replacing any previous entry there. The replaced entry's connection
    /// handle is dropped with it, not released; a caller about to overwrite
    /// a key it knows to be live must claim the old entry first.
    pub fn add_cursor(&mut self, k: (i64, String), v: CursorStoreEntry)
        ensures
            final(self)@ == old(self)@.insert((k.0, k.1@), v@),
    {
        self.cursors.insert(k, v);
    }

    /// The single-consumption read: atomically removes and returns the entry
    /// under the key, if present, with full ownership of its connection
    /// handle. Absence is not an error; it returns nothing.
    pub fn get_cursor(&mut self, k: (i64, String)) -> (r: Option<CursorStoreEntry>)
        ensures
            match r {
                Some(e) => old(self)@.dom().contains((k.0, k.1@)) && e@ == old(self)@[(k.0, k.1@)]
                    && final(self)@ == old(self)@.remove((k.0, k.1@)),
                None => !old(self)@.dom().contains((k.0, k.1@)) && final(self)@ == old(self)@,
            },
    {
        self.cursors.remove(&k)
    }

    /// Removes exactly the entries of the given (database, collection) pair;
    /// entries of the same database but another collection, and entries of
    /// other databases, survive unchanged.
    pub fn invalidate_cursors_by_collection(&mut self, db: &str, collection: &str)
        ensures
            final(self)@ == invalidate_collection_model(old(self)@, db@, collection@),
    {
        let db_owned: String = db.to_owned();
        let collection_owned: String = collection.to_owned();
        self.cursors.retain_outside_collection(&db_owned, &collection_owned);
    }

    /// Removes exactly the entries of the given database.
    pub fn invalidate_cursors_by_database(&mut self, db: &str)
        ensures
            final(self)@ == invalidate_database_model(old(self)@, db@),
    {
        let db_owned: String = db.to_owned();
        self.cursors.retain_outside_database(&db_owned);
    }

    /// Removes exactly the entries carrying the given session id; entries
    /// with no session or another session survive unchanged.
    pub fn invalidate_cursors_by_session(&mut self, session: &[u8])
        ensures
            final(self)@ == invalidate_session_model(old(self)@, session@),
    {
        self.cursors.retain_outside_session(session);
    }

    /// Removes exactly the entries whose idle time has reached their timeout
    /// by `now`. The reaper calls this once per cycle.
    pub fn evict_expired(&mut self, now: u64)
        ensures
            final(self)@ == evict_expired_model(old(self)@, now),
    {
        self.cursors.retain_unexpired(now);
    }

    /// For each requested id under the given user, in input order: removes
    /// the entry if present. Returns the ids that were present and removed,
    /// and the ids that were absent, both in input order. A cursor owned by
    /// another user is indistinguishable from a missing one.
    pub fn kill_cursors(&mut self, user: String, cursors: &[i64]) -> (r: (Vec<i64>, Vec<i64>))
        ensures
            final(self)@ == kill_model(old(self)@, user@, cursors@).0,
            r.0@ == kill_model(old(self)@, user@, cursors@).1,
            r.1@ == kill_model(old(self)@, user@, cursors@).2,
    {
        let mut removed_cursors: Vec<i64> = Vec::new();
        let mut missing_cursors: Vec<i64> = Vec::new();
        let mut i: usize = 0;
        proof {
            assert(cursors@.skip(0) =~= cursors@);
            assert(removed_cursors@ + kill_model(self@, user@, cursors@).1 =~= kill_model(self@, user@, cursors@).1);
            assert(missing_cursors@ + kill_model(self@, user@, cursors@).2 =~= kill_model(self@, user@, cursors@).2);
        }
        while i < cursors.len()
            invariant
                i <= cursors@.len(),
                kill_model(old(self)@, user@, cursors@).0 == kill_model(self@, user@, cursors@.skip(i as int)).0,
                kill_model(old(self)@, user@, cursors@).1 == removed_cursors@ + kill_model(self@, user@, cursors@.skip(i as int)).1,
                kill_model(old(self)@, user@, cursors@).2 == missing_cursors@ + kill_model(self@, user@, cursors@.skip(i as int)).2,
            decreases cursors@.len() - i,
        {
            let ghost s = cursors@.skip(i as int);
            proof {
                assert(s[0] == cursors@[i as int]);
                assert(s.drop_first() =~= cursors@.skip(i as int + 1));
            }
            let id = cursors[i];
            let key = (id, user.clone());
            if self.cursors.remove(&key).is_some() {
                proof {
                    assert(removed_cursors@.push(id) + kill_model(self@, user@, s.drop_first()).1
                        =~= removed_cursors@ + (seq![id] + kill_model(self@, user@, s.drop_first()).1));
                }
                removed_cursors.push(id);
            } else {
                proof {
                    assert(missing_cursors@.push(id) + kill_model(self@, user@, s.drop_first()).2
                        =~= missing_cursors@ + (seq![id] + kill_model(self@, user@, s.drop_first()).2));
                }
                missing_cursors.push(id);
            }
            i = i + 1;
        }
        proof {
            assert(cursors@.skip(cursors@.len() as int) =~= Seq::<i64>::empty());
            assert(removed_cursors@ + Seq::<i64>::empty() =~= removed_cursors@);
            assert(missing_cursors@ + Seq::<i64>::empty() =~= missing_cursors@);
        }
        (removed_cursors, missing_cursors)
    }
}

/// Law: killing a list of ids under one user partitions the input into the
/// removed and the missing ids — together a permutation of the input list —
/// removes every killed key from the registry, and touches nothing else: an
/// entry of another user survives whatever ids are asked for, and every
/// surviving entry keeps its value.
pub proof fn lemma_kill_partition(m: StoreView, user: Seq<char>, ids: Seq<i64>)
    ensures
        kill_model(m, user, ids).1.to_multiset().add(kill_model(m, user, ids).2.to_multiset())
            =~= ids.to_multiset(),
        forall|k: (i64, Seq<char>)| #[trigger] kill_model(m, user, ids).0.dom().contains(k)
            ==> m.dom().contains(k) && kill_model(m, user, ids).0[k] == m[k],
        forall|k: (i64, Seq<char>)| m.dom().contains(k) && k.1 != user
            ==> #[trigger] kill_model(m, user, ids).0.dom().contains(k),
        forall|i: int| 0 <= i < kill_model(m, user, ids).1.len()
            ==> !kill_model(m, user, ids).0.dom().contains((kill_model(m, user, ids).1[i], user)),
    decreases ids.len(),
{
    broadcast use vstd::seq_lib::group_to_multiset_ensures;
    broadcast use vstd::seq_lib::lemma_multiset_commutative;
    broadcast use vstd::multiset::group_multiset_axioms;

    if ids.len() == 0 {
        assert(kill_model(m, user, ids).1.to_multiset().add(kill_model(m, user, ids).2.to_multiset())
            =~= ids.to_multiset());
    } else {
        let id = ids[0];
        let rest = ids.drop_first();
        assert(ids =~= seq![id] + rest);
        if m.dom().contains((id, user)) {
            let m1 = m.remove((id, user));
            lemma_kill_partition(m1, user, rest);
            let r = kill_model(m1, user, rest);
            assert(kill_model(m, user, ids).1 == seq![id] + r.1);
            assert((seq![id] + r.1).to_multiset().add(r.2.to_multiset())
                =~= (seq![id] + rest).to_multiset());
            assert(forall|i: int| 0 <= i < (seq![id] + r.1).len() ==> !r.0.dom().contains(
                ((seq![id] + r.1)[i], user),
            )) by {
                assert(forall|i: int| 1 <= i < (seq![id] + r.1).len()
                    ==> (seq![id] + r.1)[i] == r.1[i - 1]);
            }
        } else {
            lemma_kill_partition(m, user, rest);
            let r = kill_model(m, user, rest);
            assert(r.1.to_multiset().add((seq![id] + r.2).to_multiset())
                =~= (seq![id] + rest).to_multiset());
        }
    }
}

/// Law: adding an entry and then immediately claiming the same key yields
/// exactly that entry, and a second immediate claim of the key yields
/// nothing. Stated over the registry model that `add_cursor` and
/// `get_cursor` ensure.
pub proof fn lemma_add_then_claim(m: StoreView, k: (i64, Seq<char>), v: CursorStoreEntryView)
    ensures
        m.insert(k, v).dom().contains(k),
        m.insert(k, v)[k] == v,
        !m.insert(k, v).remove(k).dom().contains(k),
{
}

/// Law: a reaper sweep at time `now` removes exactly the entries whose idle
/// time has reached their timeout; every other entry survives unchanged. In
/// particular an entry swept before its timeout elapses is still present,
/// and the first sweep at or after its expiry removes it.
pub proof fn lemma_evict_expired_exact(m: StoreView, now: u64, k: (i64, Seq<char>))
    ensures
        evict_expired_model(m, now).dom().contains(k) <==> (m.dom().contains(k) && !expired(m[k], now)),
        evict_expired_model(m, now).dom().contains(k) ==> evict_expired_model(m, now)[k] == m[k],
{
}

/// Law: for an entry with a positive timeout, expiry at `now` is exactly the
/// clock having reached the entry's timestamp plus its timeout. So under a
/// reaper swept every `interval` nanoseconds, an entry is still present just
/// before that point and gone at the first sweep at or after it, at most one
/// interval later.
pub proof fn lemma_expiry_threshold(e: CursorStoreEntryView, now: u64)
    requires
        e.cursor_timeout > 0,
    ensures
        expired(e, now) <==> now >= e.timestamp + e.cursor_timeout,
{
}

/// Law: dropping a collection removes exactly the entries of that
/// (database, collection) pair; an entry of the same database but another
/// collection, or of another database, survives with its value unchanged.
pub proof fn lemma_invalidate_collection_exact(m: StoreView, db: Seq<char>, collection: Seq<char>, k: (i64, Seq<char>))
    ensures
        invalidate_collection_model(m, db, collection).dom().contains(k) <==> (m.dom().contains(k)
            && !matches_collection(m[k], db, collection)),
        invalidate_collection_model(m, db, collection).dom().contains(k)
            ==> invalidate_collection_model(m, db, collection)[k] == m[k],
{
}

/// Law: dropping a database removes exactly the entries of that database.
pub proof fn lemma_invalidate_database_exact(m: StoreView, db: Seq<char>, k: (i64, Seq<char>))
    ensures
        invalidate_database_model(m, db).dom().contains(k) <==> (m.dom().contains(k) && !matches_db(m[k], db)),
        invalidate_database_model(m, db).dom().contains(k) ==> invalidate_database_model(m, db)[k] == m[k],
{
}

/// Law: ending a session removes exactly the entries carrying that session
/// id; an entry with no session, or with another session id, survives with
/// its value unchanged.
pub proof fn lemma_invalidate_session_exact(m: StoreView, session: Seq<u8>, k: (i64, Seq<char>))
    ensures
        invalidate_session_model(m, session).dom().contains(k) <==> (m.dom().contains(k)
            && !matches_session(m[k], session)),
        invalidate_session_model(m, session).dom().contains(k) ==> invalidate_session_model(m, session)[k] == m[k],
        m.dom().contains(k) && m[k].session_id is None ==> invalidate_session_model(m, session).dom().contains(k),
{
}

} // verus!

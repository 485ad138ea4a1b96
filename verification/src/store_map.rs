//! Trusted boundary around the sharded concurrent map that holds the
//! registry's entries. Verus does not look inside the map; its contents are
//! named by `store_contents`, and every access goes through the contracted
//! methods below, each of which makes exactly one call into the outside
//! crate.

use vstd::prelude::*;

use crate::cursor::{
    entry_expired, entry_matches_collection, entry_matches_db, entry_matches_session,
    evict_expired_model, invalidate_collection_model, invalidate_database_model,
    invalidate_session_model, CursorStoreEntry, StoreView,
};

verus! {

/// Holder of the outside crate's sharded map from (cursor id, owning user)
/// to the stored entry. The field is hidden from Verus because the map
/// mutates through shared references; the methods here take `&mut self`, so
/// their contracts can relate the contents before and after each call.
#[verifier::external_body]
pub struct CursorMap {
    inner: dashmap::DashMap<(i64, String), CursorStoreEntry>,
}

/// What the sharded map holds: the finite map from (cursor id, owning user)
/// to the view of the stored entry.
pub uninterp spec fn store_contents(m: CursorMap) -> StoreView;

impl View for CursorMap {
    type V = StoreView;

    open spec fn view(&self) -> StoreView {
        store_contents(*self)
    }
}

impl CursorMap {
    /// Relies on dashmap::DashMap::new: creates an empty map.
    #[verifier::external_body]
    pub fn new() -> (m: Self)
        ensures
            store_contents(m) == StoreView::empty(),
    {
        CursorMap { inner: dashmap::DashMap::new() }
    }

    /// Relies on dashmap::DashMap::insert: stores the value at the key,
    /// replacing and dropping any previous value there.
    #[verifier::external_body]
    pub fn insert(&mut self, k: (i64, String), v: CursorStoreEntry)
        ensures
            store_contents(*final(self)) == store_contents(*old(self)).insert((k.0, k.1@), v@),
    {
        self.inner.insert(k, v);
    }

    /// Relies on dashmap::DashMap::remove: removes and returns the value at
    /// the key if one is present.
    #[verifier::external_body]
    pub fn remove(&mut self, k: &(i64, String)) -> (r: Option<CursorStoreEntry>)
        ensures
            match r {
                Some(e) => store_contents(*old(self)).dom().contains((k.0, k.1@))
                    && e@ == store_contents(*old(self))[(k.0, k.1@)]
                    && store_contents(*final(self)) == store_contents(*old(self)).remove((k.0, k.1@)),
                None => !store_contents(*old(self)).dom().contains((k.0, k.1@))
                    && store_contents(*final(self)) == store_contents(*old(self)),
            },
    {
        self.inner.remove(k).map(|(_, v)| v)
    }

    /// Relies on dashmap::DashMap::len: the number of stored pairs.
    #[verifier::external_body]
    pub fn len(&self) -> (n: usize)
        ensures
            n == store_contents(*self).len(),
    {
        self.inner.len()
    }

    /// Relies on dashmap::DashMap::retain: keeps exactly the pairs for which
    /// the closure returns true; here, the entries not yet expired at `now`.
    #[verifier::external_body]
    pub fn retain_unexpired(&mut self, now: u64)
        ensures
            store_contents(*final(self)) == evict_expired_model(store_contents(*old(self)), now),
    {
        self.inner.retain(|_, v| !entry_expired(v, now));
    }

    /// Relies on dashmap::DashMap::retain: keeps exactly the pairs for which
    /// the closure returns true; here, the entries outside the given
    /// (database, collection) pair.
    #[verifier::external_body]
    pub fn retain_outside_collection(&mut self, db: &String, collection: &String)
        ensures
            store_contents(*final(self)) == invalidate_collection_model(store_contents(*old(self)), db@, collection@),
    {
        self.inner.retain(|_, v| !entry_matches_collection(v, db, collection));
    }

    /// Relies on dashmap::DashMap::retain: keeps exactly the pairs for which
    /// the closure returns true; here, the entries outside the given
    /// database.
    #[verifier::external_body]
    pub fn retain_outside_database(&mut self, db: &String)
        ensures
            store_contents(*final(self)) == invalidate_database_model(store_contents(*old(self)), db@),
    {
        self.inner.retain(|_, v| !entry_matches_db(v, db));
    }

    /// Relies on dashmap::DashMap::retain: keeps exactly the pairs for which
    /// the closure returns true; here, the entries not carrying the given
    /// session id.
    #[verifier::external_body]
    pub fn retain_outside_session(&mut self, session: &[u8])
        ensures
            store_contents(*final(self)) == invalidate_session_model(store_contents(*old(self)), session@),
    {
        self.inner.retain(|_, v| !entry_matches_session(v, session));
    }
}

} // verus!

//! In-memory registry of server-side cursors for a protocol gateway.
//!
//! The registry maps a composite key, a signed 64-bit cursor id together with
//! the owning user, to the cursor's continuation state and a handle to its
//! exclusively held backend connection. Entries are consumed exactly once by
//! a claiming read, evicted once idle longer than their per-entry timeout,
//! and removed in bulk when a collection, a database or a session goes away.
//! A reaper driven from outside performs the timed eviction and re-reads its
//! scan interval every cycle.

pub mod cursor;
pub mod reaper;
pub mod request_tracker;
pub mod store;
mod store_map;

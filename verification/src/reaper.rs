//! The reaper's decision logic. The reaper itself is a background loop run
//! by the store's owner: each cycle it sleeps for the interval in effect,
//! sweeps the registry with `CursorStore::evict_expired`, then re-reads the
//! configured scan interval and applies it here. Only the decision of which
//! interval the next cycle uses lives in this module; the sleeping, the
//! clock and the configuration fetch stay with the loop's runner.

use vstd::prelude::*;

verus! {

/// The interval the next reaper cycle runs on, given the interval currently
/// in effect and the outcome of this cycle's configuration fetch: a fetched
/// value replaces the current interval, a failed fetch keeps it.
pub open spec fn next_interval(current_secs: u64, fetched_secs: Option<u64>) -> u64 {
    match fetched_secs {
        Some(secs) => secs,
        None => current_secs,
    }
}

/// The reaper's per-cycle state: the scan interval currently in effect, in
/// whole seconds.
pub struct Reaper {
    interval_secs: u64,
}

impl Reaper {
    /// The scan interval in effect, in whole seconds.
    pub closed spec fn spec_interval_secs(&self) -> u64 {
        self.interval_secs
    }

    /// A reaper that starts with the given scan interval.
    pub fn new(initial_interval_secs: u64) -> (r: Self)
        ensures
            r.spec_interval_secs() == initial_interval_secs,
    {
        Reaper { interval_secs: initial_interval_secs }
    }

    /// Executable form of `spec_interval_secs`.
    pub fn interval_secs(&self) -> (secs: u64)
        ensures
            secs == self.spec_interval_secs(),
    {
        self.interval_secs
    }

    /// Applies one cycle's configuration reading. A fetched interval takes
    /// effect immediately for the next cycle; a failed fetch (`None`) keeps
    /// the interval already in effect, so a transient configuration failure
    /// never stops future sweeps. Returns whether the interval changed, in
    /// which case the runner must rebuild its timer with the new period
    /// before the next sleep.
    pub fn observe_interval(&mut self, fetched_secs: Option<u64>) -> (changed: bool)
        ensures
            final(self).spec_interval_secs() == next_interval(old(self).spec_interval_secs(), fetched_secs),
            changed == (final(self).spec_interval_secs() != old(self).spec_interval_secs()),
    {
        match fetched_secs {
            Some(secs) => {
                let changed = secs != self.interval_secs;
                self.interval_secs = secs;
                changed
            },
            None => false,
        }
    }
}

/// Law: a change of the configured scan interval takes effect after the one
/// cycle that observes it, and a cycle whose configuration fetch fails keeps
/// the interval already in effect.
pub proof fn lemma_interval_change_applies(current_secs: u64, observed_secs: u64)
    ensures
        next_interval(current_secs, Some(observed_secs)) == observed_secs,
        next_interval(current_secs, None) == current_secs,
{
}

} // verus!

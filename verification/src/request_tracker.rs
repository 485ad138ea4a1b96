//! Per-request latency accounting: a fixed array of accumulated nanosecond
//! totals, one slot per measured phase of request handling.

use vstd::prelude::*;

verus! {

/// The measured phases of handling one request.
#[derive(Debug, Clone, Copy)]
pub enum RequestIntervalKind {
    /// The overall request processing duration, which includes BufferRead,
    /// FormatRequest, and HandleRequest via the backend.
    HandleMessage,
    /// Time spent reading the stream from the request body.
    BufferRead,
    /// Time spent formatting and parsing the incoming request.
    FormatRequest,
    /// Time spent handling the request, which includes ProcessRequest and,
    /// if applicable, the three transaction phases below.
    HandleRequest,
    /// Time spent in network transport and backend processing.
    ProcessRequest,
    /// Time spent beginning a backend transaction.
    PostgresBeginTransaction,
    /// Time spent setting statement timeout parameters in the backend.
    PostgresSetStatementTimeout,
    /// Time spent committing a backend transaction.
    PostgresCommitTransaction,
    /// Sentinel giving the size of the metrics array; it owns no slot, and
    /// recording or reading it is excluded by contract.
    MaxUnused,
}

impl RequestIntervalKind {
    /// The slot of this phase in the metrics array; the sentinel's slot
    /// number is the array's size.
    pub open spec fn spec_slot(&self) -> int {
        match self {
            RequestIntervalKind::HandleMessage => 0,
            RequestIntervalKind::BufferRead => 1,
            RequestIntervalKind::FormatRequest => 2,
            RequestIntervalKind::HandleRequest => 3,
            RequestIntervalKind::ProcessRequest => 4,
            RequestIntervalKind::PostgresBeginTransaction => 5,
            RequestIntervalKind::PostgresSetStatementTimeout => 6,
            RequestIntervalKind::PostgresCommitTransaction => 7,
            RequestIntervalKind::MaxUnused => 8,
        }
    }

    /// Executable form of `spec_slot`.
    pub fn slot(&self) -> (i: usize)
        ensures
            i == self.spec_slot(),
    {
        match self {
            RequestIntervalKind::HandleMessage => 0,
            RequestIntervalKind::BufferRead => 1,
            RequestIntervalKind::FormatRequest => 2,
            RequestIntervalKind::HandleRequest => 3,
            RequestIntervalKind::ProcessRequest => 4,
            RequestIntervalKind::PostgresBeginTransaction => 5,
            RequestIntervalKind::PostgresSetStatementTimeout => 6,
            RequestIntervalKind::PostgresCommitTransaction => 7,
            RequestIntervalKind::MaxUnused => 8,
        }
    }
}

/// Accumulated elapsed nanoseconds per measured phase. The view is the
/// sequence of totals, indexed by `RequestIntervalKind::spec_slot`.
#[derive(Debug)]
pub struct RequestTracker {
    request_interval_metrics_array: Vec<i64>,
}

impl View for RequestTracker {
    type V = Seq<i64>;

    closed spec fn view(&self) -> Seq<i64> {
        self.request_interval_metrics_array@
    }
}

impl RequestTracker {
    #[verifier::type_invariant]
    spec fn wf(self) -> bool {
        self.request_interval_metrics_array@.len() == RequestIntervalKind::MaxUnused.spec_slot()
    }

    /// A tracker with every phase's total at zero.
    pub fn new() -> (t: Self)
        ensures
            t@.len() == RequestIntervalKind::MaxUnused.spec_slot(),
            forall|i: int| 0 <= i < t@.len() ==> t@[i] == 0,
    {
        let mut totals: Vec<i64> = Vec::new();
        let mut i: usize = 0;
        while i < 8
            invariant
                i <= 8,
                totals@.len() == i,
                forall|j: int| 0 <= j < i ==> totals@[j] == 0,
            decreases 8 - i,
        {
            totals.push(0);
            i = i + 1;
        }
        RequestTracker { request_interval_metrics_array: totals }
    }

    /// Adds an elapsed duration, in nanoseconds, to the phase's total. The
    /// total wraps on overflow, as a relaxed atomic accumulation would.
    pub fn record_duration(&mut self, interval: RequestIntervalKind, elapsed_nanos: i64)
        requires
            interval.spec_slot() < RequestIntervalKind::MaxUnused.spec_slot(),
        ensures
            final(self)@ == old(self)@.update(
                interval.spec_slot(),
                old(self)@[interval.spec_slot()].wrapping_add(elapsed_nanos),
            ),
    {
        proof {
            use_type_invariant(&*self);
        }
        let idx = interval.slot();
        let total = self.request_interval_metrics_array[idx].wrapping_add(elapsed_nanos);
        self.request_interval_metrics_array[idx] = total;
    }

    /// The accumulated nanoseconds recorded for the phase so far.
    pub fn get_interval_elapsed_time(&self, interval: RequestIntervalKind) -> (total: i64)
        requires
            interval.spec_slot() < RequestIntervalKind::MaxUnused.spec_slot(),
        ensures
            total == self@[interval.spec_slot()],
    {
        proof {
            use_type_invariant(self);
        }
        self.request_interval_metrics_array[interval.slot()]
    }
}

impl Default for RequestTracker {
    fn default() -> (t: Self)
        ensures
            t@.len() == RequestIntervalKind::MaxUnused.spec_slot(),
            forall|i: int| 0 <= i < t@.len() ==> t@[i] == 0,
    {
        RequestTracker::new()
    }
}

} // verus!

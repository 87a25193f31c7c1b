use vstd::prelude::*;

verus! {

/// One newly observed block header, as delivered by the node's
/// block-notification transport. The block number may be absent; the job
/// treats a missing number as zero rather than as an error.
#[derive(Clone, Copy, Debug)]
pub struct HeaderEvent {
    pub block_number: Option<u64>,
}

/// What the chain-state accessor produced for one maintenance cycle: a fresh
/// snapshot (an opaque handle, carried here as an identifier) or a transient
/// failure.
#[derive(Clone, Copy, Debug)]
pub enum FetchOutcome {
    Success { snapshot: u64 },
    Failure,
}

/// The pool's pending-transaction and pending-bundle counts, as read back
/// immediately after a synchronization call, while exclusive access is still
/// held.
#[derive(Clone, Copy, Debug, PartialEq, Eq)]
pub struct PoolCounts {
    pub tx_count: u64,
    pub bundle_count: u64,
}

/// Everything the environment supplies for one header event: the event
/// itself, the outcome of the chain-state fetch attempted for it, and the
/// counts the pool reports after synchronizing against it.
#[derive(Clone, Copy, Debug)]
pub struct CycleInput {
    pub event: HeaderEvent,
    pub fetch: FetchOutcome,
    pub counts: PoolCounts,
}

/// One outcome of waiting for the next header event raced against the shared
/// cancellation signal.
#[derive(Clone, Copy, Debug)]
pub enum Observation {
    /// The next header event arrived, with the environment of its cycle.
    Header { input: CycleInput },
    /// The transport closed the header stream.
    Exhausted,
    /// The shared cancellation signal was observed set.
    CancelObserved,
}

/// An externally visible effect the job performs, in the order performed.
#[derive(Clone, Copy, Debug, PartialEq, Eq)]
pub enum Action {
    /// Record the current block number as observability state.
    SetCurrentBlock { block_number: u64 },
    /// Invoke the pool's synchronization operation, under exclusive access,
    /// with this block number and chain-state snapshot.
    Synchronize { block_number: u64, snapshot: u64 },
    /// Emit the pool's content counts as metrics.
    EmitCounts { tx_count: u64, bundle_count: u64 },
    /// Log and count a transient chain-state fetch failure for this block.
    ReportFetchFailure { block_number: u64 },
    /// Log the fatal failure to open the real header subscription.
    ReportSubscribeFailure,
    /// Set the shared cancellation signal.
    SetCancellation,
}

} // verus!

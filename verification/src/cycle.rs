use vstd::prelude::*;
use crate::events::{Action, CycleInput, FetchOutcome, HeaderEvent};

verus! {

/// The block number a header event stands for: its own number, or zero where
/// the event carries none (a deliberately permissive default, not an error).
pub open spec fn spec_block_number(ev: HeaderEvent) -> u64 {
    match ev.block_number {
        Some(n) => n,
        None => 0,
    }
}

/// Extracts the block number from a header event, defaulting to zero.
pub fn block_number_of(ev: &HeaderEvent) -> (n: u64)
    ensures
        n == spec_block_number(*ev),
{
    match ev.block_number {
        Some(n) => n,
        None => 0,
    }
}

/// What the maintenance loop does with one header event once the chain-state
/// fetch for it has been attempted.
#[derive(Clone, Copy, Debug, PartialEq, Eq)]
pub enum CycleDecision {
    /// The fetch succeeded: acquire exclusive access to the pool, synchronize
    /// it with this block number and the snapshot, read the counts back, and
    /// report them.
    Synchronize { block_number: u64 },
    /// The fetch failed: report the transient failure and skip the rest of
    /// this cycle; the loop continues with the next event.
    Skip { block_number: u64 },
}

/// Decides one maintenance cycle from the header event and the outcome of
/// the chain-state fetch: a failed fetch skips the cycle without stopping
/// the loop; a successful one proceeds to pool synchronization.
pub fn cycle_decision(ev: &HeaderEvent, fetch_succeeded: bool) -> (d: CycleDecision)
    ensures
        fetch_succeeded ==> d == (CycleDecision::Synchronize {
            block_number: spec_block_number(*ev),
        }),
        !fetch_succeeded ==> d == (CycleDecision::Skip {
            block_number: spec_block_number(*ev),
        }),
{
    let block_number = block_number_of(ev);
    if fetch_succeeded {
        CycleDecision::Synchronize { block_number }
    } else {
        CycleDecision::Skip { block_number }
    }
}

/// The effects of one full maintenance cycle for one header event, in order:
/// the block number is always recorded first; then either the pool is
/// synchronized and its counts are emitted, or the failed fetch is reported
/// and the cycle ends with the pool untouched.
pub open spec fn spec_cycle_actions(input: CycleInput) -> Seq<Action> {
    let n = spec_block_number(input.event);
    match input.fetch {
        FetchOutcome::Success { snapshot } => seq![
            Action::SetCurrentBlock { block_number: n },
            Action::Synchronize { block_number: n, snapshot },
            Action::EmitCounts {
                tx_count: input.counts.tx_count,
                bundle_count: input.counts.bundle_count,
            },
        ],
        FetchOutcome::Failure => seq![
            Action::SetCurrentBlock { block_number: n },
            Action::ReportFetchFailure { block_number: n },
        ],
    }
}

/// Computes the effect list of one maintenance cycle for one header event.
pub fn cycle_actions(input: &CycleInput) -> (r: Vec<Action>)
    ensures
        r@ == spec_cycle_actions(*input),
{
    let n = block_number_of(&input.event);
    let mut r: Vec<Action> = Vec::new();
    r.push(Action::SetCurrentBlock { block_number: n });
    match input.fetch {
        FetchOutcome::Success { snapshot } => {
            r.push(Action::Synchronize { block_number: n, snapshot });
            r.push(Action::EmitCounts {
                tx_count: input.counts.tx_count,
                bundle_count: input.counts.bundle_count,
            });
        }
        FetchOutcome::Failure => {
            r.push(Action::ReportFetchFailure { block_number: n });
        }
    }
    proof {
        assert(r@ =~= spec_cycle_actions(*input));
    }
    r
}

} // verus!

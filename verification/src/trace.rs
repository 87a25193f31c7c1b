use vstd::prelude::*;
use crate::cycle::{spec_block_number, spec_cycle_actions};
use crate::events::{Action, CycleInput, FetchOutcome, Observation};

verus! {

/// The synchronization calls a trace performs, in order, each as a pair of
/// block number and chain-state snapshot.
pub open spec fn sync_calls(trace: Seq<Action>) -> Seq<(u64, u64)>
    decreases trace.len(),
{
    if trace.len() == 0 {
        Seq::<(u64, u64)>::empty()
    } else {
        let rest = sync_calls(trace.drop_first());
        match trace[0] {
            Action::Synchronize { block_number, snapshot } => seq![(block_number, snapshot)]
                + rest,
            _ => rest,
        }
    }
}

/// How many times a trace sets the shared cancellation signal.
pub open spec fn cancellation_count(trace: Seq<Action>) -> nat
    decreases trace.len(),
{
    if trace.len() == 0 {
        0nat
    } else {
        (if trace[0] is SetCancellation {
            1nat
        } else {
            0nat
        }) + cancellation_count(trace.drop_first())
    }
}

/// The block numbers a trace records as current-block observability state,
/// in order: one per processed header event.
pub open spec fn recorded_blocks(trace: Seq<Action>) -> Seq<u64>
    decreases trace.len(),
{
    if trace.len() == 0 {
        Seq::<u64>::empty()
    } else {
        let rest = recorded_blocks(trace.drop_first());
        match trace[0] {
            Action::SetCurrentBlock { block_number } => seq![block_number] + rest,
            _ => rest,
        }
    }
}

/// The block numbers whose chain-state fetch a trace reports as failed, in
/// order.
pub open spec fn fetch_failures(trace: Seq<Action>) -> Seq<u64>
    decreases trace.len(),
{
    if trace.len() == 0 {
        Seq::<u64>::empty()
    } else {
        let rest = fetch_failures(trace.drop_first());
        match trace[0] {
            Action::ReportFetchFailure { block_number } => seq![block_number] + rest,
            _ => rest,
        }
    }
}

/// An observation that is a header event whose chain-state fetch succeeds.
pub open spec fn is_successful_header(ob: Observation) -> bool {
    ob matches Observation::Header { input } && input.fetch is Success
}

/// The cycle environment a header observation carries.
pub open spec fn header_input(ob: Observation) -> CycleInput
    recommends
        ob is Header,
{
    ob->input
}

/// The synchronization call a successful header event gives rise to: its
/// block number paired with the snapshot fetched for it.
pub open spec fn sync_call_of(ob: Observation) -> (u64, u64)
    recommends
        is_successful_header(ob),
{
    (spec_block_number(header_input(ob).event), header_input(ob).fetch->snapshot)
}

/// Synchronization calls distribute over concatenation of traces.
pub proof fn lemma_sync_calls_append(a: Seq<Action>, b: Seq<Action>)
    ensures
        sync_calls(a + b) == sync_calls(a) + sync_calls(b),
    decreases a.len(),
{
    if a.len() == 0 {
        assert(a + b =~= b);
        assert(sync_calls(a) + sync_calls(b) =~= sync_calls(b));
    } else {
        lemma_sync_calls_append(a.drop_first(), b);
        assert((a + b).drop_first() =~= a.drop_first() + b);
        assert((a + b)[0] == a[0]);
        match a[0] {
            Action::Synchronize { block_number, snapshot } => {
                assert(seq![(block_number, snapshot)] + (sync_calls(a.drop_first()) + sync_calls(
                    b,
                )) =~= (seq![(block_number, snapshot)] + sync_calls(a.drop_first())) + sync_calls(
                    b,
                ));
            }
            _ => {},
        }
    }
}

/// Cancellation counts distribute over concatenation of traces.
pub proof fn lemma_cancellation_count_append(a: Seq<Action>, b: Seq<Action>)
    ensures
        cancellation_count(a + b) == cancellation_count(a) + cancellation_count(b),
    decreases a.len(),
{
    if a.len() == 0 {
        assert(a + b =~= b);
    } else {
        lemma_cancellation_count_append(a.drop_first(), b);
        assert((a + b).drop_first() =~= a.drop_first() + b);
        assert((a + b)[0] == a[0]);
    }
}

/// Recorded block numbers distribute over concatenation of traces.
pub proof fn lemma_recorded_blocks_append(a: Seq<Action>, b: Seq<Action>)
    ensures
        recorded_blocks(a + b) == recorded_blocks(a) + recorded_blocks(b),
    decreases a.len(),
{
    if a.len() == 0 {
        assert(a + b =~= b);
        assert(recorded_blocks(a) + recorded_blocks(b) =~= recorded_blocks(b));
    } else {
        lemma_recorded_blocks_append(a.drop_first(), b);
        assert((a + b).drop_first() =~= a.drop_first() + b);
        assert((a + b)[0] == a[0]);
        match a[0] {
            Action::SetCurrentBlock { block_number } => {
                assert(seq![block_number] + (recorded_blocks(a.drop_first()) + recorded_blocks(b))
                    =~= (seq![block_number] + recorded_blocks(a.drop_first())) + recorded_blocks(
                    b,
                ));
            }
            _ => {},
        }
    }
}

/// Reported fetch failures distribute over concatenation of traces.
pub proof fn lemma_fetch_failures_append(a: Seq<Action>, b: Seq<Action>)
    ensures
        fetch_failures(a + b) == fetch_failures(a) + fetch_failures(b),
    decreases a.len(),
{
    if a.len() == 0 {
        assert(a + b =~= b);
        assert(fetch_failures(a) + fetch_failures(b) =~= fetch_failures(b));
    } else {
        lemma_fetch_failures_append(a.drop_first(), b);
        assert((a + b).drop_first() =~= a.drop_first() + b);
        assert((a + b)[0] == a[0]);
        match a[0] {
            Action::ReportFetchFailure { block_number } => {
                assert(seq![block_number] + (fetch_failures(a.drop_first()) + fetch_failures(b))
                    =~= (seq![block_number] + fetch_failures(a.drop_first())) + fetch_failures(b));
            }
            _ => {},
        }
    }
}

/// What one maintenance cycle contributes to a trace: exactly one recorded
/// block number; one synchronization call carrying that number and the
/// fetched snapshot when the fetch succeeded, none otherwise; one reported
/// fetch failure exactly when the fetch failed; and never a cancellation.
pub proof fn lemma_cycle_trace(input: CycleInput)
    ensures
        input.fetch matches FetchOutcome::Success { snapshot } ==> sync_calls(
            spec_cycle_actions(input),
        ) == seq![(spec_block_number(input.event), snapshot)],
        input.fetch is Failure ==> sync_calls(spec_cycle_actions(input)) == Seq::<
            (u64, u64),
        >::empty(),
        input.fetch is Failure ==> fetch_failures(spec_cycle_actions(input)) == seq![
            spec_block_number(input.event),
        ],
        input.fetch is Success ==> fetch_failures(spec_cycle_actions(input)) == Seq::<
            u64,
        >::empty(),
        recorded_blocks(spec_cycle_actions(input)) == seq![spec_block_number(input.event)],
        cancellation_count(spec_cycle_actions(input)) == 0,
{
    reveal_with_fuel(sync_calls, 5);
    reveal_with_fuel(cancellation_count, 5);
    reveal_with_fuel(recorded_blocks, 5);
    reveal_with_fuel(fetch_failures, 5);
    let t = spec_cycle_actions(input);
    match input.fetch {
        FetchOutcome::Success { snapshot } => {
            assert(t.len() == 3);
            assert(t.drop_first() =~= seq![t[1], t[2]]);
            assert(t.drop_first().drop_first() =~= seq![t[2]]);
            assert(t.drop_first().drop_first().drop_first() =~= Seq::<Action>::empty());
            assert(sync_calls(t) =~= seq![(spec_block_number(input.event), snapshot)]);
            assert(recorded_blocks(t) =~= seq![spec_block_number(input.event)]);
            assert(fetch_failures(t) =~= Seq::<u64>::empty());
        }
        FetchOutcome::Failure => {
            assert(t.len() == 2);
            assert(t.drop_first() =~= seq![t[1]]);
            assert(t.drop_first().drop_first() =~= Seq::<Action>::empty());
            assert(sync_calls(t) =~= Seq::<(u64, u64)>::empty());
            assert(recorded_blocks(t) =~= seq![spec_block_number(input.event)]);
            assert(fetch_failures(t) =~= seq![spec_block_number(input.event)]);
        }
    }
}

/// What the single trailing cancellation action contributes to a trace.
pub proof fn lemma_cancellation_singleton_trace()
    ensures
        sync_calls(seq![Action::SetCancellation]) == Seq::<(u64, u64)>::empty(),
        recorded_blocks(seq![Action::SetCancellation]) == Seq::<u64>::empty(),
        fetch_failures(seq![Action::SetCancellation]) == Seq::<u64>::empty(),
        cancellation_count(seq![Action::SetCancellation]) == 1,
{
    reveal_with_fuel(sync_calls, 2);
    reveal_with_fuel(cancellation_count, 2);
    reveal_with_fuel(recorded_blocks, 2);
    reveal_with_fuel(fetch_failures, 2);
    assert(seq![Action::SetCancellation].drop_first() =~= Seq::<Action>::empty());
    assert(sync_calls(seq![Action::SetCancellation]) =~= Seq::<(u64, u64)>::empty());
    assert(recorded_blocks(seq![Action::SetCancellation]) =~= Seq::<u64>::empty());
    assert(fetch_failures(seq![Action::SetCancellation]) =~= Seq::<u64>::empty());
}

} // verus!

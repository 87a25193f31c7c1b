use vstd::prelude::*;
use crate::cycle::{spec_block_number, spec_cycle_actions};
use crate::events::{Action, Observation};
use crate::job::{spec_job_actions, spec_loop_actions};
use crate::trace::{
    cancellation_count, fetch_failures, header_input, is_successful_header,
    lemma_cancellation_count_append, lemma_cancellation_singleton_trace, lemma_cycle_trace,
    lemma_fetch_failures_append, lemma_recorded_blocks_append, lemma_sync_calls_append,
    recorded_blocks, sync_call_of, sync_calls,
};

verus! {

/// The maintenance loop itself never sets the cancellation signal: only the
/// job's exit does.
pub proof fn lemma_loop_no_cancellation(obs: Seq<Observation>)
    ensures
        cancellation_count(spec_loop_actions(obs)) == 0,
    decreases obs.len(),
{
    if obs.len() == 0 {
    } else {
        match obs[0] {
            Observation::Header { input } => {
                lemma_cycle_trace(input);
                lemma_cancellation_count_append(
                    spec_cycle_actions(input),
                    spec_loop_actions(obs.drop_first()),
                );
                lemma_loop_no_cancellation(obs.drop_first());
            }
            _ => {},
        }
    }
}

/// On every exit path — stream exhaustion, a fatal subscription failure, or
/// observing external cancellation — the job sets the shared cancellation
/// signal exactly once, and it is the last thing the job does.
pub proof fn lemma_cancellation_set_exactly_once(subscribe_ok: bool, obs: Seq<Observation>)
    ensures
        cancellation_count(spec_job_actions(subscribe_ok, obs)) == 1,
        spec_job_actions(subscribe_ok, obs).len() >= 1,
        spec_job_actions(subscribe_ok, obs).last() == Action::SetCancellation,
{
    lemma_cancellation_singleton_trace();
    if subscribe_ok {
        lemma_loop_no_cancellation(obs);
        lemma_cancellation_count_append(spec_loop_actions(obs), seq![Action::SetCancellation]);
        let t = spec_job_actions(subscribe_ok, obs);
        assert(t.last() == seq![Action::SetCancellation][0]);
    } else {
        reveal_with_fuel(cancellation_count, 3);
        assert(seq![Action::ReportSubscribeFailure, Action::SetCancellation].drop_first() =~= seq![
            Action::SetCancellation,
        ]);
    }
}

/// Over a run of header events whose fetches all succeed, the loop
/// synchronizes once per event, in arrival order, records every event's
/// block number, and reports no fetch failure.
pub proof fn lemma_loop_all_fetches_succeed(obs: Seq<Observation>)
    requires
        forall|i: int| 0 <= i < obs.len() ==> is_successful_header(#[trigger] obs[i]),
    ensures
        sync_calls(spec_loop_actions(obs)).len() == obs.len(),
        forall|i: int|
            0 <= i < obs.len() ==> #[trigger] sync_calls(spec_loop_actions(obs))[i]
                == sync_call_of(obs[i]),
        recorded_blocks(spec_loop_actions(obs)).len() == obs.len(),
        fetch_failures(spec_loop_actions(obs)).len() == 0,
    decreases obs.len(),
{
    if obs.len() == 0 {
    } else {
        assert(is_successful_header(obs[0]));
        let input = header_input(obs[0]);
        lemma_cycle_trace(input);
        let cyc = spec_cycle_actions(input);
        let rest = spec_loop_actions(obs.drop_first());
        lemma_sync_calls_append(cyc, rest);
        lemma_recorded_blocks_append(cyc, rest);
        lemma_fetch_failures_append(cyc, rest);
        assert forall|i: int|
            0 <= i < obs.drop_first().len() implies is_successful_header(
            #[trigger] obs.drop_first()[i],
        ) by {
            assert(obs.drop_first()[i] == obs[i + 1]);
            assert(is_successful_header(obs[i + 1]));
        }
        lemma_loop_all_fetches_succeed(obs.drop_first());
        let calls = sync_calls(spec_loop_actions(obs));
        assert(sync_calls(cyc) == seq![sync_call_of(obs[0])]);
        assert(calls == sync_calls(cyc) + sync_calls(rest));
        assert forall|i: int| 0 <= i < obs.len() implies #[trigger] calls[i] == sync_call_of(
            obs[i],
        ) by {
            if i == 0 {
                assert(calls[0] == seq![sync_call_of(obs[0])][0]);
            } else {
                assert(calls[i] == sync_calls(rest)[i - 1]);
                assert(obs.drop_first()[i - 1] == obs[i]);
            }
        }
    }
}

/// For every sequence of header events whose chain-state fetches all
/// succeed, the pool's synchronization operation is invoked exactly once per
/// event, strictly in arrival order, each call carrying that event's block
/// number and the snapshot fetched for it.
pub proof fn lemma_sync_once_per_event(obs: Seq<Observation>)
    requires
        forall|i: int| 0 <= i < obs.len() ==> is_successful_header(#[trigger] obs[i]),
    ensures
        sync_calls(spec_job_actions(true, obs)).len() == obs.len(),
        forall|i: int|
            0 <= i < obs.len() ==> #[trigger] sync_calls(spec_job_actions(true, obs))[i]
                == sync_call_of(obs[i]),
{
    lemma_loop_all_fetches_succeed(obs);
    lemma_sync_calls_append(spec_loop_actions(obs), seq![Action::SetCancellation]);
    lemma_cancellation_singleton_trace();
    assert(sync_calls(spec_job_actions(true, obs)) =~= sync_calls(spec_loop_actions(obs)));
}

/// Over a run of header events where exactly one fetch fails, the loop
/// synchronizes once per other event, in arrival order, still records every
/// event's block number, and reports exactly the failed event's block.
pub proof fn lemma_loop_one_fetch_failure(obs: Seq<Observation>, k: int)
    requires
        0 <= k < obs.len(),
        forall|i: int| 0 <= i < obs.len() ==> #[trigger] obs[i] is Header,
        forall|i: int|
            0 <= i < obs.len() && i != k ==> is_successful_header(#[trigger] obs[i]),
        !is_successful_header(obs[k]),
    ensures
        sync_calls(spec_loop_actions(obs)).len() == obs.len() - 1,
        forall|i: int|
            0 <= i < k ==> #[trigger] sync_calls(spec_loop_actions(obs))[i] == sync_call_of(
                obs[i],
            ),
        forall|i: int|
            k <= i < obs.len() - 1 ==> #[trigger] sync_calls(spec_loop_actions(obs))[i]
                == sync_call_of(obs[i + 1]),
        recorded_blocks(spec_loop_actions(obs)).len() == obs.len(),
        fetch_failures(spec_loop_actions(obs)) == seq![
            spec_block_number(header_input(obs[k]).event),
        ],
    decreases obs.len(),
{
    assert(obs[0] is Header);
    let input = header_input(obs[0]);
    lemma_cycle_trace(input);
    let cyc = spec_cycle_actions(input);
    let rest = spec_loop_actions(obs.drop_first());
    lemma_sync_calls_append(cyc, rest);
    lemma_recorded_blocks_append(cyc, rest);
    lemma_fetch_failures_append(cyc, rest);
    let calls = sync_calls(spec_loop_actions(obs));
    if k == 0 {
        assert(input.fetch is Failure);
        assert forall|i: int|
            0 <= i < obs.drop_first().len() implies is_successful_header(
            #[trigger] obs.drop_first()[i],
        ) by {
            assert(obs.drop_first()[i] == obs[i + 1]);
            assert(is_successful_header(obs[i + 1]));
        }
        lemma_loop_all_fetches_succeed(obs.drop_first());
        assert(calls =~= sync_calls(rest));
        assert(fetch_failures(rest) =~= Seq::<u64>::empty());
        assert(fetch_failures(spec_loop_actions(obs)) =~= seq![spec_block_number(input.event)]);
        assert forall|i: int| 0 <= i < obs.len() - 1 implies #[trigger] calls[i] == sync_call_of(
            obs[i + 1],
        ) by {
            assert(calls[i] == sync_calls(rest)[i]);
            assert(obs.drop_first()[i] == obs[i + 1]);
        }
    } else {
        assert(is_successful_header(obs[0]));
        assert(sync_calls(cyc) == seq![sync_call_of(obs[0])]);
        assert forall|i: int|
            0 <= i < obs.drop_first().len() implies #[trigger] obs.drop_first()[i] is Header by {
            assert(obs.drop_first()[i] == obs[i + 1]);
            assert(obs[i + 1] is Header);
        }
        assert forall|i: int|
            0 <= i < obs.drop_first().len() && i != k - 1 implies is_successful_header(
            #[trigger] obs.drop_first()[i],
        ) by {
            assert(obs.drop_first()[i] == obs[i + 1]);
            assert(is_successful_header(obs[i + 1]));
        }
        assert(obs.drop_first()[k - 1] == obs[k]);
        lemma_loop_one_fetch_failure(obs.drop_first(), k - 1);
        assert(calls == sync_calls(cyc) + sync_calls(rest));
        assert forall|i: int| 0 <= i < k implies #[trigger] calls[i] == sync_call_of(obs[i]) by {
            if i == 0 {
                assert(calls[0] == seq![sync_call_of(obs[0])][0]);
            } else {
                assert(calls[i] == sync_calls(rest)[i - 1]);
                assert(obs.drop_first()[i - 1] == obs[i]);
            }
        }
        assert forall|i: int| k <= i < obs.len() - 1 implies #[trigger] calls[i] == sync_call_of(
            obs[i + 1],
        ) by {
            assert(calls[i] == sync_calls(rest)[i - 1]);
            assert(obs.drop_first()[i] == obs[i + 1]);
        }
        assert(fetch_failures(spec_loop_actions(obs)) =~= fetch_failures(rest));
        assert(fetch_failures(spec_loop_actions(obs)) =~= seq![
            spec_block_number(header_input(obs[k]).event),
        ]);
    }
}

/// If the chain-state fetch fails for exactly one header event, the pool is
/// synchronized for every other event, in arrival order; the loop does not
/// terminate because of the failure: it still records every event's block
/// number, and reports exactly the failed event's block.
pub proof fn lemma_single_fetch_failure_skips_one(obs: Seq<Observation>, k: int)
    requires
        0 <= k < obs.len(),
        forall|i: int| 0 <= i < obs.len() ==> #[trigger] obs[i] is Header,
        forall|i: int|
            0 <= i < obs.len() && i != k ==> is_successful_header(#[trigger] obs[i]),
        !is_successful_header(obs[k]),
    ensures
        sync_calls(spec_job_actions(true, obs)).len() == obs.len() - 1,
        forall|i: int|
            0 <= i < k ==> #[trigger] sync_calls(spec_job_actions(true, obs))[i] == sync_call_of(
                obs[i],
            ),
        forall|i: int|
            k <= i < obs.len() - 1 ==> #[trigger] sync_calls(spec_job_actions(true, obs))[i]
                == sync_call_of(obs[i + 1]),
        recorded_blocks(spec_job_actions(true, obs)).len() == obs.len(),
        fetch_failures(spec_job_actions(true, obs)) == seq![
            spec_block_number(header_input(obs[k]).event),
        ],
{
    lemma_loop_one_fetch_failure(obs, k);
    lemma_sync_calls_append(spec_loop_actions(obs), seq![Action::SetCancellation]);
    lemma_recorded_blocks_append(spec_loop_actions(obs), seq![Action::SetCancellation]);
    lemma_fetch_failures_append(spec_loop_actions(obs), seq![Action::SetCancellation]);
    lemma_cancellation_singleton_trace();
    assert(sync_calls(spec_job_actions(true, obs)) =~= sync_calls(spec_loop_actions(obs)));
    assert(recorded_blocks(spec_job_actions(true, obs)) =~= recorded_blocks(
        spec_loop_actions(obs),
    ));
    assert(fetch_failures(spec_job_actions(true, obs)) =~= fetch_failures(
        spec_loop_actions(obs),
    ));
}

/// The maintenance loop's trace is unchanged by anything after its first
/// stopping observation.
pub proof fn lemma_loop_stops_at(obs: Seq<Observation>, k: int)
    requires
        0 <= k < obs.len(),
        !(obs[k] is Header),
        forall|i: int| 0 <= i < k ==> #[trigger] obs[i] is Header,
    ensures
        spec_loop_actions(obs) == spec_loop_actions(obs.take(k)),
    decreases k,
{
    if k == 0 {
        assert(obs.take(0) =~= Seq::<Observation>::empty());
    } else {
        assert(obs[0] is Header);
        assert(obs.drop_first()[k - 1] == obs[k]);
        assert forall|i: int| 0 <= i < k - 1 implies #[trigger] obs.drop_first()[i] is Header by {
            assert(obs.drop_first()[i] == obs[i + 1]);
            assert(obs[i + 1] is Header);
        }
        lemma_loop_stops_at(obs.drop_first(), k - 1);
        assert(obs.take(k)[0] == obs[0]);
        assert(obs.take(k).drop_first() =~= obs.drop_first().take(k - 1));
    }
}

/// If external cancellation is observed while the loop awaits the next
/// header event, the job exits at once: observations after the cancellation,
/// already buffered or future, contribute nothing, and the job's whole trace
/// is exactly that of the header events before the cancellation.
pub proof fn lemma_cancellation_stops_processing(obs: Seq<Observation>, k: int)
    requires
        0 <= k < obs.len(),
        obs[k] is CancelObserved,
        forall|i: int| 0 <= i < k ==> #[trigger] obs[i] is Header,
    ensures
        spec_job_actions(true, obs) == spec_job_actions(true, obs.take(k)),
{
    lemma_loop_stops_at(obs, k);
}

} // verus!


use vstd::prelude::*;
use crate::cycle::{cycle_actions, spec_cycle_actions};
use crate::events::{Action, Observation};

verus! {

/// Why bootstrap failed before any background work was committed.
#[derive(Clone, Copy, Debug, PartialEq, Eq)]
pub enum BootstrapError {
    /// Connecting to the node's transport failed.
    ConnectFailed,
    /// The trial header subscription was rejected.
    TrialSubscribeFailed,
}

/// Whether bootstrap commits to background execution: only when the
/// transport connected and the trial subscription was accepted.
pub open spec fn spec_bootstrap_ok(connect_ok: bool, trial_subscribe_ok: bool) -> bool {
    connect_ok && trial_subscribe_ok
}

/// The fail-fast bootstrap decision: commit to spawning the background job
/// only when the transport connected and the trial subscription was
/// accepted; otherwise report which step failed, connection first. The trial
/// subscription exists so that configuration and connectivity errors surface
/// synchronously to the caller instead of inside a detached task.
pub fn bootstrap_decision(connect_ok: bool, trial_subscribe_ok: bool) -> (r: Result<
    (),
    BootstrapError,
>)
    ensures
        r is Ok <==> spec_bootstrap_ok(connect_ok, trial_subscribe_ok),
        !connect_ok ==> (r matches Err(e) && e == BootstrapError::ConnectFailed),
        connect_ok && !trial_subscribe_ok ==> (r matches Err(e) && e
            == BootstrapError::TrialSubscribeFailed),
{
    if !connect_ok {
        Err(BootstrapError::ConnectFailed)
    } else if !trial_subscribe_ok {
        Err(BootstrapError::TrialSubscribeFailed)
    } else {
        Ok(())
    }
}

/// The actions the maintenance loop performs on a sequence of observations:
/// one full cycle per header event, strictly in arrival order, stopping at
/// the first stream exhaustion or observed cancellation. Observations after
/// a stop contribute nothing.
pub open spec fn spec_loop_actions(obs: Seq<Observation>) -> Seq<Action>
    decreases obs.len(),
{
    if obs.len() == 0 {
        Seq::<Action>::empty()
    } else {
        match obs[0] {
            Observation::Header { input } => spec_cycle_actions(input) + spec_loop_actions(
                obs.drop_first(),
            ),
            Observation::Exhausted => Seq::<Action>::empty(),
            Observation::CancelObserved => Seq::<Action>::empty(),
        }
    }
}

/// The whole background job's action trace, from the moment it is spawned: a
/// fatal failure to open the real subscription is reported and escalated;
/// otherwise the loop runs over its observations. On every exit path the
/// shared cancellation signal is set, always last.
pub open spec fn spec_job_actions(subscribe_ok: bool, obs: Seq<Observation>) -> Seq<Action> {
    if subscribe_ok {
        spec_loop_actions(obs) + seq![Action::SetCancellation]
    } else {
        seq![Action::ReportSubscribeFailure, Action::SetCancellation]
    }
}

/// Runs the background job over the outcome of opening the real subscription
/// and the sequence of observations its wait produces, returning the actions
/// it performs in order.
pub fn run_job(subscribe_ok: bool, observations: &Vec<Observation>) -> (r: Vec<Action>)
    ensures
        r@ == spec_job_actions(subscribe_ok, observations@),
{
    let mut r: Vec<Action> = Vec::new();
    if !subscribe_ok {
        r.push(Action::ReportSubscribeFailure);
        r.push(Action::SetCancellation);
        proof {
            assert(r@ =~= spec_job_actions(false, observations@));
        }
        return r;
    }
    let n: usize = observations.len();
    let mut i: usize = 0;
    let mut stopped: bool = false;
    proof {
        assert(observations@.skip(0) =~= observations@);
        assert(r@ + spec_loop_actions(observations@) =~= spec_loop_actions(observations@));
    }
    while i < n
        invariant
            n == observations@.len(),
            i <= n,
            stopped ==> i == n,
            stopped ==> r@ == spec_loop_actions(observations@),
            !stopped ==> r@ + spec_loop_actions(observations@.skip(i as int)) == spec_loop_actions(
                observations@,
            ),
        decreases n - i,
    {
        let ob = observations[i];
        match ob {
            Observation::Header { input } => {
                let mut cycle = cycle_actions(&input);
                proof {
                    assert(observations@.skip(i as int)[0] == observations@[i as int]);
                    assert(observations@.skip(i as int).drop_first() =~= observations@.skip(
                        i as int + 1,
                    ));
                    assert(r@ + (spec_cycle_actions(input) + spec_loop_actions(
                        observations@.skip(i as int + 1),
                    )) =~= (r@ + spec_cycle_actions(input)) + spec_loop_actions(
                        observations@.skip(i as int + 1),
                    ));
                }
                r.append(&mut cycle);
                i = i + 1;
            }
            _ => {
                proof {
                    assert(observations@.skip(i as int)[0] == observations@[i as int]);
                    assert(spec_loop_actions(observations@.skip(i as int))
                        =~= Seq::<Action>::empty());
                    assert(r@ + Seq::<Action>::empty() =~= r@);
                }
                stopped = true;
                i = n;
            }
        }
    }
    proof {
        if !stopped {
            assert(observations@.skip(n as int) =~= Seq::<Observation>::empty());
            assert(r@ + Seq::<Action>::empty() =~= r@);
        }
    }
    r.push(Action::SetCancellation);
    proof {
        assert(r@ =~= spec_loop_actions(observations@) + seq![Action::SetCancellation]);
    }
    r
}

/// The job end to end: the fail-fast bootstrap followed, only on success, by
/// the spawned background loop. A bootstrap failure is returned to the
/// caller and no job runs: no trace exists and no synchronization call ever
/// occurs.
pub fn spawn_clean_orderpool_job(
    connect_ok: bool,
    trial_subscribe_ok: bool,
    subscribe_ok: bool,
    observations: &Vec<Observation>,
) -> (r: Result<Vec<Action>, BootstrapError>)
    ensures
        r is Ok <==> spec_bootstrap_ok(connect_ok, trial_subscribe_ok),
        !connect_ok ==> (r matches Err(e) && e == BootstrapError::ConnectFailed),
        connect_ok && !trial_subscribe_ok ==> (r matches Err(e) && e
            == BootstrapError::TrialSubscribeFailed),
        r matches Ok(t) ==> t@ == spec_job_actions(subscribe_ok, observations@),
{
    match bootstrap_decision(connect_ok, trial_subscribe_ok) {
        Ok(()) => Ok(run_job(subscribe_ok, observations)),
        Err(e) => Err(e),
    }
}

} // verus!

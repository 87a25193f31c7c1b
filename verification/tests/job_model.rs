use clean_orderpool::cycle::{block_number_of, cycle_actions, cycle_decision, CycleDecision};
use clean_orderpool::events::{
    Action, CycleInput, FetchOutcome, HeaderEvent, Observation, PoolCounts,
};
use clean_orderpool::job::{bootstrap_decision, run_job, spawn_clean_orderpool_job, BootstrapError};

fn header(block: u64, snapshot: u64, tx: u64, bundles: u64) -> Observation {
    Observation::Header {
        input: CycleInput {
            event: HeaderEvent {
                block_number: Some(block),
            },
            fetch: FetchOutcome::Success { snapshot },
            counts: PoolCounts {
                tx_count: tx,
                bundle_count: bundles,
            },
        },
    }
}

fn failed_header(block: u64) -> Observation {
    Observation::Header {
        input: CycleInput {
            event: HeaderEvent {
                block_number: Some(block),
            },
            fetch: FetchOutcome::Failure,
            counts: PoolCounts {
                tx_count: 0,
                bundle_count: 0,
            },
        },
    }
}

fn cancellations(trace: &[Action]) -> usize {
    trace
        .iter()
        .filter(|a| matches!(a, Action::SetCancellation))
        .count()
}

#[test]
fn three_blocks_processed_in_order() {
    let obs = vec![
        header(100, 1000, 5, 2),
        header(101, 1001, 6, 3),
        header(102, 1002, 7, 4),
    ];
    let trace = run_job(true, &obs);
    let expected = vec![
        Action::SetCurrentBlock { block_number: 100 },
        Action::Synchronize {
            block_number: 100,
            snapshot: 1000,
        },
        Action::EmitCounts {
            tx_count: 5,
            bundle_count: 2,
        },
        Action::SetCurrentBlock { block_number: 101 },
        Action::Synchronize {
            block_number: 101,
            snapshot: 1001,
        },
        Action::EmitCounts {
            tx_count: 6,
            bundle_count: 3,
        },
        Action::SetCurrentBlock { block_number: 102 },
        Action::Synchronize {
            block_number: 102,
            snapshot: 1002,
        },
        Action::EmitCounts {
            tx_count: 7,
            bundle_count: 4,
        },
        Action::SetCancellation,
    ];
    assert_eq!(trace, expected);
}

#[test]
fn fetch_failure_skips_single_block() {
    let obs = vec![
        header(100, 1000, 5, 2),
        failed_header(101),
        header(102, 1002, 7, 4),
    ];
    let trace = run_job(true, &obs);
    let expected = vec![
        Action::SetCurrentBlock { block_number: 100 },
        Action::Synchronize {
            block_number: 100,
            snapshot: 1000,
        },
        Action::EmitCounts {
            tx_count: 5,
            bundle_count: 2,
        },
        Action::SetCurrentBlock { block_number: 101 },
        Action::ReportFetchFailure { block_number: 101 },
        Action::SetCurrentBlock { block_number: 102 },
        Action::Synchronize {
            block_number: 102,
            snapshot: 1002,
        },
        Action::EmitCounts {
            tx_count: 7,
            bundle_count: 4,
        },
        Action::SetCancellation,
    ];
    assert_eq!(trace, expected);
}

#[test]
fn missing_block_number_defaults_to_zero() {
    let event = HeaderEvent { block_number: None };
    assert_eq!(block_number_of(&event), 0);
    let obs = vec![Observation::Header {
        input: CycleInput {
            event,
            fetch: FetchOutcome::Success { snapshot: 9 },
            counts: PoolCounts {
                tx_count: 1,
                bundle_count: 0,
            },
        },
    }];
    let trace = run_job(true, &obs);
    let expected = vec![
        Action::SetCurrentBlock { block_number: 0 },
        Action::Synchronize {
            block_number: 0,
            snapshot: 9,
        },
        Action::EmitCounts {
            tx_count: 1,
            bundle_count: 0,
        },
        Action::SetCancellation,
    ];
    assert_eq!(trace, expected);
}

#[test]
fn subscription_failure_escalates_without_processing() {
    let obs = vec![header(100, 1000, 5, 2), header(101, 1001, 6, 3)];
    let trace = run_job(false, &obs);
    let expected = vec![Action::ReportSubscribeFailure, Action::SetCancellation];
    assert_eq!(trace, expected);
}

#[test]
fn cancellation_stops_processing_buffered_events() {
    let obs = vec![
        header(100, 1000, 5, 2),
        Observation::CancelObserved,
        header(101, 1001, 6, 3),
    ];
    let trace = run_job(true, &obs);
    let expected = vec![
        Action::SetCurrentBlock { block_number: 100 },
        Action::Synchronize {
            block_number: 100,
            snapshot: 1000,
        },
        Action::EmitCounts {
            tx_count: 5,
            bundle_count: 2,
        },
        Action::SetCancellation,
    ];
    assert_eq!(trace, expected);
    assert!(!trace
        .iter()
        .any(|a| matches!(a, Action::Synchronize { block_number: 101, .. })));
}

#[test]
fn stream_exhaustion_ends_loop() {
    let obs = vec![
        header(100, 1000, 5, 2),
        Observation::Exhausted,
        header(101, 1001, 6, 3),
    ];
    let trace = run_job(true, &obs);
    let expected = vec![
        Action::SetCurrentBlock { block_number: 100 },
        Action::Synchronize {
            block_number: 100,
            snapshot: 1000,
        },
        Action::EmitCounts {
            tx_count: 5,
            bundle_count: 2,
        },
        Action::SetCancellation,
    ];
    assert_eq!(trace, expected);
}

#[test]
fn empty_stream_still_sets_cancellation() {
    let trace = run_job(true, &Vec::new());
    assert_eq!(trace, vec![Action::SetCancellation]);
}

#[test]
fn cancellation_signal_set_exactly_once_on_each_exit() {
    let exhausted = run_job(true, &vec![header(1, 2, 3, 4), Observation::Exhausted]);
    let cancelled = run_job(true, &vec![Observation::CancelObserved]);
    let failed = run_job(false, &vec![header(1, 2, 3, 4)]);
    let ran_out = run_job(true, &vec![header(1, 2, 3, 4), failed_header(2)]);
    for trace in [exhausted, cancelled, failed, ran_out] {
        assert_eq!(cancellations(&trace), 1);
        assert_eq!(trace.last(), Some(&Action::SetCancellation));
    }
}

#[test]
fn bootstrap_fails_fast_on_connection() {
    assert_eq!(
        bootstrap_decision(false, false),
        Err(BootstrapError::ConnectFailed)
    );
    assert_eq!(
        bootstrap_decision(false, true),
        Err(BootstrapError::ConnectFailed)
    );
}

#[test]
fn bootstrap_fails_fast_on_trial_subscription() {
    assert_eq!(
        bootstrap_decision(true, false),
        Err(BootstrapError::TrialSubscribeFailed)
    );
    assert_eq!(bootstrap_decision(true, true), Ok(()));
    let r = spawn_clean_orderpool_job(true, false, true, &vec![header(100, 1000, 5, 2)]);
    assert_eq!(r, Err(BootstrapError::TrialSubscribeFailed));
}

#[test]
fn spawn_runs_job_after_successful_bootstrap() {
    let obs = vec![header(100, 1000, 5, 2)];
    let r = spawn_clean_orderpool_job(true, true, true, &obs);
    assert_eq!(r, Ok(run_job(true, &obs)));
}

#[test]
fn cycle_decision_skips_on_fetch_failure() {
    let event = HeaderEvent {
        block_number: Some(7),
    };
    assert_eq!(
        cycle_decision(&event, false),
        CycleDecision::Skip { block_number: 7 }
    );
    assert_eq!(
        cycle_decision(&event, true),
        CycleDecision::Synchronize { block_number: 7 }
    );
}

#[test]
fn cycle_actions_cover_both_outcomes() {
    let ok = CycleInput {
        event: HeaderEvent {
            block_number: Some(42),
        },
        fetch: FetchOutcome::Success { snapshot: 17 },
        counts: PoolCounts {
            tx_count: 8,
            bundle_count: 1,
        },
    };
    assert_eq!(
        cycle_actions(&ok),
        vec![
            Action::SetCurrentBlock { block_number: 42 },
            Action::Synchronize {
                block_number: 42,
                snapshot: 17,
            },
            Action::EmitCounts {
                tx_count: 8,
                bundle_count: 1,
            },
        ]
    );
    let bad = CycleInput {
        event: HeaderEvent {
            block_number: Some(42),
        },
        fetch: FetchOutcome::Failure,
        counts: PoolCounts {
            tx_count: 8,
            bundle_count: 1,
        },
    };
    assert_eq!(
        cycle_actions(&bad),
        vec![
            Action::SetCurrentBlock { block_number: 42 },
            Action::ReportFetchFailure { block_number: 42 },
        ]
    );
}

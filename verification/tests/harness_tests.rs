use seal_lifecycle::config::ApiVersion;
use seal_lifecycle::harness::{
    any_failed, next_run, RunSpec, WorkerOutcome, ARBITRARY_POREP_ID_V1_0_0,
    ARBITRARY_POREP_ID_V1_1_0, NUM_THREADS_DEFAULT, RUNS_PER_WORKER,
};

#[test]
fn protocol_identifiers_of_the_two_epochs() {
    assert_eq!(ARBITRARY_POREP_ID_V1_0_0, [127u8; 32]);
    assert_eq!(ARBITRARY_POREP_ID_V1_1_0, [128u8; 32]);
    assert_eq!(NUM_THREADS_DEFAULT, 1);
}

#[test]
fn worker_runs_the_later_epoch_first() {
    assert_eq!(
        next_run(0),
        Some(RunSpec {
            sector_size: 32768,
            porep_id: [128u8; 32],
            api_version: ApiVersion::V1_1_0,
        })
    );
    assert_eq!(
        next_run(1),
        Some(RunSpec {
            sector_size: 32768,
            porep_id: [127u8; 32],
            api_version: ApiVersion::V1_0_0,
        })
    );
}

#[test]
fn worker_stops_after_two_runs() {
    assert_eq!(RUNS_PER_WORKER, 2);
    assert_eq!(next_run(2), None);
    assert_eq!(next_run(3), None);
    assert_eq!(next_run(usize::MAX), None);
}

#[test]
fn run_with_no_worker_has_not_failed() {
    assert!(!any_failed(&Vec::new()));
}

#[test]
fn run_fails_with_any_worker() {
    let ok = WorkerOutcome::Succeeded;
    let failed = WorkerOutcome::Failed;
    let panicked = WorkerOutcome::Panicked;
    assert!(!any_failed(&vec![ok]));
    assert!(!any_failed(&vec![ok, ok, ok]));
    assert!(any_failed(&vec![failed]));
    assert!(any_failed(&vec![panicked]));
    assert!(any_failed(&vec![ok, ok, failed]));
    assert!(any_failed(&vec![panicked, ok, ok]));
    assert!(any_failed(&vec![ok, failed, ok]));
}

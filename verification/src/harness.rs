//! The work of the harness's threads, and the verdict on what they return.

use crate::config::{ApiVersion, SECTOR_SIZE_32_KIB};
use crate::piece::Digest;
use vstd::prelude::*;

verus! {

/// Protocol identifier that the harness uses with the first protocol epoch.
pub const ARBITRARY_POREP_ID_V1_0_0: [u8; 32] = [
    127, 127, 127, 127, 127, 127, 127, 127, 127, 127, 127, 127, 127, 127, 127, 127,
    127, 127, 127, 127, 127, 127, 127, 127, 127, 127, 127, 127, 127, 127, 127, 127,
];

/// Protocol identifier that the harness uses with the second protocol epoch.
pub const ARBITRARY_POREP_ID_V1_1_0: [u8; 32] = [
    128, 128, 128, 128, 128, 128, 128, 128, 128, 128, 128, 128, 128, 128, 128, 128,
    128, 128, 128, 128, 128, 128, 128, 128, 128, 128, 128, 128, 128, 128, 128, 128,
];

/// Number of threads where none is asked for.
pub const NUM_THREADS_DEFAULT: usize = 1;

/// Number of lifecycles that each thread runs.
pub const RUNS_PER_WORKER: usize = 2;

/// One lifecycle that a worker is to run.
#[derive(Clone, Copy, Debug, PartialEq, Eq)]
pub struct RunSpec {
    pub sector_size: u64,
    pub porep_id: Digest,
    pub api_version: ApiVersion,
}

/// How one worker ended.
#[derive(Clone, Copy, Debug, PartialEq, Eq, Structural)]
pub enum WorkerOutcome {
    /// Every lifecycle of the worker ran to its end.
    Succeeded,
    /// A lifecycle returned an error, and the worker returned it.
    Failed,
    /// The worker's thread ended abnormally.
    Panicked,
}

/// The lifecycles of one worker, in the order in which it runs them: the
/// later protocol epoch first, then the earlier one, both on the smallest
/// two-level sector.
pub open spec fn worker_plan() -> Seq<RunSpec> {
    seq![
        RunSpec {
            sector_size: SECTOR_SIZE_32_KIB,
            porep_id: ARBITRARY_POREP_ID_V1_1_0,
            api_version: ApiVersion::V1_1_0,
        },
        RunSpec {
            sector_size: SECTOR_SIZE_32_KIB,
            porep_id: ARBITRARY_POREP_ID_V1_0_0,
            api_version: ApiVersion::V1_0_0,
        },
    ]
}

/// What a worker does once `finished` of its lifecycles have run to their
/// end: the next lifecycle of [`worker_plan`], or nothing when all are done.
/// A worker whose lifecycle fails asks for no further one.
pub fn next_run(finished: usize) -> (next: Option<RunSpec>)
    ensures
        next == if finished < worker_plan().len() {
            Some(worker_plan()[finished as int])
        } else {
            None
        },
        worker_plan().len() == RUNS_PER_WORKER,
{
    if finished == 0 {
        Some(
            RunSpec {
                sector_size: SECTOR_SIZE_32_KIB,
                porep_id: ARBITRARY_POREP_ID_V1_1_0,
                api_version: ApiVersion::V1_1_0,
            },
        )
    } else if finished == 1 {
        Some(
            RunSpec {
                sector_size: SECTOR_SIZE_32_KIB,
                porep_id: ARBITRARY_POREP_ID_V1_0_0,
                api_version: ApiVersion::V1_0_0,
            },
        )
    } else {
        None
    }
}

/// Whether a run of the harness has failed: it has if any of its workers
/// returned an error or ended abnormally.
pub open spec fn run_failed(outcomes: Seq<WorkerOutcome>) -> bool {
    exists|i: int| 0 <= i < outcomes.len() && outcomes[i] != WorkerOutcome::Succeeded
}

/// Judges a run of the harness by the outcomes of its workers.
pub fn any_failed(outcomes: &Vec<WorkerOutcome>) -> (failed: bool)
    ensures
        failed == run_failed(outcomes@),
{
    let mut i: usize = 0;
    while i < outcomes.len()
        invariant
            i <= outcomes@.len(),
            forall|j: int| 0 <= j < i ==> outcomes@[j] == WorkerOutcome::Succeeded,
        decreases outcomes@.len() - i,
    {
        if outcomes[i] != WorkerOutcome::Succeeded {
            return true;
        }
        i = i + 1;
    }
    false
}

} // verus!

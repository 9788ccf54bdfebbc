//! What holds of whole runs of a lifecycle.
//!
//! A run is a lifecycle's initial state together with the events that its
//! caller reports, in order. The state after the first `k` events is
//! [`state_at`]; the operation that the caller is asked for at that point is
//! `pending(state_at(..))`, and the event that answers it is `events[k]`.
//!
//! The proving library is not part of this crate, so nothing here says that
//! it seals correctly. The laws say what the lifecycle makes of its answers:
//! in which order it asks, and which answers it takes for a success.

use crate::piece::{
    data_commitment, is_zero_digest, lemma_capacity_bounded, piece_range, PieceInfo,
};
use crate::pipeline::{
    advance, pending, ActionView, EventView, LifecycleResult, LifecycleState, Phase,
    PreCommitOutput,
};
use crate::driver::harness_session;
use crate::session::{numbered, SessionIds};
use vstd::prelude::*;

verus! {

/// The state that `s` is taken to by `events`, reported in order.
pub open spec fn run(s: LifecycleState, events: Seq<EventView>) -> LifecycleState
    decreases events.len(),
{
    if events.len() == 0 {
        s
    } else {
        advance(run(s, events.drop_last()), events.last())
    }
}

/// The state after the first `k` of `events`.
pub open spec fn state_at(s: LifecycleState, events: Seq<EventView>, k: int) -> LifecycleState {
    run(s, events.take(k))
}

/// Whether `s` is a state in which a lifecycle may begin.
pub open spec fn starts(s: LifecycleState) -> bool {
    &&& s.wf()
    &&& s == LifecycleState::initial(s.config, s.ids, s.piece, s.range, s.skip_proof)
}

/// The phase that a lifecycle is in after `k` events, none of which made
/// it halt.
pub open spec fn phase_at(k: int, skip_proof: bool) -> Phase {
    if k <= 0 {
        Phase::Init
    } else if k == 1 {
        Phase::PieceCommitted
    } else if k == 2 {
        Phase::PieceStaged
    } else if k == 3 {
        Phase::PreCommit1
    } else if k == 4 {
        Phase::PreCommit1Validated
    } else if k == 5 {
        Phase::PreCommit2
    } else if k == 6 {
        Phase::PreCommit2Validated
    } else if skip_proof {
        if k == 7 {
            Phase::ProofSkipped
        } else {
            Phase::Terminal
        }
    } else if k == 7 {
        Phase::Commit1
    } else if k == 8 {
        Phase::CacheCleared
    } else if k == 9 {
        Phase::Commit2
    } else if k == 10 {
        Phase::Unsealed
    } else if k == 11 {
        Phase::Verified
    } else {
        Phase::Terminal
    }
}

/// Whether an operation belongs to the proving half of the lifecycle.
pub open spec fn is_proving(action: ActionView) -> bool {
    action is CommitPhase1 || action is CommitPhase2 || action is UnsealRange
        || action is VerifySeal
}

/// The phase that follows `phase` where its guard holds.
pub open spec fn successor(phase: Phase, skip_proof: bool) -> Phase {
    match phase {
        Phase::Init => Phase::PieceCommitted,
        Phase::PieceCommitted => Phase::PieceStaged,
        Phase::PieceStaged => Phase::PreCommit1,
        Phase::PreCommit1 => Phase::PreCommit1Validated,
        Phase::PreCommit1Validated => Phase::PreCommit2,
        Phase::PreCommit2 => Phase::PreCommit2Validated,
        Phase::PreCommit2Validated => if skip_proof {
            Phase::ProofSkipped
        } else {
            Phase::Commit1
        },
        Phase::ProofSkipped => Phase::Terminal,
        Phase::Commit1 => Phase::CacheCleared,
        Phase::CacheCleared => Phase::Commit2,
        Phase::Commit2 => Phase::Unsealed,
        Phase::Unsealed => Phase::Verified,
        Phase::Verified => Phase::Terminal,
        Phase::Terminal => Phase::Terminal,
    }
}

/// One more event takes the run one step further.
pub proof fn lemma_state_at_step(s: LifecycleState, events: Seq<EventView>, k: int)
    requires
        0 <= k < events.len(),
    ensures
        state_at(s, events, k + 1) == advance(state_at(s, events, k), events[k]),
{
    assert(events.take(k + 1).drop_last() =~= events.take(k));
}

/// A run begins in its initial state and ends in its last.
pub proof fn lemma_state_at_ends(s: LifecycleState, events: Seq<EventView>)
    ensures
        state_at(s, events, 0) == s,
        state_at(s, events, events.len() as int) == run(s, events),
{
    assert(events.take(events.len() as int) =~= events);
}

/// A run may be cut in two at any point.
pub proof fn lemma_run_split(s: LifecycleState, first: Seq<EventView>, rest: Seq<EventView>)
    ensures
        run(s, first + rest) == run(run(s, first), rest),
    decreases rest.len(),
{
    if rest.len() == 0 {
        assert(first + rest =~= first);
    } else {
        lemma_run_split(s, first, rest.drop_last());
        assert((first + rest).drop_last() =~= first + rest.drop_last());
    }
}

/// No event moves a lifecycle that has halted.
pub proof fn lemma_halted_stays(s: LifecycleState, events: Seq<EventView>)
    requires
        s.halted(),
    ensures
        run(s, events) == s,
    decreases events.len(),
{
    if events.len() > 0 {
        lemma_halted_stays(s, events.drop_last());
    }
}

/// A run that ends without a failure has met none on its way.
pub proof fn lemma_no_failure_before(s: LifecycleState, events: Seq<EventView>, k: int)
    requires
        0 <= k <= events.len(),
        run(s, events).failure is None,
    ensures
        state_at(s, events, k).failure is None,
{
    assert(events.take(k) + events.skip(k) =~= events);
    lemma_run_split(s, events.take(k), events.skip(k));
    if state_at(s, events, k).failure is Some {
        lemma_halted_stays(state_at(s, events, k), events.skip(k));
    }
}

/// Every step keeps a lifecycle well-formed.
pub proof fn law_wf_preserved(s: LifecycleState, e: EventView)
    requires
        s.wf(),
    ensures
        advance(s, e).wf(),
{
    lemma_capacity_bounded(s.config.sector_size as nat);
}

/// Every run keeps a lifecycle well-formed.
pub proof fn law_run_wf(s: LifecycleState, events: Seq<EventView>)
    requires
        s.wf(),
    ensures
        run(s, events).wf(),
    decreases events.len(),
{
    if events.len() > 0 {
        law_run_wf(s, events.drop_last());
        law_wf_preserved(run(s, events.drop_last()), events.last());
    }
}

/// A step changes nothing of what a lifecycle was started with.
pub proof fn law_session_fixed(s: LifecycleState, events: Seq<EventView>)
    ensures
        run(s, events).config == s.config,
        run(s, events).ids == s.ids,
        run(s, events).skip_proof == s.skip_proof,
        run(s, events).range == s.range,
        run(s, events).piece == s.piece,
    decreases events.len(),
{
    if events.len() > 0 {
        law_session_fixed(s, events.drop_last());
    }
}

/// Phases are entered in order, none is skipped and none is entered again:
/// a step of a running lifecycle either halts it in the phase it is in or
/// takes it to that phase's one successor, which ranks above it.
pub proof fn law_phase_order(s: LifecycleState, e: EventView)
    requires
        !s.halted(),
    ensures
        ({
            let next = advance(s, e);
            if next.failure is Some {
                next == s.fail(next.failure->Some_0)
            } else {
                &&& next.phase == successor(s.phase, s.skip_proof)
                &&& next.phase.rank() > s.phase.rank()
            }
        }),
{
}

/// The second pre-commit phase is asked for only in answer to a cache
/// validation that succeeded, and the first commit phase likewise: if a
/// step leads to a state that asks for one of them, the state before asked
/// for the phase's validation gate, and the event reported its success.
pub proof fn law_gate_before_phase(s: LifecycleState, e: EventView)
    ensures
        pending(advance(s, e)) is PreCommitPhase2 ==> pending(s) is ValidatePreCommitCache && e
            is Done,
        pending(advance(s, e)) is CommitPhase1 ==> pending(s) is ValidateCommitCache && e is Done,
{
}

/// In a run from an initial state, wherever the second pre-commit phase is
/// asked for, the operation asked for just before was the validation of the
/// cache for that phase, and it was reported to have succeeded. The same
/// holds of the first commit phase and the validation of the cache for the
/// commit.
pub proof fn law_gate_ordering(init: LifecycleState, events: Seq<EventView>, k: int)
    requires
        init.phase == Phase::Init,
        0 <= k <= events.len(),
        pending(state_at(init, events, k)) is PreCommitPhase2 || pending(
            state_at(init, events, k),
        ) is CommitPhase1,
    ensures
        k >= 1,
        events[k - 1] is Done,
        pending(state_at(init, events, k)) is PreCommitPhase2 ==> pending(
            state_at(init, events, k - 1),
        ) is ValidatePreCommitCache,
        pending(state_at(init, events, k)) is CommitPhase1 ==> pending(
            state_at(init, events, k - 1),
        ) is ValidateCommitCache,
{
    lemma_state_at_ends(init, events);
    if k >= 1 {
        lemma_state_at_step(init, events, k - 1);
        law_gate_before_phase(state_at(init, events, k - 1), events[k - 1]);
    }
}

/// A run that has not met a failure after `k` events is in the `k`-th phase
/// of its path.
pub proof fn lemma_on_path(init: LifecycleState, events: Seq<EventView>, k: int)
    requires
        starts(init),
        0 <= k <= events.len(),
        state_at(init, events, k).failure is None,
    ensures
        state_at(init, events, k).phase == phase_at(k, init.skip_proof),
        state_at(init, events, k).wf(),
        state_at(init, events, k).config == init.config,
        state_at(init, events, k).ids == init.ids,
        state_at(init, events, k).skip_proof == init.skip_proof,
        state_at(init, events, k).range == init.range,
        state_at(init, events, k).piece == init.piece,
    decreases k,
{
    law_session_fixed(init, events.take(k));
    law_run_wf(init, events.take(k));
    lemma_state_at_ends(init, events);
    if k > 0 {
        lemma_state_at_step(init, events, k - 1);
        let before = state_at(init, events, k - 1);
        assert(before.failure is None);
        lemma_on_path(init, events, k - 1);
    }
}

/// A lifecycle that skips the proof never asks for the first or the second
/// commit phase, for unsealing or for verification, whatever its caller
/// reports.
pub proof fn law_skip_asks_for_no_proof(init: LifecycleState, events: Seq<EventView>, k: int)
    requires
        starts(init),
        init.skip_proof,
        0 <= k <= events.len(),
    ensures
        !is_proving(pending(state_at(init, events, k))),
{
    law_run_wf(init, events.take(k));
    law_session_fixed(init, events.take(k));
}

/// A lifecycle that skips the proof and runs to its end has taken eight
/// events to get there: the piece was written, committed with a commitment
/// that is not all zero, and staged; the first pre-commit phase ran and its
/// cache was validated; the second returned the sector's commitments, and
/// the cache was validated for the commit and then cleared. The lifecycle's
/// result is the session's sector number with the commitment that the second
/// pre-commit phase returned.
pub proof fn law_skipped_run(init: LifecycleState, events: Seq<EventView>)
    requires
        starts(init),
        init.skip_proof,
        run(init, events).completed(),
    ensures
        events.len() >= 8,
        events[0] is Done,
        events[1] is PieceCommitted && !is_zero_digest(events[1]->commitment),
        events[2] is Done && events[3] is Done && events[4] is Done,
        events[5] is PreCommitted,
        events[6] is Done,
        pending(state_at(init, events, 7)) is ClearCache,
        events[7] is Done,
        state_at(init, events, 8).completed(),
        run(init, events).result() == Some(
            LifecycleResult { sector_id: init.ids.sector_id, comm_r: events[5]->comm_r },
        ),
{
    lemma_run_sealed(init, events);
    lemma_run_settles(init, events, 8);
}

/// A lifecycle that makes its proof and runs to its end has taken twelve
/// events to get there. The first seven are those of a lifecycle that skips
/// the proof. Then the first commit phase ran, the cache was cleared, and
/// the second commit phase returned a proof. Unsealing returned exactly the
/// bytes of the piece that lie in the range asked for; the data commitment
/// recomputed from the sector's one piece is the one that sealing returned;
/// and the verifier, asked about that proof and those commitments,
/// accepted.
pub proof fn law_proved_run(init: LifecycleState, events: Seq<EventView>)
    requires
        starts(init),
        !init.skip_proof,
        run(init, events).completed(),
    ensures
        events.len() >= 12,
        events[0] is Done,
        events[1] is PieceCommitted && !is_zero_digest(events[1]->commitment),
        events[2] is Done && events[3] is Done && events[4] is Done,
        events[5] is PreCommitted,
        events[6] is Done && events[7] is Done && events[8] is Done,
        events[9] is Proved,
        events[10] is Unsealed,
        piece_range(init.piece, init.range) == Some(events[10]->contents),
        data_commitment(
            init.config.sector_size,
            seq![
                PieceInfo { commitment: events[1]->commitment, size: init.piece.len() as u64 },
            ],
        ) == Some(events[5]->comm_d),
        pending(state_at(init, events, 11)) == (ActionView::VerifySeal {
            config: init.config,
            comm_r: events[5]->comm_r,
            comm_d: events[5]->comm_d,
            prover_id: init.ids.prover_id,
            sector_id: init.ids.sector_id,
            ticket: init.ids.ticket,
            seed: init.ids.seed,
            proof_bytes: events[9]->proof_bytes,
        }),
        events[11] == (EventView::Verified { valid: true }),
        state_at(init, events, 12).completed(),
        run(init, events).result() == Some(
            LifecycleResult { sector_id: init.ids.sector_id, comm_r: events[5]->comm_r },
        ),
{
    lemma_run_sealed(init, events);
    lemma_run_step(init, events, 8);
    lemma_run_step(init, events, 9);
    lemma_run_step(init, events, 10);
    lemma_run_step(init, events, 11);
    lemma_run_settles(init, events, 12);
}

/// The cache is cleared exactly once in a lifecycle that runs to its end.
/// Where the proof is skipped, clearing is the last operation. Otherwise it
/// is asked for right after the first commit phase and right before the
/// second.
pub proof fn law_cache_cleared_once(init: LifecycleState, events: Seq<EventView>, k: int)
    requires
        starts(init),
        run(init, events).completed(),
        0 <= k <= events.len(),
    ensures
        pending(state_at(init, events, k)) is ClearCache <==> k == (if init.skip_proof {
            7int
        } else {
            8int
        }),
        !init.skip_proof ==> events.len() >= 9 && pending(state_at(init, events, 7))
            is CommitPhase1 && pending(state_at(init, events, 9)) is CommitPhase2,
{
    lemma_no_failure_before(init, events, k);
    lemma_on_path(init, events, k);
    if !init.skip_proof {
        lemma_run_step(init, events, 8);
        lemma_no_failure_before(init, events, 7);
        lemma_on_path(init, events, 7);
        lemma_no_failure_before(init, events, 9);
        lemma_on_path(init, events, 9);
    }
}

/// Lifecycles with different run numbers seal different sectors, whatever
/// session they are numbered from, and so also where every one of them
/// draws the same session from a generator that starts from the same seed.
/// Nothing else of the session depends on the run.
pub proof fn law_runs_seal_distinct_sectors(drawn: SessionIds, first: u64, second: u64)
    requires
        first != second,
    ensures
        numbered(drawn, first).sector_id != numbered(drawn, second).sector_id,
        numbered(drawn, first).prover_id == numbered(drawn, second).prover_id,
        numbered(drawn, first).ticket == numbered(drawn, second).ticket,
        numbered(drawn, first).seed == numbered(drawn, second).seed,
{
}

/// Two lifecycles of the harness that are given different run numbers
/// seal different sectors, for the same prover.
pub proof fn law_harness_runs_seal_distinct_sectors(first: u64, second: u64)
    requires
        first != second,
    ensures
        harness_session(first).sector_id != harness_session(second).sector_id,
        harness_session(first).prover_id == harness_session(second).prover_id,
{
}

/// The length of a run that reaches its end.
pub open spec fn run_length(skip_proof: bool) -> int {
    if skip_proof {
        8
    } else {
        12
    }
}

/// Once a lifecycle has run to its end, further events change nothing.
proof fn lemma_run_settles(init: LifecycleState, events: Seq<EventView>, k: int)
    requires
        0 <= k <= events.len(),
        state_at(init, events, k).halted(),
    ensures
        run(init, events) == state_at(init, events, k),
{
    assert(events.take(k) + events.skip(k) =~= events);
    lemma_run_split(init, events.take(k), events.skip(k));
    lemma_halted_stays(state_at(init, events, k), events.skip(k));
}

/// One step of a run that reaches its end: the run is long enough to hold
/// it, the states on both sides of it are free of failure and in the phases
/// of their positions, and the step takes the one to the other.
proof fn lemma_run_step(init: LifecycleState, events: Seq<EventView>, k: int)
    requires
        starts(init),
        run(init, events).completed(),
        0 <= k < run_length(init.skip_proof),
    ensures
        k < events.len(),
        state_at(init, events, k + 1) == advance(state_at(init, events, k), events[k]),
        state_at(init, events, k).failure is None,
        state_at(init, events, k).phase == phase_at(k, init.skip_proof),
        state_at(init, events, k).wf(),
        state_at(init, events, k).config == init.config,
        state_at(init, events, k).ids == init.ids,
        state_at(init, events, k).skip_proof == init.skip_proof,
        state_at(init, events, k).range == init.range,
        state_at(init, events, k).piece == init.piece,
        state_at(init, events, k + 1).failure is None,
        state_at(init, events, k + 1).phase == phase_at(k + 1, init.skip_proof),
{
    let n = events.len() as int;
    lemma_state_at_ends(init, events);
    lemma_no_failure_before(init, events, n);
    lemma_on_path(init, events, n);
    assert(n >= run_length(init.skip_proof));
    lemma_state_at_step(init, events, k);
    lemma_no_failure_before(init, events, k);
    lemma_on_path(init, events, k);
    lemma_no_failure_before(init, events, k + 1);
    lemma_on_path(init, events, k + 1);
}

/// The first seven steps of a run that reaches its end, which are the same
/// whether the proof is skipped or not.
proof fn lemma_run_sealed(init: LifecycleState, events: Seq<EventView>)
    requires
        starts(init),
        run(init, events).completed(),
    ensures
        events.len() >= 8,
        events[0] is Done,
        events[1] is PieceCommitted && !is_zero_digest(events[1]->commitment),
        events[2] is Done && events[3] is Done && events[4] is Done,
        events[5] is PreCommitted,
        events[6] is Done,
        events[7] is Done,
        state_at(init, events, 7).failure is None,
        state_at(init, events, 7).phase == phase_at(7, init.skip_proof),
        state_at(init, events, 8) == state_at(init, events, 7).enter(
            phase_at(8, init.skip_proof),
        ),
        state_at(init, events, 7).config == init.config,
        state_at(init, events, 7).ids == init.ids,
        state_at(init, events, 7).skip_proof == init.skip_proof,
        state_at(init, events, 7).range == init.range,
        state_at(init, events, 7).piece == init.piece,
        state_at(init, events, 7).pieces == seq![
            PieceInfo { commitment: events[1]->commitment, size: init.piece.len() as u64 },
        ],
        state_at(init, events, 7).pre_commit == Some(
            PreCommitOutput { comm_r: events[5]->comm_r, comm_d: events[5]->comm_d },
        ),
{
    lemma_run_step(init, events, 0);
    lemma_run_step(init, events, 1);
    lemma_run_step(init, events, 2);
    lemma_run_step(init, events, 3);
    lemma_run_step(init, events, 4);
    lemma_run_step(init, events, 5);
    lemma_run_step(init, events, 6);
    lemma_run_step(init, events, 7);
}

} // verus!

//! The sealing lifecycle as a state machine.
//!
//! A [`Lifecycle`] is always in one [`Phase`]. Each phase has one operation
//! that the proving library must perform, its [`Action`], which
//! [`Lifecycle::pending`] hands out. The caller performs it and reports what
//! came of it as an [`Event`]. [`Lifecycle::advance`] checks the phase's
//! guard against the event and enters the next phase, or halts with a
//! [`Failure`].
//!
//! The machine is defined once, on mathematical values, by [`pending`] and
//! [`advance`]. The executable methods are proved to compute them.

use crate::config::SealConfig;
use crate::piece::{
    convertible, copy_of, data_commitment, digest_eq, digest_is_zero, is_zero_digest,
    lemma_capacity_bounded, lemma_padded_capacity_fits, piece_range, range_matches,
    recompute_data_commitment, unpadded_capacity, ByteRange, Digest, PieceInfo,
};
use crate::session::SessionIds;
use vstd::prelude::*;

verus! {

/// Where in the piece the harness starts to read back what it sealed.
pub const UNSEAL_OFFSET: u64 = 508;

/// How many bytes the harness reads back.
pub const UNSEAL_LENGTH: u64 = 508;

/// The phases of a lifecycle, in the only order in which they are entered.
/// A lifecycle that skips the proof leaves `PreCommit2Validated` for
/// `ProofSkipped` and ends there; any other goes on to `Commit1`.
#[derive(Clone, Copy, Debug, PartialEq, Eq, Structural)]
pub enum Phase {
    /// Identifiers are assigned; the piece is being written to scratch storage.
    Init,
    /// The piece's commitment is being computed.
    PieceCommitted,
    /// The piece is being appended to the staged sector.
    PieceStaged,
    /// The first pre-commit phase is building its artifact.
    PreCommit1,
    /// The cache is being validated for the second pre-commit phase.
    PreCommit1Validated,
    /// The second pre-commit phase is sealing the sector.
    PreCommit2,
    /// The cache is being validated for the commit phases.
    PreCommit2Validated,
    /// The cache is being cleared; no proof will be made.
    ProofSkipped,
    /// The first commit phase is building its artifact.
    Commit1,
    /// The cache is being cleared between the two commit phases.
    CacheCleared,
    /// The second commit phase is building the proof.
    Commit2,
    /// The byte range is being unsealed.
    Unsealed,
    /// The proof is being verified.
    Verified,
    /// The lifecycle is complete.
    Terminal,
}

impl Phase {
    /// Position of the phase in the order of the lifecycle.
    pub open spec fn rank(self) -> nat {
        match self {
            Phase::Init => 0,
            Phase::PieceCommitted => 1,
            Phase::PieceStaged => 2,
            Phase::PreCommit1 => 3,
            Phase::PreCommit1Validated => 4,
            Phase::PreCommit2 => 5,
            Phase::PreCommit2Validated => 6,
            Phase::ProofSkipped => 7,
            Phase::Commit1 => 8,
            Phase::CacheCleared => 9,
            Phase::Commit2 => 10,
            Phase::Unsealed => 11,
            Phase::Verified => 12,
            Phase::Terminal => 13,
        }
    }

    /// Whether the phase belongs to the proving half of the lifecycle.
    pub open spec fn proving(self) -> bool {
        self == Phase::Commit1 || self == Phase::CacheCleared || self == Phase::Commit2 || self
            == Phase::Unsealed || self == Phase::Verified
    }
}

/// Why a lifecycle halted before its end.
#[derive(Clone, Copy, Debug, PartialEq, Eq, Structural)]
pub enum Failure {
    /// The operation of the current phase reported an error. In the two
    /// validation phases this is a cache that failed validation.
    Collaborator,
    /// The event does not answer the operation of the current phase.
    Protocol,
    /// The piece's commitment came back as all zero bytes.
    EmptyCommitment,
    /// Unsealing returned another number of bytes than was asked for.
    UnsealedLength,
    /// The unsealed bytes are not the bytes of the piece.
    UnsealedBytes,
    /// The data commitment recomputed from the pieces is not the one that
    /// sealing returned.
    CommitmentMismatch,
    /// The proof did not verify.
    ProofRejected,
}

impl Failure {
    /// Whether the failure shows the proving pipeline itself to be wrong,
    /// as opposed to an error that a healthy pipeline may meet.
    pub open spec fn is_fault(self) -> bool {
        self == Failure::UnsealedLength || self == Failure::UnsealedBytes || self
            == Failure::CommitmentMismatch || self == Failure::ProofRejected
    }

    /// Tells a correctness failure from an ordinary error.
    pub fn fault(&self) -> (fault: bool)
        ensures
            fault == self.is_fault(),
    {
        match self {
            Failure::UnsealedLength => true,
            Failure::UnsealedBytes => true,
            Failure::CommitmentMismatch => true,
            Failure::ProofRejected => true,
            _ => false,
        }
    }
}

/// What the second pre-commit phase returns: the commitment to the sealed
/// sector and the commitment to its data.
#[derive(Clone, Copy, Debug, PartialEq, Eq)]
pub struct PreCommitOutput {
    pub comm_r: Digest,
    pub comm_d: Digest,
}

/// What a completed lifecycle leaves behind.
#[derive(Clone, Copy, Debug, PartialEq, Eq)]
pub struct LifecycleResult {
    pub sector_id: u64,
    pub comm_r: Digest,
}

/// How a lifecycle stands: still running, at its end with a sealed sector,
/// stopped by an error that a healthy pipeline may meet, or stopped by a
/// check that shows the pipeline itself to be wrong.
#[derive(Clone, Copy, Debug, PartialEq, Eq)]
pub enum Outcome {
    Running,
    Sealed(LifecycleResult),
    Error(Failure),
    Fault(Failure),
}

/// The outcome of an operation, as the caller reports it.
#[derive(Clone, Debug, PartialEq, Eq)]
pub enum Event {
    /// The operation succeeded and has nothing to report.
    Done,
    /// The operation reported an error.
    Failed,
    /// The piece's commitment.
    PieceCommitted { commitment: Digest },
    /// The commitments of the sealed sector.
    PreCommitted { comm_r: Digest, comm_d: Digest },
    /// The proof of the seal.
    Proved { proof_bytes: Vec<u8> },
    /// The bytes that unsealing wrote.
    Unsealed { contents: Vec<u8> },
    /// The verifier's verdict.
    Verified { valid: bool },
}

/// An [`Event`] as a mathematical value.
pub enum EventView {
    Done,
    Failed,
    PieceCommitted { commitment: Digest },
    PreCommitted { comm_r: Digest, comm_d: Digest },
    Proved { proof_bytes: Seq<u8> },
    Unsealed { contents: Seq<u8> },
    Verified { valid: bool },
}

impl View for Event {
    type V = EventView;

    open spec fn view(&self) -> EventView {
        match *self {
            Event::Done => EventView::Done,
            Event::Failed => EventView::Failed,
            Event::PieceCommitted { commitment } => EventView::PieceCommitted { commitment },
            Event::PreCommitted { comm_r, comm_d } => EventView::PreCommitted { comm_r, comm_d },
            Event::Proved { proof_bytes } => EventView::Proved { proof_bytes: proof_bytes@ },
            Event::Unsealed { contents } => EventView::Unsealed { contents: contents@ },
            Event::Verified { valid } => EventView::Verified { valid },
        }
    }
}

/// The operation that a lifecycle asks its caller to perform, with every
/// value that the operation takes. Files and directories are the caller's:
/// one piece file, one staged and one sealed sector file, one cache
/// directory and one file for unsealed bytes per lifecycle.
#[derive(Clone, Debug, PartialEq, Eq)]
pub enum Action {
    /// Write the piece to a fresh file, flush it and rewind.
    PersistPiece { bytes: Vec<u8> },
    /// Compute the commitment of the piece file, `size` bytes long.
    CommitPiece { size: u64 },
    /// Append the piece file to the staged sector, which holds pieces of
    /// the lengths `staged` already: none, for the one piece of a sector.
    AddPiece { size: u64, staged: Vec<u64> },
    /// Build the first pre-commit artifact from the staged sector.
    PreCommitPhase1 {
        config: SealConfig,
        prover_id: Digest,
        sector_id: u64,
        ticket: Digest,
        pieces: Vec<PieceInfo>,
    },
    /// Validate the cache and the staged sector against that artifact.
    ValidatePreCommitCache,
    /// Seal the sector from the artifact.
    PreCommitPhase2 { config: SealConfig },
    /// Validate the cache against the sealed sector.
    ValidateCommitCache,
    /// Clear the cache of its proving scratch state.
    ClearCache,
    /// Build the first commit artifact.
    CommitPhase1 {
        config: SealConfig,
        prover_id: Digest,
        sector_id: u64,
        ticket: Digest,
        seed: Digest,
        comm_r: Digest,
        comm_d: Digest,
        pieces: Vec<PieceInfo>,
    },
    /// Build the proof from the first commit artifact.
    CommitPhase2 { config: SealConfig, prover_id: Digest, sector_id: u64 },
    /// Unseal `range` of the sealed sector into a fresh file.
    UnsealRange {
        config: SealConfig,
        prover_id: Digest,
        sector_id: u64,
        comm_d: Digest,
        ticket: Digest,
        range: ByteRange,
    },
    /// Verify the proof.
    VerifySeal {
        config: SealConfig,
        comm_r: Digest,
        comm_d: Digest,
        prover_id: Digest,
        sector_id: u64,
        ticket: Digest,
        seed: Digest,
        proof_bytes: Vec<u8>,
    },
    /// Nothing: the lifecycle has ended or halted.
    Stop,
}

/// An [`Action`] as a mathematical value.
pub enum ActionView {
    PersistPiece { bytes: Seq<u8> },
    CommitPiece { size: u64 },
    AddPiece { size: u64, staged: Seq<u64> },
    PreCommitPhase1 {
        config: SealConfig,
        prover_id: Digest,
        sector_id: u64,
        ticket: Digest,
        pieces: Seq<PieceInfo>,
    },
    ValidatePreCommitCache,
    PreCommitPhase2 { config: SealConfig },
    ValidateCommitCache,
    ClearCache,
    CommitPhase1 {
        config: SealConfig,
        prover_id: Digest,
        sector_id: u64,
        ticket: Digest,
        seed: Digest,
        comm_r: Digest,
        comm_d: Digest,
        pieces: Seq<PieceInfo>,
    },
    CommitPhase2 { config: SealConfig, prover_id: Digest, sector_id: u64 },
    UnsealRange {
        config: SealConfig,
        prover_id: Digest,
        sector_id: u64,
        comm_d: Digest,
        ticket: Digest,
        range: ByteRange,
    },
    VerifySeal {
        config: SealConfig,
        comm_r: Digest,
        comm_d: Digest,
        prover_id: Digest,
        sector_id: u64,
        ticket: Digest,
        seed: Digest,
        proof_bytes: Seq<u8>,
    },
    Stop,
}

impl View for Action {
    type V = ActionView;

    open spec fn view(&self) -> ActionView {
        match *self {
            Action::PersistPiece { bytes } => ActionView::PersistPiece { bytes: bytes@ },
            Action::CommitPiece { size } => ActionView::CommitPiece { size },
            Action::AddPiece { size, staged } => ActionView::AddPiece { size, staged: staged@ },
            Action::PreCommitPhase1 { config, prover_id, sector_id, ticket, pieces } => {
                ActionView::PreCommitPhase1 { config, prover_id, sector_id, ticket, pieces: pieces@ }
            },
            Action::ValidatePreCommitCache => ActionView::ValidatePreCommitCache,
            Action::PreCommitPhase2 { config } => ActionView::PreCommitPhase2 { config },
            Action::ValidateCommitCache => ActionView::ValidateCommitCache,
            Action::ClearCache => ActionView::ClearCache,
            Action::CommitPhase1 {
                config,
                prover_id,
                sector_id,
                ticket,
                seed,
                comm_r,
                comm_d,
                pieces,
            } => ActionView::CommitPhase1 {
                config,
                prover_id,
                sector_id,
                ticket,
                seed,
                comm_r,
                comm_d,
                pieces: pieces@,
            },
            Action::CommitPhase2 { config, prover_id, sector_id } => ActionView::CommitPhase2 {
                config,
                prover_id,
                sector_id,
            },
            Action::UnsealRange { config, prover_id, sector_id, comm_d, ticket, range } => {
                ActionView::UnsealRange { config, prover_id, sector_id, comm_d, ticket, range }
            },
            Action::VerifySeal {
                config,
                comm_r,
                comm_d,
                prover_id,
                sector_id,
                ticket,
                seed,
                proof_bytes,
            } => ActionView::VerifySeal {
                config,
                comm_r,
                comm_d,
                prover_id,
                sector_id,
                ticket,
                seed,
                proof_bytes: proof_bytes@,
            },
            Action::Stop => ActionView::Stop,
        }
    }
}

/// The state of a lifecycle as a mathematical value.
pub struct LifecycleState {
    pub phase: Phase,
    pub failure: Option<Failure>,
    pub config: SealConfig,
    pub ids: SessionIds,
    pub skip_proof: bool,
    pub range: ByteRange,
    /// The content of the piece.
    pub piece: Seq<u8>,
    /// The pieces of the sector: none until the piece is committed, one after.
    pub pieces: Seq<PieceInfo>,
    /// The commitments of the sealed sector, once there are any.
    pub pre_commit: Option<PreCommitOutput>,
    /// The proof, once there is one; empty until then.
    pub proof_bytes: Seq<u8>,
}

impl LifecycleState {
    /// The state in which every lifecycle begins.
    pub open spec fn initial(
        config: SealConfig,
        ids: SessionIds,
        piece: Seq<u8>,
        range: ByteRange,
        skip_proof: bool,
    ) -> LifecycleState {
        LifecycleState {
            phase: Phase::Init,
            failure: None,
            config,
            ids,
            skip_proof,
            range,
            piece,
            pieces: Seq::empty(),
            pre_commit: None,
            proof_bytes: Seq::empty(),
        }
    }

    /// What holds of every state that a lifecycle reaches: the piece fills
    /// the sector, the sector has its one piece from `PieceStaged` on, and
    /// its commitments from `PreCommit2Validated` on. A lifecycle that
    /// skips the proof is in no proving phase, and no other lifecycle is in
    /// `ProofSkipped`.
    pub open spec fn wf(self) -> bool {
        &&& convertible(self.config.sector_size)
        &&& self.piece.len() == unpadded_capacity(self.config.sector_size as nat)
        &&& self.pieces.len() == (if self.phase.rank() >= 2 {
            1nat
        } else {
            0nat
        })
        &&& forall|i: int|
            0 <= i < self.pieces.len() ==> (#[trigger] self.pieces[i]).size == self.piece.len()
        &&& self.pre_commit is Some <==> self.phase.rank() >= 6
        &&& self.skip_proof ==> !self.phase.proving()
        &&& !self.skip_proof ==> self.phase != Phase::ProofSkipped
    }

    /// Whether the lifecycle has stopped, at its end or at a failure.
    pub open spec fn halted(self) -> bool {
        self.failure is Some || self.phase == Phase::Terminal
    }

    /// Whether the lifecycle has run to its end.
    pub open spec fn completed(self) -> bool {
        self.failure is None && self.phase == Phase::Terminal
    }

    /// The same lifecycle, halted by `failure` in the phase it is in.
    pub open spec fn fail(self, failure: Failure) -> LifecycleState {
        LifecycleState { failure: Some(failure), ..self }
    }

    /// The same lifecycle in another phase.
    pub open spec fn enter(self, phase: Phase) -> LifecycleState {
        LifecycleState { phase, ..self }
    }

    /// How the lifecycle stands.
    pub open spec fn outcome(self) -> Outcome {
        match self.failure {
            Some(failure) => if failure.is_fault() {
                Outcome::Fault(failure)
            } else {
                Outcome::Error(failure)
            },
            None => match self.result() {
                Some(result) => Outcome::Sealed(result),
                None => Outcome::Running,
            },
        }
    }

    /// What a completed lifecycle leaves behind.
    pub open spec fn result(self) -> Option<LifecycleResult> {
        if self.completed() && self.pre_commit is Some {
            Some(
                LifecycleResult {
                    sector_id: self.ids.sector_id,
                    comm_r: self.pre_commit->Some_0.comm_r,
                },
            )
        } else {
            None
        }
    }
}

/// How the recomputed data commitment is judged against the one that
/// sealing returned: no failure where they are equal, a mismatch where they
/// differ, an error of the proving library where none could be computed.
pub open spec fn commitment_verdict(expected: Digest, computed: Option<Digest>) -> Option<
    Failure,
> {
    match computed {
        None => Some(Failure::Collaborator),
        Some(digest) => if digest == expected {
            None
        } else {
            Some(Failure::CommitmentMismatch)
        },
    }
}

/// How unsealed bytes are judged against the piece: their number first,
/// then their content.
pub open spec fn unseal_verdict(piece: Seq<u8>, range: ByteRange, contents: Seq<u8>) -> Option<
    Failure,
> {
    if contents.len() != range.length {
        Some(Failure::UnsealedLength)
    } else if piece_range(piece, range) != Some(contents) {
        Some(Failure::UnsealedBytes)
    } else {
        None
    }
}

/// The operation that is due in state `s`.
pub open spec fn pending(s: LifecycleState) -> ActionView {
    if s.failure is Some {
        ActionView::Stop
    } else {
        match s.phase {
            Phase::Init => ActionView::PersistPiece { bytes: s.piece },
            Phase::PieceCommitted => ActionView::CommitPiece { size: s.piece.len() as u64 },
            Phase::PieceStaged => ActionView::AddPiece {
                size: s.piece.len() as u64,
                staged: Seq::empty(),
            },
            Phase::PreCommit1 => ActionView::PreCommitPhase1 {
                config: s.config,
                prover_id: s.ids.prover_id,
                sector_id: s.ids.sector_id,
                ticket: s.ids.ticket,
                pieces: s.pieces,
            },
            Phase::PreCommit1Validated => ActionView::ValidatePreCommitCache,
            Phase::PreCommit2 => ActionView::PreCommitPhase2 { config: s.config },
            Phase::PreCommit2Validated => ActionView::ValidateCommitCache,
            Phase::ProofSkipped => ActionView::ClearCache,
            Phase::Commit1 => ActionView::CommitPhase1 {
                config: s.config,
                prover_id: s.ids.prover_id,
                sector_id: s.ids.sector_id,
                ticket: s.ids.ticket,
                seed: s.ids.seed,
                comm_r: s.pre_commit->Some_0.comm_r,
                comm_d: s.pre_commit->Some_0.comm_d,
                pieces: s.pieces,
            },
            Phase::CacheCleared => ActionView::ClearCache,
            Phase::Commit2 => ActionView::CommitPhase2 {
                config: s.config,
                prover_id: s.ids.prover_id,
                sector_id: s.ids.sector_id,
            },
            Phase::Unsealed => ActionView::UnsealRange {
                config: s.config,
                prover_id: s.ids.prover_id,
                sector_id: s.ids.sector_id,
                comm_d: s.pre_commit->Some_0.comm_d,
                ticket: s.ids.ticket,
                range: s.range,
            },
            Phase::Verified => ActionView::VerifySeal {
                config: s.config,
                comm_r: s.pre_commit->Some_0.comm_r,
                comm_d: s.pre_commit->Some_0.comm_d,
                prover_id: s.ids.prover_id,
                sector_id: s.ids.sector_id,
                ticket: s.ids.ticket,
                seed: s.ids.seed,
                proof_bytes: s.proof_bytes,
            },
            Phase::Terminal => ActionView::Stop,
        }
    }
}

/// The state that follows `s` when the pending operation ends in `e`.
///
/// A halted lifecycle stays as it is. An operation that failed halts the
/// lifecycle where it stands. Otherwise the phase decides: it accepts one
/// kind of event, checks its guard on it and enters the next phase; any
/// other event is a breach of protocol.
pub open spec fn advance(s: LifecycleState, e: EventView) -> LifecycleState {
    if s.halted() {
        s
    } else if e is Failed {
        s.fail(Failure::Collaborator)
    } else {
        match s.phase {
            Phase::Init => match e {
                EventView::Done => s.enter(Phase::PieceCommitted),
                _ => s.fail(Failure::Protocol),
            },
            Phase::PieceCommitted => match e {
                EventView::PieceCommitted { commitment } => if is_zero_digest(commitment) {
                    s.fail(Failure::EmptyCommitment)
                } else {
                    LifecycleState {
                        phase: Phase::PieceStaged,
                        pieces: seq![PieceInfo { commitment, size: s.piece.len() as u64 }],
                        ..s
                    }
                },
                _ => s.fail(Failure::Protocol),
            },
            Phase::PieceStaged => match e {
                EventView::Done => s.enter(Phase::PreCommit1),
                _ => s.fail(Failure::Protocol),
            },
            Phase::PreCommit1 => match e {
                EventView::Done => s.enter(Phase::PreCommit1Validated),
                _ => s.fail(Failure::Protocol),
            },
            Phase::PreCommit1Validated => match e {
                EventView::Done => s.enter(Phase::PreCommit2),
                _ => s.fail(Failure::Protocol),
            },
            Phase::PreCommit2 => match e {
                EventView::PreCommitted { comm_r, comm_d } => LifecycleState {
                    phase: Phase::PreCommit2Validated,
                    pre_commit: Some(PreCommitOutput { comm_r, comm_d }),
                    ..s
                },
                _ => s.fail(Failure::Protocol),
            },
            Phase::PreCommit2Validated => match e {
                EventView::Done => if s.skip_proof {
                    s.enter(Phase::ProofSkipped)
                } else {
                    s.enter(Phase::Commit1)
                },
                _ => s.fail(Failure::Protocol),
            },
            Phase::ProofSkipped => match e {
                EventView::Done => s.enter(Phase::Terminal),
                _ => s.fail(Failure::Protocol),
            },
            Phase::Commit1 => match e {
                EventView::Done => s.enter(Phase::CacheCleared),
                _ => s.fail(Failure::Protocol),
            },
            Phase::CacheCleared => match e {
                EventView::Done => s.enter(Phase::Commit2),
                _ => s.fail(Failure::Protocol),
            },
            Phase::Commit2 => match e {
                EventView::Proved { proof_bytes } => LifecycleState {
                    phase: Phase::Unsealed,
                    proof_bytes,
                    ..s
                },
                _ => s.fail(Failure::Protocol),
            },
            Phase::Unsealed => match e {
                EventView::Unsealed { contents } => match unseal_verdict(
                    s.piece,
                    s.range,
                    contents,
                ) {
                    Some(failure) => s.fail(failure),
                    None => match commitment_verdict(
                        s.pre_commit->Some_0.comm_d,
                        data_commitment(s.config.sector_size, s.pieces),
                    ) {
                        Some(failure) => s.fail(failure),
                        None => s.enter(Phase::Verified),
                    },
                },
                _ => s.fail(Failure::Protocol),
            },
            Phase::Verified => match e {
                EventView::Verified { valid } => if valid {
                    s.enter(Phase::Terminal)
                } else {
                    s.fail(Failure::ProofRejected)
                },
                _ => s.fail(Failure::Protocol),
            },
            Phase::Terminal => s,
        }
    }
}

/// Judges the recomputed data commitment: see [`commitment_verdict`].
pub fn check_commitment(expected: &Digest, computed: Option<Digest>) -> (verdict: Option<Failure>)
    ensures
        verdict == commitment_verdict(*expected, computed),
{
    match computed {
        None => Some(Failure::Collaborator),
        Some(digest) => if digest_eq(&digest, expected) {
            None
        } else {
            Some(Failure::CommitmentMismatch)
        },
    }
}

/// Judges unsealed bytes: see [`unseal_verdict`].
pub fn check_unsealed(piece: &Vec<u8>, range: ByteRange, contents: &Vec<u8>) -> (verdict: Option<
    Failure,
>)
    ensures
        verdict == unseal_verdict(piece@, range, contents@),
{
    if contents.len() as u64 != range.length {
        Some(Failure::UnsealedLength)
    } else if !range_matches(piece, range, contents) {
        Some(Failure::UnsealedBytes)
    } else {
        None
    }
}

/// One sealing lifecycle.
#[derive(Debug)]
pub struct Lifecycle {
    phase: Phase,
    failure: Option<Failure>,
    config: SealConfig,
    ids: SessionIds,
    skip_proof: bool,
    range: ByteRange,
    piece: Vec<u8>,
    pieces: Vec<PieceInfo>,
    pre_commit: Option<PreCommitOutput>,
    proof_bytes: Vec<u8>,
}

impl View for Lifecycle {
    type V = LifecycleState;

    closed spec fn view(&self) -> LifecycleState {
        LifecycleState {
            phase: self.phase,
            failure: self.failure,
            config: self.config,
            ids: self.ids,
            skip_proof: self.skip_proof,
            range: self.range,
            piece: self.piece@,
            pieces: self.pieces@,
            pre_commit: self.pre_commit,
            proof_bytes: self.proof_bytes@,
        }
    }
}

impl Lifecycle {
    #[verifier::type_invariant]
    spec fn well_formed(self) -> bool {
        self@.wf()
    }

    /// Starts a lifecycle in `Init` for a piece that fills the sector.
    pub fn new(
        config: SealConfig,
        ids: SessionIds,
        piece: Vec<u8>,
        range: ByteRange,
        skip_proof: bool,
    ) -> (lifecycle: Lifecycle)
        requires
            convertible(config.sector_size),
            piece@.len() == unpadded_capacity(config.sector_size as nat),
        ensures
            lifecycle@ == LifecycleState::initial(config, ids, piece@, range, skip_proof),
            lifecycle@.wf(),
    {
        Lifecycle {
            phase: Phase::Init,
            failure: None,
            config,
            ids,
            skip_proof,
            range,
            piece,
            pieces: Vec::new(),
            pre_commit: None,
            proof_bytes: Vec::new(),
        }
    }

    /// The phase the lifecycle is in.
    pub fn phase(&self) -> (phase: Phase)
        ensures
            phase == self@.phase,
    {
        self.phase
    }

    /// Why the lifecycle halted, if it did.
    pub fn failure(&self) -> (failure: Option<Failure>)
        ensures
            failure == self@.failure,
    {
        self.failure
    }

    /// The configuration of the sector.
    pub fn config(&self) -> (config: SealConfig)
        ensures
            config == self@.config,
    {
        self.config
    }

    /// The identifiers of the session.
    pub fn ids(&self) -> (ids: SessionIds)
        ensures
            ids == self@.ids,
    {
        self.ids
    }

    /// Whether the lifecycle ends without a proof.
    pub fn skip_proof(&self) -> (skip: bool)
        ensures
            skip == self@.skip_proof,
    {
        self.skip_proof
    }

    /// The range that is unsealed to be compared with the piece.
    pub fn range(&self) -> (range: ByteRange)
        ensures
            range == self@.range,
    {
        self.range
    }

    /// The content of the piece.
    pub fn piece_bytes(&self) -> (bytes: &Vec<u8>)
        ensures
            bytes@ == self@.piece,
    {
        &self.piece
    }

    /// The pieces of the sector: none until the piece is committed, one after.
    pub fn pieces(&self) -> (pieces: &Vec<PieceInfo>)
        ensures
            pieces@ == self@.pieces,
    {
        &self.pieces
    }

    /// The commitments of the sealed sector, once sealing has returned them.
    pub fn pre_commit(&self) -> (output: Option<PreCommitOutput>)
        ensures
            output == self@.pre_commit,
    {
        self.pre_commit
    }

    /// Whether the lifecycle has stopped, at its end or at a failure.
    pub fn halted(&self) -> (halted: bool)
        ensures
            halted == self@.halted(),
    {
        self.failure.is_some() || self.phase == Phase::Terminal
    }

    /// The sector number and the commitment to the sealed sector, from a
    /// lifecycle that has run to its end.
    pub fn result(&self) -> (result: Option<LifecycleResult>)
        ensures
            result == self@.result(),
            result is Some <==> self@.completed(),
    {
        proof {
            use_type_invariant(self);
        }
        if self.failure.is_none() && self.phase == Phase::Terminal {
            match self.pre_commit {
                Some(output) => Some(
                    LifecycleResult { sector_id: self.ids.sector_id, comm_r: output.comm_r },
                ),
                None => None,
            }
        } else {
            None
        }
    }

    /// How the lifecycle stands: what its caller is to make of it.
    pub fn outcome(&self) -> (outcome: Outcome)
        ensures
            outcome == self@.outcome(),
    {
        match self.failure {
            Some(failure) => if failure.fault() {
                Outcome::Fault(failure)
            } else {
                Outcome::Error(failure)
            },
            None => match self.result() {
                Some(result) => Outcome::Sealed(result),
                None => Outcome::Running,
            },
        }
    }

    /// The operation that is due, with all that it takes.
    pub fn pending(&self) -> (action: Action)
        ensures
            action@ == pending(self@),
    {
        proof {
            use_type_invariant(self);
        }
        if self.failure.is_some() {
            return Action::Stop;
        }
        let unset = PreCommitOutput { comm_r: [0u8; 32], comm_d: [0u8; 32] };
        let output = match self.pre_commit {
            Some(output) => output,
            None => unset,
        };
        match self.phase {
            Phase::Init => Action::PersistPiece { bytes: copy_of(&self.piece) },
            Phase::PieceCommitted => Action::CommitPiece { size: self.piece.len() as u64 },
            Phase::PieceStaged => Action::AddPiece {
                size: self.piece.len() as u64,
                staged: Vec::new(),
            },
            Phase::PreCommit1 => Action::PreCommitPhase1 {
                config: self.config,
                prover_id: self.ids.prover_id,
                sector_id: self.ids.sector_id,
                ticket: self.ids.ticket,
                pieces: copy_of(&self.pieces),
            },
            Phase::PreCommit1Validated => Action::ValidatePreCommitCache,
            Phase::PreCommit2 => Action::PreCommitPhase2 { config: self.config },
            Phase::PreCommit2Validated => Action::ValidateCommitCache,
            Phase::ProofSkipped => Action::ClearCache,
            Phase::Commit1 => Action::CommitPhase1 {
                config: self.config,
                prover_id: self.ids.prover_id,
                sector_id: self.ids.sector_id,
                ticket: self.ids.ticket,
                seed: self.ids.seed,
                comm_r: output.comm_r,
                comm_d: output.comm_d,
                pieces: copy_of(&self.pieces),
            },
            Phase::CacheCleared => Action::ClearCache,
            Phase::Commit2 => Action::CommitPhase2 {
                config: self.config,
                prover_id: self.ids.prover_id,
                sector_id: self.ids.sector_id,
            },
            Phase::Unsealed => Action::UnsealRange {
                config: self.config,
                prover_id: self.ids.prover_id,
                sector_id: self.ids.sector_id,
                comm_d: output.comm_d,
                ticket: self.ids.ticket,
                range: self.range,
            },
            Phase::Verified => Action::VerifySeal {
                config: self.config,
                comm_r: output.comm_r,
                comm_d: output.comm_d,
                prover_id: self.ids.prover_id,
                sector_id: self.ids.sector_id,
                ticket: self.ids.ticket,
                seed: self.ids.seed,
                proof_bytes: copy_of(&self.proof_bytes),
            },
            Phase::Terminal => Action::Stop,
        }
    }

    /// Halts the lifecycle where it stands.
    fn fail(self, failure: Failure) -> (halted: Lifecycle)
        ensures
            halted@ == self@.fail(failure),
    {
        proof {
            use_type_invariant(&self);
        }
        Lifecycle { failure: Some(failure), ..self }
    }

    /// Enters `phase`, where the state as it is fits that phase.
    fn enter(self, phase: Phase) -> (entered: Lifecycle)
        requires
            self@.enter(phase).wf(),
        ensures
            entered@ == self@.enter(phase),
    {
        Lifecycle { phase, ..self }
    }

    /// Takes the outcome of the pending operation and moves on: to the next
    /// phase where the phase's guard holds of the outcome, to a halt where
    /// it does not.
    pub fn advance(self, event: Event) -> (next: Lifecycle)
        ensures
            next@ == advance(self@, event@),
            next@.wf(),
    {
        proof {
            use_type_invariant(&self);
        }
        if self.halted() {
            return self;
        }
        if matches!(event, Event::Failed) {
            return self.fail(Failure::Collaborator);
        }
        match self.phase {
            Phase::Init => match event {
                Event::Done => self.enter(Phase::PieceCommitted),
                _ => self.fail(Failure::Protocol),
            },
            Phase::PieceCommitted | Phase::PieceStaged | Phase::PreCommit1
            | Phase::PreCommit1Validated => self.run_seal_pre_commit_phase1(event),
            Phase::PreCommit2 => match event {
                Event::PreCommitted { comm_r, comm_d } => Lifecycle {
                    phase: Phase::PreCommit2Validated,
                    pre_commit: Some(PreCommitOutput { comm_r, comm_d }),
                    ..self
                },
                _ => self.fail(Failure::Protocol),
            },
            Phase::PreCommit2Validated => match event {
                Event::Done => if self.skip_proof {
                    self.enter(Phase::ProofSkipped)
                } else {
                    self.enter(Phase::Commit1)
                },
                _ => self.fail(Failure::Protocol),
            },
            Phase::ProofSkipped => match event {
                Event::Done => self.enter(Phase::Terminal),
                _ => self.fail(Failure::Protocol),
            },
            Phase::Commit1 | Phase::CacheCleared | Phase::Commit2 | Phase::Unsealed
            | Phase::Verified => self.proof_and_unseal(event),
            Phase::Terminal => self,
        }
    }

    /// The part of [`Lifecycle::advance`] that leads from the committed
    /// piece to a validated first pre-commit phase. In any other phase the
    /// lifecycle stays as it is.
    pub fn run_seal_pre_commit_phase1(self, event: Event) -> (next: Lifecycle)
        ensures
            next@ == if 1 <= self@.phase.rank() <= 4 {
                advance(self@, event@)
            } else {
                self@
            },
            next@.wf(),
    {
        proof {
            use_type_invariant(&self);
        }
        let mine = match self.phase {
            Phase::PieceCommitted => true,
            Phase::PieceStaged => true,
            Phase::PreCommit1 => true,
            Phase::PreCommit1Validated => true,
            _ => false,
        };
        if !mine || self.halted() {
            return self;
        }
        if matches!(event, Event::Failed) {
            return self.fail(Failure::Collaborator);
        }
        match self.phase {
            Phase::PieceCommitted => match event {
                Event::PieceCommitted { commitment } => if digest_is_zero(&commitment) {
                    self.fail(Failure::EmptyCommitment)
                } else {
                    let mut pieces: Vec<PieceInfo> = Vec::new();
                    pieces.push(PieceInfo { commitment, size: self.piece.len() as u64 });
                    assert(pieces@ =~= seq![
                        PieceInfo { commitment, size: self.piece@.len() as u64 },
                    ]);
                    proof {
                        lemma_capacity_bounded(self.config.sector_size as nat);
                    }
                    Lifecycle { phase: Phase::PieceStaged, pieces, ..self }
                },
                _ => self.fail(Failure::Protocol),
            },
            Phase::PieceStaged => match event {
                Event::Done => self.enter(Phase::PreCommit1),
                _ => self.fail(Failure::Protocol),
            },
            Phase::PreCommit1 => match event {
                Event::Done => self.enter(Phase::PreCommit1Validated),
                _ => self.fail(Failure::Protocol),
            },
            _ => match event {
                Event::Done => self.enter(Phase::PreCommit2),
                _ => self.fail(Failure::Protocol),
            },
        }
    }

    /// The part of [`Lifecycle::advance`] that leads from the first commit
    /// phase to the verified proof. In any other phase the lifecycle stays
    /// as it is.
    pub fn proof_and_unseal(self, event: Event) -> (next: Lifecycle)
        ensures
            next@ == if self@.phase.proving() {
                advance(self@, event@)
            } else {
                self@
            },
            next@.wf(),
    {
        proof {
            use_type_invariant(&self);
        }
        let mine = match self.phase {
            Phase::Commit1 => true,
            Phase::CacheCleared => true,
            Phase::Commit2 => true,
            Phase::Unsealed => true,
            Phase::Verified => true,
            _ => false,
        };
        if !mine || self.halted() {
            return self;
        }
        if matches!(event, Event::Failed) {
            return self.fail(Failure::Collaborator);
        }
        match self.phase {
            Phase::Commit1 => match event {
                Event::Done => self.enter(Phase::CacheCleared),
                _ => self.fail(Failure::Protocol),
            },
            Phase::CacheCleared => match event {
                Event::Done => self.enter(Phase::Commit2),
                _ => self.fail(Failure::Protocol),
            },
            Phase::Commit2 => match event {
                Event::Proved { proof_bytes } => Lifecycle {
                    phase: Phase::Unsealed,
                    proof_bytes,
                    ..self
                },
                _ => self.fail(Failure::Protocol),
            },
            Phase::Unsealed => match event {
                Event::Unsealed { contents } => match check_unsealed(
                    &self.piece,
                    self.range,
                    &contents,
                ) {
                    Some(failure) => self.fail(failure),
                    None => {
                        proof {
                            lemma_padded_capacity_fits(self.config.sector_size);
                        }
                        let computed = recompute_data_commitment(
                            self.config.sector_size,
                            &self.pieces,
                        );
                        self.check_data_commitment(computed)
                    },
                },
                _ => self.fail(Failure::Protocol),
            },
            _ => match event {
                Event::Verified { valid } => if valid {
                    self.enter(Phase::Terminal)
                } else {
                    self.fail(Failure::ProofRejected)
                },
                _ => self.fail(Failure::Protocol),
            },
        }
    }

    /// Leaves `Unsealed` once the unsealed bytes have been found right and
    /// the data commitment has been recomputed: on to `Verified` where
    /// `computed` is the commitment that sealing returned, to a halt where
    /// it is not. A lifecycle that is not running in `Unsealed` stays as it
    /// is.
    pub fn check_data_commitment(self, computed: Option<Digest>) -> (next: Lifecycle)
        ensures
            next@ == if self@.phase == Phase::Unsealed && !self@.halted() {
                match commitment_verdict(self@.pre_commit->Some_0.comm_d, computed) {
                    Some(failure) => self@.fail(failure),
                    None => self@.enter(Phase::Verified),
                }
            } else {
                self@
            },
            next@.wf(),
    {
        proof {
            use_type_invariant(&self);
        }
        if self.phase != Phase::Unsealed || self.halted() {
            return self;
        }
        let expected = match self.pre_commit {
            Some(output) => output.comm_d,
            None => [0u8; 32],
        };
        match check_commitment(&expected, computed) {
            Some(failure) => self.fail(failure),
            None => self.enter(Phase::Verified),
        }
    }
}

} // verus!

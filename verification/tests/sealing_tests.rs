use std::io::{Seek, SeekFrom, Write};

use filecoin_proofs::{
    add_piece, clear_cache, generate_piece_commitment, seal_pre_commit_phase1,
    seal_pre_commit_phase2, validate_cache_for_commit, validate_cache_for_precommit_phase2,
    PieceInfo, PoRepConfig, PoRepProofPartitions, SectorShape2KiB, SectorSize,
    UnpaddedBytesAmount,
};
use rand::SeedableRng;
use rand_xorshift::XorShiftRng;
use seal_lifecycle::config::ApiVersion;
use seal_lifecycle::driver::create_seal;
use seal_lifecycle::pipeline::{Action, Event, Phase};
use seal_lifecycle::session::TEST_SEED;
use storage_proofs_core::sector::SectorId;
use tempfile::{tempdir, NamedTempFile};

fn theirs(config: seal_lifecycle::config::SealConfig) -> PoRepConfig {
    PoRepConfig {
        sector_size: SectorSize(config.sector_size),
        partitions: PoRepProofPartitions(config.partitions),
        porep_id: config.porep_id,
        api_version: storage_proofs_core::api_version::ApiVersion::V1_1_0,
        api_features: Vec::new(),
    }
}

#[test]
fn skipping_lifecycle_seals_a_real_sector() {
    let mut rng = XorShiftRng::from_seed(TEST_SEED);
    let mut lifecycle =
        create_seal(&mut rng, 0, 2048, [7u8; 32], true, &[128u8; 32], ApiVersion::V1_1_0).unwrap();
    let mut piece_file = NamedTempFile::new().unwrap();
    let mut staged_file = NamedTempFile::new().unwrap();
    let sealed_file = NamedTempFile::new().unwrap();
    let cache_dir = tempdir().unwrap();
    let mut artifact = None;
    let mut asked = Vec::new();
    let mut piece_commitment = [0u8; 32];
    while !lifecycle.halted() {
        let action = lifecycle.pending();
        asked.push(lifecycle.phase());
        let event = match action {
            Action::PersistPiece { bytes } => {
                piece_file.write_all(&bytes).unwrap();
                piece_file.as_file_mut().sync_all().unwrap();
                piece_file.as_file_mut().seek(SeekFrom::Start(0)).unwrap();
                Event::Done
            }
            Action::CommitPiece { size } => {
                let info =
                    generate_piece_commitment(piece_file.as_file_mut(), UnpaddedBytesAmount(size))
                        .unwrap();
                piece_file.as_file_mut().seek(SeekFrom::Start(0)).unwrap();
                piece_commitment = info.commitment;
                Event::PieceCommitted { commitment: info.commitment }
            }
            Action::AddPiece { size, staged } => {
                assert!(staged.is_empty());
                add_piece(&mut piece_file, &mut staged_file, UnpaddedBytesAmount(size), &[])
                    .unwrap();
                Event::Done
            }
            Action::PreCommitPhase1 { config, prover_id, sector_id, ticket, pieces } => {
                let infos: Vec<PieceInfo> = pieces
                    .iter()
                    .map(|p| PieceInfo {
                        commitment: p.commitment,
                        size: UnpaddedBytesAmount(p.size),
                    })
                    .collect();
                let output = seal_pre_commit_phase1::<_, _, _, SectorShape2KiB>(
                    &theirs(config),
                    cache_dir.path(),
                    staged_file.path(),
                    sealed_file.path(),
                    prover_id,
                    SectorId::from(sector_id),
                    ticket,
                    &infos,
                )
                .unwrap();
                artifact = Some(output);
                Event::Done
            }
            Action::ValidatePreCommitCache => {
                validate_cache_for_precommit_phase2(
                    cache_dir.path(),
                    staged_file.path(),
                    artifact.as_ref().unwrap(),
                )
                .unwrap();
                Event::Done
            }
            Action::PreCommitPhase2 { config } => {
                let output = seal_pre_commit_phase2(
                    &theirs(config),
                    artifact.take().unwrap(),
                    cache_dir.path(),
                    sealed_file.path(),
                )
                .unwrap();
                Event::PreCommitted { comm_r: output.comm_r, comm_d: output.comm_d }
            }
            Action::ValidateCommitCache => {
                validate_cache_for_commit::<_, _, SectorShape2KiB>(
                    cache_dir.path(),
                    sealed_file.path(),
                )
                .unwrap();
                Event::Done
            }
            Action::ClearCache => {
                clear_cache(cache_dir.path()).unwrap();
                Event::Done
            }
            other => panic!("a lifecycle that skips the proof asked for {:?}", other),
        };
        lifecycle = lifecycle.advance(event);
    }
    assert_eq!(
        asked,
        vec![
            Phase::Init,
            Phase::PieceCommitted,
            Phase::PieceStaged,
            Phase::PreCommit1,
            Phase::PreCommit1Validated,
            Phase::PreCommit2,
            Phase::PreCommit2Validated,
            Phase::ProofSkipped,
        ]
    );
    assert_eq!(lifecycle.failure(), None);
    assert_eq!(lifecycle.phase(), Phase::Terminal);
    let sealed = lifecycle.pre_commit().unwrap();
    let result = lifecycle.result().unwrap();
    assert_eq!(result.sector_id, lifecycle.ids().sector_id);
    assert_eq!(result.comm_r, sealed.comm_r);
    assert_ne!(result.comm_r, [0u8; 32]);
    assert_eq!(sealed.comm_d, piece_commitment);
}

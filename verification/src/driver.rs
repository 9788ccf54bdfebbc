//! Setting up a lifecycle: configuration, piece and identifiers.

use crate::config::{porep_config, ApiVersion, ConfigError};
use crate::piece::{convertible, generate_piece_bytes, ByteRange, Digest};
use crate::pipeline::{Lifecycle, LifecycleState, UNSEAL_LENGTH, UNSEAL_OFFSET};
use crate::session::{
    draw_session, drawn_session, field_draw, generator_words, numbered, seeded_prover,
    seeded_words, TEST_SEED,
};
use rand_xorshift::XorShiftRng;
use vstd::prelude::*;

verus! {

/// The range that the harness unseals to compare it with the piece.
pub open spec fn harness_range() -> ByteRange {
    ByteRange { offset: UNSEAL_OFFSET, length: UNSEAL_LENGTH }
}

/// What holds of a lifecycle that was set up for the given sector: it is a
/// well-formed initial state that reads back [`harness_range`], and its
/// configuration carries the sector size, the protocol identifier and the
/// protocol version that were asked for.
pub open spec fn set_up_for(
    lifecycle: LifecycleState,
    sector_size: u64,
    skip_proof: bool,
    porep_id: Digest,
    api_version: ApiVersion,
) -> bool {
    &&& lifecycle.wf()
    &&& lifecycle == LifecycleState::initial(
        lifecycle.config,
        lifecycle.ids,
        lifecycle.piece,
        harness_range(),
        skip_proof,
    )
    &&& lifecycle.config.sector_size == sector_size
    &&& lifecycle.config.porep_id == porep_id
    &&& lifecycle.config.api_version == api_version
}

/// Whether an error is one that the registry of sector sizes gives: an
/// unknown size, or a registry that cannot be read.
pub open spec fn registry_error(error: ConfigError) -> bool {
    error == ConfigError::UnknownSectorSize || error == ConfigError::RegistryPoisoned
}

/// Sets up the `run`-th lifecycle of this process for a given prover.
///
/// The configuration comes from the registry of sector sizes and the piece
/// is made up of random bytes. Ticket, seed and sector number are drawn
/// from `rng`, in this order, and the sector number moves on by `run`:
/// lifecycles that are given different run numbers seal different sectors,
/// even where their generators start from one seed.
///
/// A sector beyond what this machine converts is refused before the
/// registry is asked; a sector that the registry does not give is refused
/// before anything is drawn or made up, and leaves the generator as it was.
pub fn create_seal(
    rng: &mut XorShiftRng,
    run: u64,
    sector_size: u64,
    prover_id: Digest,
    skip_proof: bool,
    porep_id: &Digest,
    api_version: ApiVersion,
) -> (created: Result<Lifecycle, ConfigError>)
    ensures
        !convertible(sector_size) ==> created == Err::<Lifecycle, ConfigError>(
            ConfigError::SectorTooLarge,
        ),
        convertible(sector_size) ==> match created {
            Ok(lifecycle) => {
                &&& set_up_for(lifecycle@, sector_size, skip_proof, *porep_id, api_version)
                &&& lifecycle@.ids == numbered(
                    drawn_session(generator_words(*old(rng)), prover_id).0,
                    run,
                )
                &&& generator_words(*final(rng)) == drawn_session(
                    generator_words(*old(rng)),
                    prover_id,
                ).1
            },
            Err(error) => registry_error(error),
        },
        created is Err ==> *final(rng) == *old(rng),
{
    if sector_size > crate::config::MAX_SECTOR_SIZE || sector_size > usize::MAX as u64 / 8 {
        return Err(ConfigError::SectorTooLarge);
    }
    let config = match porep_config(sector_size, *porep_id, api_version) {
        Ok(config) => config,
        Err(error) => {
            return Err(error);
        },
    };
    let piece = match generate_piece_bytes(sector_size) {
        Some(piece) => piece,
        None => {
            return Err(ConfigError::SectorTooLarge);
        },
    };
    let ids = draw_session(rng, prover_id).for_run(run);
    let range = ByteRange { offset: UNSEAL_OFFSET, length: UNSEAL_LENGTH };
    Ok(Lifecycle::new(config, ids, piece, range, skip_proof))
}

/// The session of the `run`-th lifecycle of the harness: the prover is the
/// first field element that the generator seeded with [`TEST_SEED`] gives,
/// the rest is drawn from the same generator after it, and the sector
/// number moves on by `run`.
pub open spec fn harness_session(run: u64) -> crate::session::SessionIds {
    let prover = field_draw(seeded_words(TEST_SEED@));
    numbered(drawn_session(prover.1, prover.0).0, run)
}

/// Sets up the `run`-th lifecycle of the harness: one that makes its proof,
/// for the prover and the session that the harness's seeded generator
/// gives. Every lifecycle of a process is to be given a run number of its
/// own; its sector number is then its own too.
pub fn seal_lifecycle(run: u64, sector_size: u64, porep_id: &Digest, api_version: ApiVersion) -> (created:
    Result<Lifecycle, ConfigError>)
    ensures
        !convertible(sector_size) ==> created == Err::<Lifecycle, ConfigError>(
            ConfigError::SectorTooLarge,
        ),
        convertible(sector_size) ==> match created {
            Ok(lifecycle) => {
                &&& set_up_for(lifecycle@, sector_size, false, *porep_id, api_version)
                &&& lifecycle@.ids == harness_session(run)
                &&& lifecycle@.ids.prover_id == field_draw(seeded_words(TEST_SEED@)).0
            },
            Err(error) => registry_error(error),
        },
{
    let (mut rng, prover_id) = seeded_prover();
    create_seal(&mut rng, run, sector_size, prover_id, false, porep_id, api_version)
}

} // verus!

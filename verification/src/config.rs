//! Seal configuration: sector size, partition count and protocol epoch.

use std::collections::HashMap;
use vstd::prelude::*;

verus! {

broadcast use vstd::std_specs::hash::group_hash_axioms;

/// Sector size of the smallest test sectors that use the two-level tree shape.
pub const SECTOR_SIZE_32_KIB: u64 = 32768;

/// Largest sector size this crate handles, 2^50 bytes. Up to this bound
/// the proving library converts between padded and unpadded byte counts
/// without rounding.
pub const MAX_SECTOR_SIZE: u64 = 0x4_0000_0000_0000;

/// Compatibility epoch of the sealing protocol.
#[derive(Clone, Copy, Debug, PartialEq, Eq, Structural)]
pub enum ApiVersion {
    V1_0_0,
    V1_1_0,
    V1_2_0,
}

/// Everything the proving library needs to know about the kind of sector
/// being sealed. A value is made once per lifecycle and never changes.
#[derive(Clone, Copy, Debug, PartialEq, Eq)]
pub struct SealConfig {
    pub sector_size: u64,
    pub partitions: u8,
    pub porep_id: [u8; 32],
    pub api_version: ApiVersion,
}

/// Why no configuration could be made.
#[derive(Clone, Copy, Debug, PartialEq, Eq, Structural)]
pub enum ConfigError {
    /// The registry of sector sizes has no entry for the requested size.
    UnknownSectorSize,
    /// The sector is larger than [`MAX_SECTOR_SIZE`], or than this machine
    /// can count the bits of.
    SectorTooLarge,
    /// The registry of sector sizes cannot be read: a writer panicked while
    /// it held the registry's lock.
    RegistryPoisoned,
}

/// The configuration that a registry lookup leads to: the looked-up
/// partition count beside the caller's own values, or an error where the
/// registry had no entry.
pub open spec fn config_from_lookup(
    sector_size: u64,
    partitions: Option<u8>,
    porep_id: [u8; 32],
    api_version: ApiVersion,
) -> Result<SealConfig, ConfigError> {
    match partitions {
        Some(n) => Ok(SealConfig { sector_size, partitions: n, porep_id, api_version }),
        None => Err(ConfigError::UnknownSectorSize),
    }
}

/// The configuration that a reading of the registry leads to: an error
/// where the registry could not be read, else what the entry for
/// `sector_size`, or the want of one, leads to.
pub open spec fn config_from_registry(
    registry: Option<Map<u64, u8>>,
    sector_size: u64,
    porep_id: [u8; 32],
    api_version: ApiVersion,
) -> Result<SealConfig, ConfigError> {
    match registry {
        None => Err(ConfigError::RegistryPoisoned),
        Some(table) => config_from_lookup(
            sector_size,
            if table.contains_key(sector_size) {
                Some(table[sector_size])
            } else {
                None
            },
            porep_id,
            api_version,
        ),
    }
}

/// A registry as a mathematical value.
pub open spec fn registry_view(registry: Option<HashMap<u64, u8>>) -> Option<Map<u64, u8>> {
    match registry {
        Some(table) => Some(table@),
        None => None,
    }
}

/// Copies `filecoin_proofs::POREP_PARTITIONS`, the process-wide table from
/// sector size to partition count, out from behind its lock.
///
/// Nothing is claimed of what the table holds: it belongs to the proving
/// library. There is no copy where a panicking writer has poisoned the
/// lock.
#[verifier::external_body]
fn registry_snapshot() -> (registry: Option<HashMap<u64, u8>>) {
    match filecoin_proofs::POREP_PARTITIONS.read() {
        Ok(table) => Some(table.clone()),
        Err(_) => None,
    }
}

/// Looks a sector size up in a registry.
pub fn registered_partitions(registry: &HashMap<u64, u8>, sector_size: u64) -> (partitions: Option<
    u8,
>)
    ensures
        partitions == if registry@.contains_key(sector_size) {
            Some(registry@[sector_size])
        } else {
            None
        },
{
    match registry.get(&sector_size) {
        Some(partitions) => Some(*partitions),
        None => None,
    }
}

/// Builds the configuration from the outcome of a registry lookup.
pub fn seal_config(
    sector_size: u64,
    partitions: Option<u8>,
    porep_id: [u8; 32],
    api_version: ApiVersion,
) -> (config: Result<SealConfig, ConfigError>)
    ensures
        config == config_from_lookup(sector_size, partitions, porep_id, api_version),
{
    match partitions {
        Some(n) => Ok(SealConfig { sector_size, partitions: n, porep_id, api_version }),
        None => Err(ConfigError::UnknownSectorSize),
    }
}

/// Builds the configuration from a reading of the registry.
pub fn registry_config(
    registry: Option<HashMap<u64, u8>>,
    sector_size: u64,
    porep_id: [u8; 32],
    api_version: ApiVersion,
) -> (config: Result<SealConfig, ConfigError>)
    ensures
        config == config_from_registry(registry_view(registry), sector_size, porep_id, api_version),
{
    match registry {
        None => Err(ConfigError::RegistryPoisoned),
        Some(table) => {
            let partitions = registered_partitions(&table, sector_size);
            seal_config(sector_size, partitions, porep_id, api_version)
        },
    }
}

/// Derives the configuration for `sector_size` from the proving library's
/// registry of sector sizes.
///
/// What the registry holds is the registry's affair, so the contract holds
/// of every reading of it: a configuration carries the three arguments
/// unchanged beside the registered partition count, a size without an entry
/// is [`ConfigError::UnknownSectorSize`], and a registry that cannot be
/// read is [`ConfigError::RegistryPoisoned`].
pub fn porep_config(sector_size: u64, porep_id: [u8; 32], api_version: ApiVersion) -> (config:
    Result<SealConfig, ConfigError>)
    ensures
        exists|registry: Option<Map<u64, u8>>|
            config == config_from_registry(registry, sector_size, porep_id, api_version),
{
    let registry = registry_snapshot();
    let config = registry_config(registry, sector_size, porep_id, api_version);
    assert(config == config_from_registry(
        registry_view(registry),
        sector_size,
        porep_id,
        api_version,
    ));
    config
}

} // verus!

use vstd::prelude::*;

use vstd::string::StrSliceExecFns;

use crate::error::ErrorCode;
use crate::keys::Pubkey;

verus! {

/// Per-class settings of a rewardable entity type: the radio gains an IOT
/// hotspot may assert, and the data-credit fees a location assertion
/// costs, full and data-only.
#[derive(Clone, Copy, Debug, PartialEq, Eq, Structural)]
pub enum ConfigSettingsV0 {
    IotConfig {
        min_gain: i32,
        max_gain: i32,
        full_location_staking_fee: u64,
        dataonly_location_staking_fee: u64,
    },
    MobileConfig {
        full_location_staking_fee: u64,
        dataonly_location_staking_fee: u64,
    },
}

impl ConfigSettingsV0 {
    /// Whether a mobile location update is admissible under these
    /// settings: only a mobile configuration accepts one.
    pub fn is_valid_mobile(self, _args: UpdateMobileInfoArgsV0) -> (valid: bool)
        ensures
            valid == (self is MobileConfig),
    {
        matches!(self, ConfigSettingsV0::MobileConfig { .. })
    }
}

/// The configuration record of one rewardable entity class under a
/// sub-DAO, addressed by the sub-DAO and the class's symbol.
pub struct RewardableEntityConfigV0 {
    pub sub_dao: Pubkey,
    pub symbol: String,
    pub authority: Pubkey,
    pub settings: ConfigSettingsV0,
}

/// What an authorized actor supplies to create an entity configuration.
pub struct InitializeRewardableEntityConfigArgsV0 {
    pub symbol: String,
    pub settings: ConfigSettingsV0,
}

/// Creates the configuration record of an entity class under a sub-DAO.
///
/// Only the sub-DAO's authority may create one, and the symbol is capped
/// at ten characters (it is folded into the record's storage key, whose
/// layout is fixed). Fails with `Unauthorized` or `InvalidStringLength`;
/// on success the record carries the supplied settings and the signing
/// authority.
pub fn initialize_rewardable_entity_config(
    sub_dao_key: Pubkey,
    sub_dao_authority: Pubkey,
    signer: Pubkey,
    args: InitializeRewardableEntityConfigArgsV0,
) -> (r: Result<RewardableEntityConfigV0, ErrorCode>)
    ensures
        match r {
            Ok(config) => {
                &&& signer == sub_dao_authority
                &&& args.symbol@.len() <= 10
                &&& config.sub_dao == sub_dao_key
                &&& config.symbol@ == args.symbol@
                &&& config.authority == signer
                &&& config.settings == args.settings
            },
            Err(ErrorCode::Unauthorized) => signer != sub_dao_authority,
            Err(ErrorCode::InvalidStringLength) => signer == sub_dao_authority
                && args.symbol@.len() > 10,
            Err(_) => false,
        },
{
    if signer != sub_dao_authority {
        return Err(ErrorCode::Unauthorized);
    }
    if args.symbol.as_str().unicode_len() > 10 {
        return Err(ErrorCode::InvalidStringLength);
    }
    Ok(RewardableEntityConfigV0 {
        sub_dao: sub_dao_key,
        symbol: args.symbol,
        authority: signer,
        settings: args.settings,
    })
}

/// The on-chain record of one mobile hotspot: the compressed asset it
/// mirrors, its asserted location, and how often a location was asserted.
#[derive(Clone, Copy, Debug, PartialEq, Eq, Structural)]
pub struct MobileHotspotInfoV0 {
    pub asset: Pubkey,
    pub location: Option<u64>,
    pub is_full_hotspot: bool,
    pub num_location_asserts: u32,
}

/// What a hotspot owner supplies to update a mobile hotspot's record: the
/// new location, and the leaf hash, root and index under which the host
/// verifies the owner's compressed-ownership proof before any of this
/// logic runs.
pub struct UpdateMobileInfoArgsV0 {
    pub location: Option<u64>,
    pub hash: [u8; 32],
    pub root: [u8; 32],
    pub index: u32,
}

/// The data-credit fee one location assertion costs under `settings`: the
/// full fee for a full hotspot, the data-only fee otherwise.
pub open spec fn spec_location_fee(settings: ConfigSettingsV0, is_full: bool) -> u64
    recommends
        settings is MobileConfig,
{
    if is_full {
        settings->MobileConfig_full_location_staking_fee
    } else {
        settings->MobileConfig_dataonly_location_staking_fee
    }
}

/// Applies a location update to a mobile hotspot's record and decides the
/// fee to burn for it.
///
/// When a location is supplied and the settings are a mobile
/// configuration, the record takes the new location, its assertion count
/// grows by one, and the caller owes a burn of exactly the returned fee.
/// Otherwise nothing changes and nothing is owed. The caller has already
/// verified ownership of the underlying asset.
pub fn update_mobile_info(
    info: &mut MobileHotspotInfoV0,
    settings: &ConfigSettingsV0,
    location: Option<u64>,
) -> (fee: Option<u64>)
    requires
        location is Some && *settings is MobileConfig ==> old(
            info,
        ).num_location_asserts < u32::MAX,
    ensures
        match fee {
            Some(f) => {
                &&& location is Some
                &&& *settings is MobileConfig
                &&& f == spec_location_fee(*settings, old(info).is_full_hotspot)
                &&& *final(info) == (MobileHotspotInfoV0 {
                    location: location,
                    num_location_asserts: (old(info).num_location_asserts + 1) as u32,
                    ..*old(info)
                })
            },
            None => {
                &&& !(location is Some && *settings is MobileConfig)
                &&& *final(info) == *old(info)
            },
        },
{
    match (location, settings) {
        (
            Some(loc),
            ConfigSettingsV0::MobileConfig {
                full_location_staking_fee,
                dataonly_location_staking_fee,
            },
        ) => {
            let dc_fee: u64 = if info.is_full_hotspot {
                *full_location_staking_fee
            } else {
                *dataonly_location_staking_fee
            };
            info.num_location_asserts = info.num_location_asserts + 1;
            info.location = Some(loc);
            Some(dc_fee)
        },
        _ => None,
    }
}

} // verus!

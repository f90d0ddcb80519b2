use dao_emissions::entity::{
    initialize_rewardable_entity_config, update_mobile_info, ConfigSettingsV0,
    InitializeRewardableEntityConfigArgsV0, MobileHotspotInfoV0, UpdateMobileInfoArgsV0,
};
use dao_emissions::error::ErrorCode;
use dao_emissions::keys::Pubkey;

fn key(id: u64) -> Pubkey {
    Pubkey { id }
}

fn mobile_settings() -> ConfigSettingsV0 {
    ConfigSettingsV0::MobileConfig {
        full_location_staking_fee: 1_000_000,
        dataonly_location_staking_fee: 500_000,
    }
}

fn iot_settings() -> ConfigSettingsV0 {
    ConfigSettingsV0::IotConfig {
        min_gain: 10,
        max_gain: 150,
        full_location_staking_fee: 1_000_000,
        dataonly_location_staking_fee: 500_000,
    }
}

fn update_args(location: Option<u64>) -> UpdateMobileInfoArgsV0 {
    UpdateMobileInfoArgsV0 { location, hash: [0; 32], root: [0; 32], index: 0 }
}

fn hotspot(is_full_hotspot: bool) -> MobileHotspotInfoV0 {
    MobileHotspotInfoV0 { asset: key(9), location: None, is_full_hotspot, num_location_asserts: 2 }
}

#[test]
fn only_mobile_settings_admit_mobile_updates() {
    assert!(mobile_settings().is_valid_mobile(update_args(Some(1))));
    assert!(!iot_settings().is_valid_mobile(update_args(Some(1))));
}

#[test]
fn config_creation_is_authority_gated() {
    let args = InitializeRewardableEntityConfigArgsV0 {
        symbol: "MOBILE".to_string(),
        settings: mobile_settings(),
    };
    let r = initialize_rewardable_entity_config(key(1), key(2), key(3), args);
    assert_eq!(r.err(), Some(ErrorCode::Unauthorized));
}

#[test]
fn config_creation_caps_the_symbol_length() {
    let args = InitializeRewardableEntityConfigArgsV0 {
        symbol: "ELEVENCHARS".to_string(),
        settings: mobile_settings(),
    };
    let r = initialize_rewardable_entity_config(key(1), key(2), key(2), args);
    assert_eq!(r.err(), Some(ErrorCode::InvalidStringLength));
}

#[test]
fn config_creation_records_the_settings() {
    let args = InitializeRewardableEntityConfigArgsV0 {
        symbol: "MOBILE".to_string(),
        settings: mobile_settings(),
    };
    let config = initialize_rewardable_entity_config(key(1), key(2), key(2), args).unwrap();
    assert_eq!(config.sub_dao, key(1));
    assert_eq!(config.authority, key(2));
    assert_eq!(config.symbol, "MOBILE");
    assert_eq!(config.settings, mobile_settings());
}

#[test]
fn full_hotspot_location_update_charges_the_full_fee() {
    let mut info = hotspot(true);
    let fee = update_mobile_info(&mut info, &mobile_settings(), Some(0xCAFE));
    assert_eq!(fee, Some(1_000_000));
    assert_eq!(info.location, Some(0xCAFE));
    assert_eq!(info.num_location_asserts, 3);
}

#[test]
fn dataonly_hotspot_location_update_charges_the_dataonly_fee() {
    let mut info = hotspot(false);
    let fee = update_mobile_info(&mut info, &mobile_settings(), Some(0xCAFE));
    assert_eq!(fee, Some(500_000));
    assert_eq!(info.num_location_asserts, 3);
}

#[test]
fn update_without_a_location_changes_nothing_and_owes_nothing() {
    let mut info = hotspot(true);
    let before = info;
    assert_eq!(update_mobile_info(&mut info, &mobile_settings(), None), None);
    assert_eq!(info, before);
}

#[test]
fn update_under_iot_settings_changes_nothing_and_owes_nothing() {
    let mut info = hotspot(true);
    let before = info;
    assert_eq!(update_mobile_info(&mut info, &iot_settings(), Some(5)), None);
    assert_eq!(info, before);
}

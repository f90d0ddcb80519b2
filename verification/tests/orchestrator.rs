use dao_emissions::circuit_breaker::{
    CircuitBreakerState, ThresholdType, WindowedCircuitBreakerConfigV0,
};
use dao_emissions::delegation::SubDaoV0;
use dao_emissions::error::ErrorCode;
use dao_emissions::keys::Pubkey;
use dao_emissions::orchestrator::{calculate, issue, DaoEpochInfoV0};
use dao_emissions::schedule::{EmissionSchedule, EmissionScheduleItem};

fn key(id: u64) -> Pubkey {
    Pubkey { id }
}

fn sub_dao(vehnt: u128, fall_rate: u128, rate: u64) -> SubDaoV0 {
    SubDaoV0 {
        dao: key(1),
        dnt_mint: key(2),
        treasury: key(3),
        delegator_pool: key(4),
        rewards_escrow: key(5),
        active_device_aggregator: key(6),
        dc_burn_authority: key(7),
        authority: key(8),
        onboarding_dc_fee: 0,
        emission_schedule: EmissionSchedule::new(vec![EmissionScheduleItem {
            start_unix_ts: 0,
            emissions_per_epoch: rate,
        }])
        .unwrap(),
        vehnt_delegated: vehnt,
        vehnt_fall_rate: fall_rate,
        vehnt_last_calculated_ts: 0,
    }
}

fn wide_open_breaker() -> (WindowedCircuitBreakerConfigV0, CircuitBreakerState) {
    let config = WindowedCircuitBreakerConfigV0 {
        window_size_seconds: 86400,
        threshold_type: ThresholdType::Absolute,
        threshold: u64::MAX,
    };
    let state = CircuitBreakerState::new(&config, key(8), 0, 0).unwrap();
    (config, state)
}

#[test]
fn calculate_commits_the_epoch_totals() {
    let mut subs = vec![sub_dao(1000, 1, 100), sub_dao(3100, 2, 100)];
    let info = calculate(key(1), &mut subs, 42, 50).unwrap();
    assert_eq!(info.dao, key(1));
    assert_eq!(info.epoch, 0);
    assert_eq!(info.total_active_devices, 42);
    // 1000 - 1*50 plus 3100 - 2*50
    assert_eq!(info.total_vehnt, 950 + 3000);
    assert!(info.done_calculating);
    assert_eq!(subs[0].vehnt_delegated, 950);
    assert_eq!(subs[1].vehnt_delegated, 3000);
    assert_eq!(subs[0].vehnt_last_calculated_ts, 50);
}

#[test]
fn calculate_twice_in_an_epoch_recommits_the_same_snapshot() {
    let mut subs = vec![sub_dao(1000, 1, 100)];
    let first = calculate(key(1), &mut subs, 42, 50).unwrap();
    let second = calculate(key(1), &mut subs, 42, 50).unwrap();
    assert_eq!(first, second);
    assert_eq!(subs[0].vehnt_delegated, 950);
}

#[test]
fn issue_before_calculate_is_refused() {
    let sd = sub_dao(1000, 0, 100);
    let (config, mut breaker) = wide_open_breaker();
    let not_ready = DaoEpochInfoV0 {
        dao: key(1),
        epoch: 0,
        total_vehnt: 0,
        total_active_devices: 0,
        done_calculating: false,
    };
    assert_eq!(
        issue(&sd, &not_ready, &mut breaker, &config, 0, 10),
        Err(ErrorCode::SnapshotNotReady)
    );
}

#[test]
fn issue_with_a_stale_snapshot_is_refused() {
    let mut subs = vec![sub_dao(1000, 0, 100)];
    let info = calculate(key(1), &mut subs, 0, 10).unwrap();
    let (config, mut breaker) = wide_open_breaker();
    // a day later the snapshot belongs to the previous epoch
    assert_eq!(
        issue(&subs[0], &info, &mut breaker, &config, 0, 86400 + 10),
        Err(ErrorCode::SnapshotNotReady)
    );
}

#[test]
fn issue_after_calculate_pays_the_proportional_share() {
    let mut subs = vec![sub_dao(1000, 0, 400), sub_dao(3000, 0, 400)];
    let info = calculate(key(1), &mut subs, 0, 10).unwrap();
    assert_eq!(info.total_vehnt, 4000);
    let (config, mut breaker) = wide_open_breaker();
    // rate 400, stake 1000 of 4000: a quarter
    assert_eq!(issue(&subs[0], &info, &mut breaker, &config, 0, 20), Ok(100));
    // rate 400, stake 3000 of 4000: three quarters
    assert_eq!(issue(&subs[1], &info, &mut breaker, &config, 0, 20), Ok(300));
    assert_eq!(breaker.accumulated_in_window, 400);
}

#[test]
fn issue_with_no_stake_anywhere_pays_nothing() {
    let mut subs = vec![sub_dao(0, 0, 400)];
    let info = calculate(key(1), &mut subs, 0, 10).unwrap();
    assert_eq!(info.total_vehnt, 0);
    let (config, mut breaker) = wide_open_breaker();
    assert_eq!(issue(&subs[0], &info, &mut breaker, &config, 0, 20), Ok(0));
}

#[test]
fn issue_without_a_scheduled_rate_is_refused() {
    let mut sd = sub_dao(1000, 0, 100);
    sd.emission_schedule = EmissionSchedule::new(vec![EmissionScheduleItem {
        start_unix_ts: 1_000_000,
        emissions_per_epoch: 100,
    }])
    .unwrap();
    let mut subs = vec![sd];
    let info = calculate(key(1), &mut subs, 0, 10).unwrap();
    let (config, mut breaker) = wide_open_breaker();
    assert_eq!(
        issue(&subs[0], &info, &mut breaker, &config, 0, 20),
        Err(ErrorCode::NoEmissionsScheduled)
    );
}

#[test]
fn issue_propagates_a_breaker_rejection_without_state_change() {
    let mut subs = vec![sub_dao(1000, 0, 400)];
    let info = calculate(key(1), &mut subs, 0, 10).unwrap();
    let config = WindowedCircuitBreakerConfigV0 {
        window_size_seconds: 86400,
        threshold_type: ThresholdType::Absolute,
        threshold: 399,
    };
    let mut breaker = CircuitBreakerState::new(&config, key(8), 0, 0).unwrap();
    let before = breaker;
    // the whole rate (stake 1000 of 1000) exceeds the threshold
    assert_eq!(
        issue(&subs[0], &info, &mut breaker, &config, 0, 20),
        Err(ErrorCode::CircuitBreakerTriggered)
    );
    assert_eq!(breaker, before);
}

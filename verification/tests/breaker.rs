use dao_emissions::circuit_breaker::{
    CircuitBreakerState, ThresholdType, WindowedCircuitBreakerConfigV0,
};
use dao_emissions::error::ErrorCode;
use dao_emissions::keys::Pubkey;

fn absolute_config(window_size_seconds: u64, threshold: u64) -> WindowedCircuitBreakerConfigV0 {
    WindowedCircuitBreakerConfigV0 {
        window_size_seconds,
        threshold_type: ThresholdType::Absolute,
        threshold,
    }
}

fn auth() -> Pubkey {
    Pubkey { id: 7 }
}

#[test]
fn window_absorbs_up_to_threshold_and_rejects_whole_requests() {
    let config = absolute_config(100, 1000);
    let mut state = CircuitBreakerState::new(&config, auth(), 0, 0).unwrap();

    assert_eq!(state.enforce(&config, 0, 0, 600), Ok(()));
    assert_eq!(state.accumulated_in_window, 600);

    let before = state;
    assert_eq!(state.enforce(&config, 0, 50, 500), Err(ErrorCode::CircuitBreakerTriggered));
    assert_eq!(state, before);

    assert_eq!(state.enforce(&config, 0, 150, 500), Ok(()));
    assert_eq!(state.accumulated_in_window, 500);
    assert_eq!(state.last_window_start_ts, 150);
}

#[test]
fn exact_threshold_is_permitted() {
    let config = absolute_config(100, 1000);
    let mut state = CircuitBreakerState::new(&config, auth(), 0, 0).unwrap();
    assert_eq!(state.enforce(&config, 0, 1, 1000), Ok(()));
    assert_eq!(state.accumulated_in_window, 1000);
    assert_eq!(state.enforce(&config, 0, 2, 1), Err(ErrorCode::CircuitBreakerTriggered));
}

#[test]
fn window_boundary_is_inclusive() {
    let config = absolute_config(100, 1000);
    let mut state = CircuitBreakerState::new(&config, auth(), 0, 0).unwrap();
    assert_eq!(state.enforce(&config, 0, 0, 1000), Ok(()));
    // at exactly window_size past the start, a fresh window opens
    assert_eq!(state.enforce(&config, 0, 100, 1000), Ok(()));
    assert_eq!(state.last_window_start_ts, 100);
    // one second earlier it would still be the old, full window
    let mut state2 = CircuitBreakerState::new(&config, auth(), 0, 0).unwrap();
    assert_eq!(state2.enforce(&config, 0, 0, 1000), Ok(()));
    assert_eq!(state2.enforce(&config, 0, 99, 1), Err(ErrorCode::CircuitBreakerTriggered));
}

#[test]
fn percent_threshold_reads_reference_balance_at_window_start() {
    let config = WindowedCircuitBreakerConfigV0 {
        window_size_seconds: 100,
        threshold_type: ThresholdType::Percent,
        threshold: 50,
    };
    let mut state = CircuitBreakerState::new(&config, auth(), 1000, 0).unwrap();
    assert_eq!(state.window_threshold, 500);
    // reference balance changes mid-window are ignored
    assert_eq!(state.enforce(&config, 9999, 10, 500), Ok(()));
    assert_eq!(state.enforce(&config, 9999, 20, 1), Err(ErrorCode::CircuitBreakerTriggered));
    // a new window re-reads it
    assert_eq!(state.enforce(&config, 200, 100, 100), Ok(()));
    assert_eq!(state.window_threshold, 100);
}

#[test]
fn percent_threshold_that_cannot_be_represented_is_an_error() {
    let config = WindowedCircuitBreakerConfigV0 {
        window_size_seconds: 100,
        threshold_type: ThresholdType::Percent,
        threshold: u64::MAX,
    };
    assert_eq!(
        CircuitBreakerState::new(&config, auth(), u64::MAX, 0).err(),
        Some(ErrorCode::ArithmeticOverflow)
    );
}

#[test]
fn zero_threshold_rejects_everything_but_zero() {
    let config = absolute_config(100, 0);
    let mut state = CircuitBreakerState::new(&config, auth(), 0, 0).unwrap();
    assert_eq!(state.enforce(&config, 0, 0, 1), Err(ErrorCode::CircuitBreakerTriggered));
    assert_eq!(state.enforce(&config, 0, 0, 0), Ok(()));
}

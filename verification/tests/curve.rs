use dao_emissions::curve::{price, Curve, SwapDirection};
use dao_emissions::error::ErrorCode;

fn exponential(k: u128) -> Curve {
    Curve::ExponentialCurveV0 { k }
}

#[test]
fn default_curve_is_linear() {
    assert_eq!(Curve::default(), exponential(1));
}

#[test]
fn linear_burn_pays_out_proportionally() {
    // reserve keeps ceil(1000 * 90 / 100) = 900, pays out 100
    assert_eq!(price(&exponential(1), 100, 1000, 10, SwapDirection::BurnSupply), Ok(100));
}

#[test]
fn linear_mint_costs_proportionally() {
    // grown reserve is 1000 * 110 / 100 = 1100, cost 100
    assert_eq!(price(&exponential(1), 100, 1000, 10, SwapDirection::MintSupply), Ok(100));
}

#[test]
fn quadratic_burn_follows_the_square() {
    // kept: ceil(100 * 5^2 / 10^2) = 25, paid out: 75
    assert_eq!(price(&exponential(2), 10, 100, 5, SwapDirection::BurnSupply), Ok(75));
}

#[test]
fn burn_rounding_favors_the_treasury() {
    // exact kept reserve is 1000 * 2/3 = 666.67, kept rounds up to 667
    assert_eq!(price(&exponential(1), 3, 1000, 1, SwapDirection::BurnSupply), Ok(333));
    // exact mint cost is 1000 * 1/3 = 333.33, cost rounds up to 334
    assert_eq!(price(&exponential(1), 3, 1000, 1, SwapDirection::MintSupply), Ok(334));
}

#[test]
fn burning_the_whole_supply_drains_the_reserve() {
    assert_eq!(price(&exponential(1), 100, 1000, 100, SwapDirection::BurnSupply), Ok(1000));
    assert_eq!(price(&exponential(3), 100, 1000, 100, SwapDirection::BurnSupply), Ok(1000));
}

#[test]
fn burning_nothing_pays_nothing() {
    assert_eq!(price(&exponential(2), 100, 1000, 0, SwapDirection::BurnSupply), Ok(0));
    assert_eq!(price(&exponential(2), 100, 1000, 0, SwapDirection::MintSupply), Ok(0));
}

#[test]
fn flat_curve_prices_everything_at_zero() {
    // with k = 0 the reserve is independent of the supply
    assert_eq!(price(&exponential(0), 100, 1000, 50, SwapDirection::BurnSupply), Ok(0));
    assert_eq!(price(&exponential(0), 100, 1000, 50, SwapDirection::MintSupply), Ok(0));
}

#[test]
fn intermediate_overflow_is_refused() {
    // 2^200 does not fit 128 bits
    assert_eq!(
        price(&exponential(200), 2, 1000, 1, SwapDirection::BurnSupply),
        Err(ErrorCode::CurveOverflow)
    );
    assert_eq!(
        price(&exponential(200), 2, 1000, 1, SwapDirection::MintSupply),
        Err(ErrorCode::CurveOverflow)
    );
}

#[test]
fn successive_small_burns_track_one_large_burn() {
    // burn 10 twice from (supply 100, reserve 1000), against burning 20 once;
    // integer rounding may keep a little more in the treasury, never less
    let first = price(&exponential(1), 100, 1000, 10, SwapDirection::BurnSupply).unwrap();
    let second =
        price(&exponential(1), 90, 1000 - first, 10, SwapDirection::BurnSupply).unwrap();
    let at_once = price(&exponential(1), 100, 1000, 20, SwapDirection::BurnSupply).unwrap();
    assert!(first + second <= at_once);
    assert_eq!(first + second, at_once);
}

use vstd::prelude::*;

use vstd::arithmetic::div_mod::{
    lemma_fundamental_div_mod,
    lemma_div_is_ordered,
    lemma_div_multiples_vanish,
    lemma_div_nonincreasing,
    lemma_div_is_strictly_smaller,
    lemma_mod_bound,
};
use vstd::arithmetic::mul::lemma_mul_inequality;
use vstd::arithmetic::power::{pow, lemma_pow_positive, lemma_pow_increases};

use crate::error::ErrorCode;

verus! {

/// The shape of a treasury's pricing curve. `ExponentialCurveV0 { k }`
/// relates the reserve to the supply as `reserve = supply^k`, conceptually:
/// pricing integrates along that curve with 128-bit integer arithmetic.
#[derive(Clone, Copy, Debug, PartialEq, Eq, Structural)]
pub enum Curve {
    ExponentialCurveV0 { k: u128 },
}

impl Default for Curve {
    /// The default curve is linear: `k = 1`.
    fn default() -> (c: Curve)
        ensures
            c == (Curve::ExponentialCurveV0 { k: 1 }),
    {
        Curve::ExponentialCurveV0 { k: 1 }
    }
}

/// Which way value moves through the treasury: burning supply-token to draw
/// reserve out, or minting supply-token by paying reserve in.
#[derive(Clone, Copy, Debug, PartialEq, Eq, Structural)]
pub enum SwapDirection {
    BurnSupply,
    MintSupply,
}

/// `x / y` rounded up. Pricing rounds in the treasury's favor: payouts
/// round down (by rounding the kept remainder up) and costs round up.
pub open spec fn spec_ceil_div(x: int, y: int) -> int {
    if x % y == 0 {
        x / y
    } else {
        x / y + 1
    }
}

/// The reserve paid out for burning `amount` of a supply of `supply`
/// against a reserve of `reserve` on a curve with exponent `k`: the reserve
/// keeps `reserve * ((supply - amount) / supply)^k`, rounded up, and the
/// rest is paid out.
pub open spec fn spec_burn_price(k: nat, supply: int, reserve: int, amount: int) -> int {
    reserve - spec_ceil_div(reserve * pow(supply - amount, k), pow(supply, k))
}

/// The reserve owed for minting `amount` new supply-tokens: the grown
/// reserve `reserve * ((supply + amount) / supply)^k` minus the present
/// one, rounded up.
pub open spec fn spec_mint_price(k: nat, supply: int, reserve: int, amount: int) -> int {
    spec_ceil_div(reserve * (pow(supply + amount, k) - pow(supply, k)), pow(supply, k))
}

/// A burn's intermediate math leaves the 128-bit range exactly when the
/// denominator `supply^k` or the numerator `reserve * (supply - amount)^k`
/// does.
pub open spec fn spec_burn_overflows(k: nat, supply: int, reserve: int, amount: int) -> bool {
    ||| pow(supply, k) > u128::MAX
    ||| reserve * pow(supply - amount, k) > u128::MAX
}

/// A mint's intermediate math leaves the safe range exactly when
/// `(supply + amount)^k` or the numerator does, or the resulting cost does
/// not fit a 64-bit amount.
pub open spec fn spec_mint_overflows(k: nat, supply: int, reserve: int, amount: int) -> bool {
    ||| pow(supply + amount, k) > u128::MAX
    ||| reserve * (pow(supply + amount, k) - pow(supply, k)) > u128::MAX
    ||| spec_mint_price(k, supply, reserve, amount) > u64::MAX
}

/// Raising a base never shrinks a power: `b1^e <= b2^e` for `0 <= b1 <= b2`.
pub proof fn lemma_pow_base_le(b1: int, b2: int, e: nat)
    requires
        0 <= b1 <= b2,
    ensures
        pow(b1, e) <= pow(b2, e),
    decreases e,
{
    if e == 0 {
        vstd::arithmetic::power::lemma_pow0(b1);
        vstd::arithmetic::power::lemma_pow0(b2);
    } else if b2 == 0 {
        vstd::arithmetic::power::lemma0_pow(e);
    } else {
        if b1 == 0 {
            vstd::arithmetic::power::lemma0_pow(e);
            lemma_pow_positive(b2, e);
        } else {
            lemma_pow_base_le(b1, b2, (e - 1) as nat);
            lemma_pow_positive(b1, (e - 1) as nat);
            lemma_pow_positive(b2, (e - 1) as nat);
            vstd::arithmetic::power::lemma_pow1(b1);
            vstd::arithmetic::power::lemma_pow1(b2);
            vstd::arithmetic::power::lemma_pow_adds(b1, 1nat, (e - 1) as nat);
            vstd::arithmetic::power::lemma_pow_adds(b2, 1nat, (e - 1) as nat);
            assert(pow(b1, e) == b1 * pow(b1, (e - 1) as nat));
            assert(pow(b2, e) == b2 * pow(b2, (e - 1) as nat));
            assert(b1 * pow(b1, (e - 1) as nat) <= b2 * pow(b2, (e - 1) as nat))
                by (nonlinear_arith)
                requires
                    0 <= b1 <= b2,
                    0 <= pow(b1, (e - 1) as nat) <= pow(b2, (e - 1) as nat),
            ;
        }
    }
}

/// Rounding up never overshoots a bound the exact quotient respects:
/// when `x <= bound * y`, also `ceil(x / y) <= bound`.
proof fn lemma_ceil_div_le(x: int, y: int, bound: int)
    requires
        y > 0,
        0 <= x,
        0 <= bound,
        x <= bound * y,
    ensures
        spec_ceil_div(x, y) <= bound,
{
    lemma_div_multiples_vanish(bound, y);
    lemma_div_is_ordered(x, bound * y, y);
    if x % y != 0 {
        lemma_fundamental_div_mod(x, y);
        lemma_mod_bound(x, y);
        if x / y == bound {
            assert(x == y * bound + x % y);
            assert(x > bound * y);
        }
    }
}

/// `ceil(x / y)` is nonnegative for nonnegative `x` and positive `y`.
proof fn lemma_ceil_div_nonneg(x: int, y: int)
    requires
        y > 0,
        0 <= x,
    ensures
        0 <= spec_ceil_div(x, y),
{
    vstd::arithmetic::div_mod::lemma_div_pos_is_pos(x, y);
}

/// `base^exp` as a 128-bit value, or `None` exactly when it does not fit.
fn checked_pow(base: u128, exp: u128) -> (r: Option<u128>)
    ensures
        match r {
            Some(p) => p == pow(base as int, exp as nat),
            None => pow(base as int, exp as nat) > u128::MAX,
        },
{
    if exp == 0 {
        proof {
            vstd::arithmetic::power::lemma_pow0(base as int);
        }
        return Some(1);
    }
    if base == 0 {
        proof {
            vstd::arithmetic::power::lemma0_pow(exp as nat);
        }
        return Some(0);
    }
    if base == 1 {
        proof {
            vstd::arithmetic::power::lemma1_pow(exp as nat);
        }
        return Some(1);
    }
    proof {
        vstd::arithmetic::power::lemma_pow0(base as int);
    }
    let mut acc: u128 = 1;
    let mut i: u128 = 0;
    while i < exp
        invariant
            2 <= base,
            i <= exp,
            acc == pow(base as int, i as nat),
        decreases exp - i,
    {
        acc = match acc.checked_mul(base) {
            Some(v) => v,
            None => {
                proof {
                    assert(pow(base as int, (i + 1) as nat) == pow(base as int, i as nat) * (
                    base as int)) by {
                        vstd::arithmetic::power::lemma_pow1(base as int);
                        vstd::arithmetic::power::lemma_pow_adds(base as int, i as nat, 1nat);
                    }
                    lemma_pow_increases(base as nat, (i + 1) as nat, exp as nat);
                }
                return None;
            },
        };
        proof {
            vstd::arithmetic::power::lemma_pow1(base as int);
            vstd::arithmetic::power::lemma_pow_adds(base as int, i as nat, 1nat);
        }
        i = i + 1;
    }
    Some(acc)
}

/// `x / y` rounded up.
fn ceil_div(x: u128, y: u128) -> (r: u128)
    requires
        y > 0,
    ensures
        r == spec_ceil_div(x as int, y as int),
{
    let q = x / y;
    let rem = x % y;
    if rem == 0 {
        q
    } else {
        proof {
            lemma_mod_bound(x as int, y as int);
            assert(y > 1) by {
                if y == 1 {
                    assert(x as int % 1int == 0) by (nonlinear_arith);
                }
            }
            assert(x > 0) by {
                if x == 0 {
                    assert(0int % (y as int) == 0) by (nonlinear_arith)
                        requires
                            y >= 1,
                    ;
                }
            }
            lemma_div_is_strictly_smaller(x as int, y as int);
            lemma_div_nonincreasing(x as int, y as int);
        }
        q + 1
    }
}

/// Prices one exchange through the treasury.
///
/// `supply` is the circulating amount of the sub-DAO token, `reserve` the
/// treasury's balance of the parent token. Burning `amount` of supply pays
/// out the reserve's decline along the curve; minting `amount` costs its
/// growth. All intermediate math is 128-bit; when it leaves that range (or
/// a mint's cost does not fit a 64-bit amount) the exchange fails with
/// `CurveOverflow` and no price is produced. A burn never pays out more
/// than the reserve holds.
pub fn price(
    curve: &Curve,
    supply: u64,
    reserve: u64,
    amount: u64,
    direction: SwapDirection,
) -> (r: Result<u64, ErrorCode>)
    requires
        supply > 0,
        direction == SwapDirection::BurnSupply ==> amount <= supply,
    ensures
        ({
            let k = curve->ExponentialCurveV0_k as nat;
            match direction {
                SwapDirection::BurnSupply => match r {
                    Ok(out) => {
                        &&& !spec_burn_overflows(k, supply as int, reserve as int, amount as int)
                        &&& out == spec_burn_price(k, supply as int, reserve as int, amount as int)
                        &&& out <= reserve
                    },
                    Err(e) => {
                        &&& e == ErrorCode::CurveOverflow
                        &&& spec_burn_overflows(k, supply as int, reserve as int, amount as int)
                    },
                },
                SwapDirection::MintSupply => match r {
                    Ok(cost) => {
                        &&& !spec_mint_overflows(k, supply as int, reserve as int, amount as int)
                        &&& cost == spec_mint_price(k, supply as int, reserve as int, amount as int)
                    },
                    Err(e) => {
                        &&& e == ErrorCode::CurveOverflow
                        &&& spec_mint_overflows(k, supply as int, reserve as int, amount as int)
                    },
                },
            }
        }),
{
    let Curve::ExponentialCurveV0 { k } = *curve;
    let ghost kn = k as nat;
    match direction {
        SwapDirection::BurnSupply => {
            let denom = match checked_pow(supply as u128, k) {
                Some(d) => d,
                None => {
                    return Err(ErrorCode::CurveOverflow);
                },
            };
            proof {
                lemma_pow_positive(supply as int, kn);
                lemma_pow_base_le((supply - amount) as int, supply as int, kn);
            }
            // (supply - amount)^k fits because supply^k already did
            let kept_pow = match checked_pow((supply - amount) as u128, k) {
                Some(p) => p,
                None => {
                    proof {
                        assert(false);
                    }
                    return Err(ErrorCode::CurveOverflow);
                },
            };
            let numer = match (reserve as u128).checked_mul(kept_pow) {
                Some(n) => n,
                None => {
                    return Err(ErrorCode::CurveOverflow);
                },
            };
            let kept = ceil_div(numer, denom);
            proof {
                lemma_mul_inequality(kept_pow as int, denom as int, reserve as int);
                assert((reserve as int) * (kept_pow as int) == (kept_pow as int) * (reserve as int))
                    by (nonlinear_arith);
                assert((reserve as int) * (denom as int) == (denom as int) * (reserve as int))
                    by (nonlinear_arith);
                lemma_ceil_div_le(numer as int, denom as int, reserve as int);
                lemma_ceil_div_nonneg(numer as int, denom as int);
            }
            Ok(reserve - (kept as u64))
        },
        SwapDirection::MintSupply => {
            let grown = match checked_pow(supply as u128 + amount as u128, k) {
                Some(p) => p,
                None => {
                    return Err(ErrorCode::CurveOverflow);
                },
            };
            proof {
                lemma_pow_positive(supply as int, kn);
                lemma_pow_base_le(supply as int, (supply + amount) as int, kn);
            }
            // supply^k fits because (supply + amount)^k already did
            let denom = match checked_pow(supply as u128, k) {
                Some(d) => d,
                None => {
                    proof {
                        assert(false);
                    }
                    return Err(ErrorCode::CurveOverflow);
                },
            };
            let numer = match (reserve as u128).checked_mul(grown - denom) {
                Some(n) => n,
                None => {
                    return Err(ErrorCode::CurveOverflow);
                },
            };
            let cost = ceil_div(numer, denom);
            proof {
                lemma_ceil_div_nonneg(numer as int, denom as int);
            }
            if cost > u64::MAX as u128 {
                return Err(ErrorCode::CurveOverflow);
            }
            Ok(cost as u64)
        },
    }
}

} // verus!

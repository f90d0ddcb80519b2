use vstd::prelude::*;

use crate::error::ErrorCode;
use crate::keys::Pubkey;

verus! {

/// How a breaker's `threshold` is read: as an absolute token amount, or as a
/// percentage of the guarded account's balance at window start.
#[derive(Clone, Copy, Debug, PartialEq, Eq, Structural)]
pub enum ThresholdType {
    Percent,
    Absolute,
}

/// Configuration of a windowed circuit breaker: transfers through the
/// guarded path are limited to an effective threshold per hopping window of
/// `window_size_seconds`.
#[derive(Clone, Copy, Debug, PartialEq, Eq, Structural)]
pub struct WindowedCircuitBreakerConfigV0 {
    pub window_size_seconds: u64,
    pub threshold_type: ThresholdType,
    pub threshold: u64,
}

/// The effective threshold a fresh window opens with, given the guarded
/// account's balance or supply at that moment: the configured amount
/// verbatim in `Absolute` mode, or `threshold` percent of the reference
/// balance in `Percent` mode.
pub open spec fn spec_effective_threshold(
    config: WindowedCircuitBreakerConfigV0,
    reference_balance: u64,
) -> int {
    match config.threshold_type {
        ThresholdType::Absolute => config.threshold as int,
        ThresholdType::Percent => (config.threshold * reference_balance) / 100,
    }
}

/// A window is over once the current time has moved `window_size_seconds`
/// or more past its start.
pub open spec fn spec_window_expired(
    state: CircuitBreakerState,
    config: WindowedCircuitBreakerConfigV0,
    ts: int,
) -> bool {
    ts >= state.last_window_start_ts + config.window_size_seconds
}

/// The threshold in force for a request at `ts`: the stored one, or a
/// fresh one from `reference_balance` when the request opens a new window.
pub open spec fn spec_threshold_at(
    state: CircuitBreakerState,
    config: WindowedCircuitBreakerConfigV0,
    reference_balance: u64,
    ts: int,
) -> int {
    if spec_window_expired(state, config, ts) {
        spec_effective_threshold(config, reference_balance)
    } else {
        state.window_threshold as int
    }
}

/// The total already accumulated against a request at `ts`: zero when the
/// request opens a new window.
pub open spec fn spec_accumulated_at(
    state: CircuitBreakerState,
    config: WindowedCircuitBreakerConfigV0,
    ts: int,
) -> int {
    if spec_window_expired(state, config, ts) {
        0
    } else {
        state.accumulated_in_window as int
    }
}

/// Whether a request of `amount` at `ts` fits: the window it lands in can
/// absorb the whole amount under its threshold (which must itself be
/// representable).
pub open spec fn spec_breaker_accepts(
    state: CircuitBreakerState,
    config: WindowedCircuitBreakerConfigV0,
    reference_balance: u64,
    ts: int,
    amount: int,
) -> bool {
    &&& spec_threshold_at(state, config, reference_balance, ts) <= u64::MAX
    &&& spec_accumulated_at(state, config, ts) + amount <= spec_threshold_at(
        state,
        config,
        reference_balance,
        ts,
    )
}

/// The state after a permitted request of `amount` at `ts`.
pub open spec fn spec_breaker_after(
    state: CircuitBreakerState,
    config: WindowedCircuitBreakerConfigV0,
    reference_balance: u64,
    ts: int,
    amount: int,
) -> CircuitBreakerState {
    CircuitBreakerState {
        last_window_start_ts: if spec_window_expired(state, config, ts) {
            ts as i64
        } else {
            state.last_window_start_ts
        },
        accumulated_in_window: (spec_accumulated_at(state, config, ts) + amount) as u64,
        window_threshold: spec_threshold_at(state, config, reference_balance, ts) as u64,
        authority: state.authority,
    }
}

/// Mutable state of one circuit breaker. The window hops: when a request
/// arrives past the window's end, a fresh window opens at the request's
/// timestamp with an accumulator of zero and a threshold fixed from the
/// reference balance read at that moment; the threshold is not re-read for
/// later requests in the same window.
#[derive(Clone, Copy, Debug, PartialEq, Eq, Structural)]
pub struct CircuitBreakerState {
    pub last_window_start_ts: i64,
    pub accumulated_in_window: u64,
    /// The effective threshold fixed when the current window opened.
    pub window_threshold: u64,
    /// The authority allowed to reconfigure this breaker.
    pub authority: Pubkey,
}

impl CircuitBreakerState {
    /// What every transfer preserves: the window's accumulated total never
    /// exceeds the threshold the window opened with.
    pub open spec fn inv(&self) -> bool {
        self.accumulated_in_window <= self.window_threshold
    }

    /// Opens a breaker with a fresh window starting at `ts`. Fails with
    /// `ArithmeticOverflow` exactly when the percent-mode threshold does
    /// not fit a 64-bit amount.
    pub fn new(
        config: &WindowedCircuitBreakerConfigV0,
        authority: Pubkey,
        reference_balance: u64,
        ts: i64,
    ) -> (r: Result<CircuitBreakerState, ErrorCode>)
        ensures
            match r {
                Ok(s) => {
                    &&& s.inv()
                    &&& s.last_window_start_ts == ts
                    &&& s.accumulated_in_window == 0
                    &&& s.window_threshold == spec_effective_threshold(*config, reference_balance)
                    &&& s.authority == authority
                },
                Err(e) => {
                    &&& e == ErrorCode::ArithmeticOverflow
                    &&& spec_effective_threshold(*config, reference_balance) > u64::MAX
                },
            },
    {
        let threshold = match effective_threshold(config, reference_balance) {
            Some(t) => t,
            None => {
                return Err(ErrorCode::ArithmeticOverflow);
            },
        };
        Ok(CircuitBreakerState {
            last_window_start_ts: ts,
            accumulated_in_window: 0,
            window_threshold: threshold,
            authority,
        })
    }

    /// Decides one guarded transfer of `amount` at time `ts`.
    ///
    /// When the current window is over, a fresh one opens at `ts` with a
    /// threshold fixed from `reference_balance`. A request that would push
    /// the window's total past its threshold is rejected whole with
    /// `CircuitBreakerTriggered`: the state, including the accumulator, is
    /// left exactly as it was. A permitted request adds its full amount to
    /// the accumulator. The caller moves funds only on `Ok`.
    pub fn enforce(
        &mut self,
        config: &WindowedCircuitBreakerConfigV0,
        reference_balance: u64,
        ts: i64,
        amount: u64,
    ) -> (r: Result<(), ErrorCode>)
        requires
            old(self).inv(),
            old(self).last_window_start_ts <= ts,
        ensures
            final(self).inv(),
            final(self).authority == old(self).authority,
            match r {
                Ok(()) => {
                    &&& spec_breaker_accepts(*old(self), *config, reference_balance, ts as int, amount as int)
                    &&& *final(self) == spec_breaker_after(*old(self), *config, reference_balance, ts as int, amount as int)
                },
                Err(ErrorCode::CircuitBreakerTriggered) => {
                    &&& spec_threshold_at(*old(self), *config, reference_balance, ts as int) <= u64::MAX
                    &&& !spec_breaker_accepts(*old(self), *config, reference_balance, ts as int, amount as int)
                    &&& *final(self) == *old(self)
                },
                Err(ErrorCode::ArithmeticOverflow) => {
                    &&& spec_threshold_at(*old(self), *config, reference_balance, ts as int) > u64::MAX
                    &&& *final(self) == *old(self)
                },
                Err(_) => false,
            },
    {
        let expired = (ts as i128) - (self.last_window_start_ts as i128)
            >= config.window_size_seconds as i128;
        let (window_threshold, accumulated): (u64, u64) = if expired {
            match effective_threshold(config, reference_balance) {
                Some(t) => (t, 0),
                None => {
                    return Err(ErrorCode::ArithmeticOverflow);
                },
            }
        } else {
            (self.window_threshold, self.accumulated_in_window)
        };
        if amount > window_threshold || accumulated > window_threshold - amount {
            return Err(ErrorCode::CircuitBreakerTriggered);
        }
        if expired {
            self.last_window_start_ts = ts;
        }
        self.window_threshold = window_threshold;
        self.accumulated_in_window = accumulated + amount;
        Ok(())
    }
}

/// The effective threshold as a 64-bit amount, or `None` when the
/// percent-mode product does not fit.
fn effective_threshold(
    config: &WindowedCircuitBreakerConfigV0,
    reference_balance: u64,
) -> (r: Option<u64>)
    ensures
        match r {
            Some(t) => t == spec_effective_threshold(*config, reference_balance),
            None => spec_effective_threshold(*config, reference_balance) > u64::MAX,
        },
{
    match config.threshold_type {
        ThresholdType::Absolute => Some(config.threshold),
        ThresholdType::Percent => {
            proof {
                assert((config.threshold as int) * (reference_balance as int)
                    <= (u64::MAX as int) * (u64::MAX as int)) by (nonlinear_arith)
                    requires
                        config.threshold <= u64::MAX,
                        reference_balance <= u64::MAX,
                ;
            }
            let wide: u128 = (config.threshold as u128) * (reference_balance as u128) / 100;
            if wide > u64::MAX as u128 {
                None
            } else {
                Some(wide as u64)
            }
        },
    }
}

/// The total a window ends up permitting out of a sequence of requested
/// amounts, processed in order against a fixed threshold: each request is
/// added whole when it fits and contributes nothing when it does not.
pub open spec fn spec_permitted_sum(threshold: int, requests: Seq<u64>) -> int
    decreases requests.len(),
{
    if requests.len() == 0 {
        0
    } else {
        let prev = spec_permitted_sum(threshold, requests.drop_last());
        if prev + requests.last() <= threshold {
            prev + requests.last()
        } else {
            prev
        }
    }
}

/// One more request moves the permitted total exactly as the breaker
/// decides it: added whole when the window can absorb it on top of what it
/// already permitted, and not at all otherwise. Together with the bound
/// below, this ties the running accumulator to `spec_permitted_sum`.
pub proof fn lemma_permitted_sum_step(threshold: int, requests: Seq<u64>, amount: u64)
    ensures
        spec_permitted_sum(threshold, requests.push(amount)) == if spec_permitted_sum(
            threshold,
            requests,
        ) + amount <= threshold {
            spec_permitted_sum(threshold, requests) + amount
        } else {
            spec_permitted_sum(threshold, requests)
        },
{
    assert(requests.push(amount).drop_last() =~= requests);
}

/// For any sequence of transfer requests within one window, the sum of the
/// permitted amounts never exceeds the window's effective threshold; every
/// request that would exceed it is rejected whole and contributes nothing.
pub proof fn lemma_window_sum_bounded(threshold: int, requests: Seq<u64>)
    requires
        threshold >= 0,
    ensures
        0 <= spec_permitted_sum(threshold, requests) <= threshold,
    decreases requests.len(),
{
    if requests.len() > 0 {
        lemma_window_sum_bounded(threshold, requests.drop_last());
    }
}

} // verus!

use vstd::prelude::*;

use crate::error::ErrorCode;

verus! {

/// Length of one epoch in seconds (one day). Epochs partition nonnegative
/// unix time into fixed windows; reward calculation and issuance are batched
/// per epoch.
pub const EPOCH_LENGTH: i64 = 60 * 60 * 24;

/// The epoch index a timestamp falls in: `floor(ts / EPOCH_LENGTH)`.
pub open spec fn spec_current_epoch(ts: int) -> int {
    ts / (EPOCH_LENGTH as int)
}

/// The first second of an epoch: `epoch * EPOCH_LENGTH`.
pub open spec fn spec_epoch_start(epoch: int) -> int {
    epoch * (EPOCH_LENGTH as int)
}

/// The epoch index that `ts` falls in.
pub fn current_epoch(ts: i64) -> (epoch: u64)
    requires
        0 <= ts,
    ensures
        epoch == spec_current_epoch(ts as int),
{
    (ts / EPOCH_LENGTH) as u64
}

/// The first second of epoch `epoch`, or `TimestampOverflow` when that
/// second is past the representable range.
pub fn epoch_start(epoch: u64) -> (r: Result<i64, ErrorCode>)
    ensures
        match r {
            Ok(ts) => ts == spec_epoch_start(epoch as int),
            Err(e) => {
                &&& e == ErrorCode::TimestampOverflow
                &&& spec_epoch_start(epoch as int) > i64::MAX
            },
        },
{
    proof {
        assert((epoch as int) * (EPOCH_LENGTH as int) <= (u64::MAX as int) * (EPOCH_LENGTH as int))
            by (nonlinear_arith)
            requires
                epoch <= u64::MAX,
        ;
    }
    let wide: u128 = (epoch as u128) * (EPOCH_LENGTH as u128);
    if wide > i64::MAX as u128 {
        Err(ErrorCode::TimestampOverflow)
    } else {
        Ok(wide as i64)
    }
}

/// The first second of the epoch after the one `ts` falls in; this is the
/// next deadline at which the scheduler is expected to fire. Always fits in
/// a `u64`, since it is at most `ts + EPOCH_LENGTH`.
pub fn next_epoch_ts(ts: i64) -> (next: u64)
    requires
        0 <= ts,
    ensures
        next == spec_epoch_start(spec_current_epoch(ts as int) + 1),
        ts < next <= ts + EPOCH_LENGTH,
{
    proof {
        lemma_epoch_round_trip(ts as int);
    }
    let e: u64 = (ts / EPOCH_LENGTH) as u64;
    assert((e + 1) * (EPOCH_LENGTH as int) == spec_epoch_start(spec_current_epoch(ts as int) + 1));
    (e + 1) * (EPOCH_LENGTH as u64)
}

/// An epoch's window contains exactly the timestamps from its start up to,
/// but not including, the next epoch's start.
pub proof fn lemma_epoch_round_trip(ts: int)
    requires
        0 <= ts,
    ensures
        spec_epoch_start(spec_current_epoch(ts)) <= ts,
        ts < spec_epoch_start(spec_current_epoch(ts) + 1),
        spec_epoch_start(spec_current_epoch(ts) + 1) <= ts + EPOCH_LENGTH,
{
    let l = EPOCH_LENGTH as int;
    vstd::arithmetic::div_mod::lemma_fundamental_div_mod(ts, l);
    vstd::arithmetic::div_mod::lemma_mod_bound(ts, l);
    assert((ts / l + 1) * l == (ts / l) * l + l) by (nonlinear_arith);
}

} // verus!

use vstd::prelude::*;

use crate::circuit_breaker::{
    spec_breaker_accepts, spec_breaker_after, spec_threshold_at, CircuitBreakerState,
    WindowedCircuitBreakerConfigV0,
};
use crate::delegation::{
    lemma_decay_bounds, lemma_decay_zero_elapsed, spec_decayed_vehnt, spec_recalculated, SubDaoV0,
};
use crate::epoch::spec_current_epoch;
use crate::error::ErrorCode;
use crate::keys::Pubkey;
use crate::schedule::spec_rate_at;

verus! {

/// The per-epoch snapshot record of a DAO, committed by `calculate` and
/// read by `issue`. Addressed by `dao_epoch_info_key(dao, epoch)`;
/// `done_calculating` is the readiness mark the conditional scheduler
/// trigger watches for.
#[derive(Clone, Copy, Debug, PartialEq, Eq, Structural)]
pub struct DaoEpochInfoV0 {
    pub dao: Pubkey,
    pub epoch: u64,
    /// Delegated stake summed over all sub-DAOs, as of this epoch's
    /// recalculation.
    pub total_vehnt: u128,
    /// The active-device metric read from the oracle at recalculation.
    pub total_active_devices: u64,
    /// True once the totals above are committed; `issue` refuses to run
    /// before that.
    pub done_calculating: bool,
}

/// The delegated stake the sub-DAOs hold in total once every ledger is
/// brought up to `ts`.
pub open spec fn spec_total_decayed(subs: Seq<SubDaoV0>, ts: int) -> int
    decreases subs.len(),
{
    if subs.len() == 0 {
        0
    } else {
        spec_total_decayed(subs.drop_last(), ts) + spec_decayed_vehnt(
            subs.last().vehnt_delegated,
            subs.last().vehnt_fall_rate,
            ts - subs.last().vehnt_last_calculated_ts,
        )
    }
}

/// Every partial sum of decayed stakes is below the whole: what a prefix
/// contributes can only grow as more sub-DAOs are added.
proof fn lemma_total_decayed_prefix(subs: Seq<SubDaoV0>, ts: int, i: int)
    requires
        0 <= i <= subs.len(),
        forall|j: int|
            0 <= j < subs.len() ==> #[trigger] subs[j].vehnt_last_calculated_ts <= ts,
    ensures
        spec_total_decayed(subs.subrange(0, i), ts) <= spec_total_decayed(subs, ts),
    decreases subs.len(),
{
    if i < subs.len() {
        let front = subs.drop_last();
        assert(subs.subrange(0, i) =~= front.subrange(0, i));
        lemma_total_decayed_prefix(front, ts, i);
        lemma_decay_bounds(
            subs.last().vehnt_delegated,
            subs.last().vehnt_fall_rate,
            ts - subs.last().vehnt_last_calculated_ts,
        );
    } else {
        assert(subs.subrange(0, i) =~= subs);
    }
}

/// Recalculating the ledgers is idempotent in the aggregate as well: once
/// every sub-DAO is brought up to `ts`, a repeated `calculate` at the same
/// `ts` sees the same decayed total and so recommits an identical
/// snapshot.
pub proof fn lemma_calculate_idempotent(subs: Seq<SubDaoV0>, ts: i64)
    requires
        forall|j: int|
            0 <= j < subs.len() ==> #[trigger] subs[j].vehnt_last_calculated_ts <= ts,
    ensures
        spec_total_decayed(
            subs.map_values(|s: SubDaoV0| spec_recalculated(s, ts as int)),
            ts as int,
        ) == spec_total_decayed(subs, ts as int),
    decreases subs.len(),
{
    if subs.len() > 0 {
        let mapped = subs.map_values(|s: SubDaoV0| spec_recalculated(s, ts as int));
        assert(mapped.drop_last() =~= subs.drop_last().map_values(
            |s: SubDaoV0| spec_recalculated(s, ts as int),
        ));
        lemma_calculate_idempotent(subs.drop_last(), ts);
        let last = subs.last();
        lemma_decay_bounds(
            last.vehnt_delegated,
            last.vehnt_fall_rate,
            ts - last.vehnt_last_calculated_ts,
        );
        assert(mapped.last() == spec_recalculated(last, ts as int));
        let m = spec_recalculated(last, ts as int);
        lemma_decay_zero_elapsed(m.vehnt_delegated, m.vehnt_fall_rate);
        assert(m.vehnt_delegated == spec_decayed_vehnt(
            last.vehnt_delegated,
            last.vehnt_fall_rate,
            ts - last.vehnt_last_calculated_ts,
        ));
    }
}

/// First orchestrator entry point, fired by the periodic scheduler shortly
/// after each epoch boundary.
///
/// Brings every sub-DAO's delegation ledger up to `ts` and commits the
/// epoch's snapshot: the epoch index, the decayed stake total, and the
/// active-device metric, marked ready for issuance. Nothing is mutated on
/// failure, and repeating the call within the same epoch recommits the
/// identical snapshot, so the entry point is safe to invoke more than
/// once. Fails with `ArithmeticOverflow` exactly when the stake total does
/// not fit 128 bits.
pub fn calculate(
    dao_key: Pubkey,
    sub_daos: &mut Vec<SubDaoV0>,
    total_active_devices: u64,
    ts: i64,
) -> (r: Result<DaoEpochInfoV0, ErrorCode>)
    requires
        0 <= ts,
        forall|j: int|
            0 <= j < old(sub_daos)@.len() ==> #[trigger] old(
                sub_daos,
            )@[j].vehnt_last_calculated_ts <= ts,
    ensures
        match r {
            Ok(info) => {
                &&& info.dao == dao_key
                &&& info.epoch == spec_current_epoch(ts as int)
                &&& info.total_vehnt == spec_total_decayed(old(sub_daos)@, ts as int)
                &&& info.total_active_devices == total_active_devices
                &&& info.done_calculating
                &&& final(sub_daos)@.len() == old(sub_daos)@.len()
                &&& forall|j: int|
                    0 <= j < old(sub_daos)@.len() ==> #[trigger] final(sub_daos)@[j]
                        == spec_recalculated(old(sub_daos)@[j], ts as int)
            },
            Err(e) => {
                &&& e == ErrorCode::ArithmeticOverflow
                &&& spec_total_decayed(old(sub_daos)@, ts as int) > u128::MAX
                &&& *final(sub_daos) == *old(sub_daos)
            },
        },
{
    let n = sub_daos.len();
    let mut total: u128 = 0;
    let mut i: usize = 0;
    while i < n
        invariant
            i <= n,
            n == sub_daos@.len(),
            forall|j: int|
                0 <= j < sub_daos@.len() ==> #[trigger] sub_daos@[j].vehnt_last_calculated_ts
                    <= ts,
            total == spec_total_decayed(sub_daos@.subrange(0, i as int), ts as int),
        decreases n - i,
    {
        let part = sub_daos[i].decayed_vehnt_at(ts);
        proof {
            assert(sub_daos@.subrange(0, i + 1).drop_last() =~= sub_daos@.subrange(0, i as int));
            assert(sub_daos@.subrange(0, i + 1).last() == sub_daos@[i as int]);
            lemma_total_decayed_prefix(sub_daos@, ts as int, i + 1);
        }
        total = match total.checked_add(part) {
            Some(t) => t,
            None => {
                return Err(ErrorCode::ArithmeticOverflow);
            },
        };
        i = i + 1;
    }
    proof {
        assert(sub_daos@.subrange(0, n as int) =~= sub_daos@);
    }
    let mut i: usize = 0;
    while i < n
        invariant
            i <= n,
            n == sub_daos@.len(),
            n == old(sub_daos)@.len(),
            forall|j: int|
                0 <= j < old(sub_daos)@.len() ==> #[trigger] old(
                    sub_daos,
                )@[j].vehnt_last_calculated_ts <= ts,
            forall|j: int|
                i <= j < sub_daos@.len() ==> #[trigger] sub_daos@[j] == old(sub_daos)@[j],
            forall|j: int|
                0 <= j < i ==> #[trigger] sub_daos@[j] == spec_recalculated(
                    old(sub_daos)@[j],
                    ts as int,
                ),
        decreases n - i,
    {
        sub_daos[i].recalculate_vehnt(ts);
        i = i + 1;
    }
    let epoch = crate::epoch::current_epoch(ts);
    Ok(DaoEpochInfoV0 {
        dao: dao_key,
        epoch,
        total_vehnt: total,
        total_active_devices,
        done_calculating: true,
    })
}

/// The share of an epoch's authorized rate a sub-DAO is owed: proportional
/// to its delegated stake against the snapshot's total, and zero when no
/// stake is delegated anywhere.
pub open spec fn spec_epoch_share(rate: u64, vehnt: u128, total_vehnt: u128) -> int {
    if total_vehnt == 0 {
        0
    } else {
        rate * vehnt / (total_vehnt as int)
    }
}

/// Second orchestrator entry point, fired once a DAO's snapshot record
/// reads ready.
///
/// Looks up the schedule's rate for `ts`, takes the sub-DAO's proportional
/// share of it from the snapshot, and passes that amount through the
/// sub-DAO's circuit breaker. The caller mints exactly the returned amount
/// into the rewards escrow, and only on `Ok`.
///
/// Fails with `SnapshotNotReady` exactly when the snapshot is absent for
/// the current epoch: not yet calculated, or left over from an earlier
/// epoch. Fails with `NoEmissionsScheduled` when the schedule authorizes
/// nothing at `ts`, with `ArithmeticOverflow` when the share arithmetic
/// leaves its range, and with `CircuitBreakerTriggered` when the breaker
/// rejects the transfer: the whole issuance is refused, never partially
/// fulfilled, and the breaker's accumulator is unchanged on every failure.
pub fn issue(
    sub_dao: &SubDaoV0,
    info: &DaoEpochInfoV0,
    breaker: &mut CircuitBreakerState,
    config: &WindowedCircuitBreakerConfigV0,
    reference_balance: u64,
    ts: i64,
) -> (r: Result<u64, ErrorCode>)
    requires
        0 <= ts,
        info.dao == sub_dao.dao,
        old(breaker).inv(),
        old(breaker).last_window_start_ts <= ts,
    ensures
        final(breaker).inv(),
        ({
            let ready = info.done_calculating && info.epoch == spec_current_epoch(ts as int);
            let rate_opt = spec_rate_at(sub_dao.emission_schedule@, ts as int);
            let share = spec_epoch_share(
                rate_opt.unwrap(),
                sub_dao.vehnt_delegated,
                info.total_vehnt,
            );
            match r {
                Ok(amount) => {
                    &&& ready
                    &&& rate_opt is Some
                    &&& amount == share
                    &&& spec_breaker_accepts(
                        *old(breaker),
                        *config,
                        reference_balance,
                        ts as int,
                        share,
                    )
                    &&& *final(breaker) == spec_breaker_after(
                        *old(breaker),
                        *config,
                        reference_balance,
                        ts as int,
                        share,
                    )
                },
                Err(e) => {
                    &&& *final(breaker) == *old(breaker)
                    &&& match e {
                        ErrorCode::SnapshotNotReady => !ready,
                        ErrorCode::NoEmissionsScheduled => ready && rate_opt is None,
                        ErrorCode::ArithmeticOverflow => {
                            &&& ready
                            &&& rate_opt is Some
                            &&& {
                                ||| rate_opt.unwrap() * sub_dao.vehnt_delegated > u128::MAX
                                ||| share > u64::MAX
                                ||| spec_threshold_at(
                                    *old(breaker),
                                    *config,
                                    reference_balance,
                                    ts as int,
                                ) > u64::MAX
                            }
                        },
                        ErrorCode::CircuitBreakerTriggered => {
                            &&& ready
                            &&& rate_opt is Some
                            &&& share <= u64::MAX
                            &&& !spec_breaker_accepts(
                                *old(breaker),
                                *config,
                                reference_balance,
                                ts as int,
                                share,
                            )
                        },
                        _ => false,
                    }
                },
            }
        }),
{
    let epoch = crate::epoch::current_epoch(ts);
    if !info.done_calculating || info.epoch != epoch {
        return Err(ErrorCode::SnapshotNotReady);
    }
    let rate = match sub_dao.emission_schedule.rate_at(ts) {
        Ok(rate) => rate,
        Err(e) => {
            return Err(e);
        },
    };
    let share: u128 = if info.total_vehnt == 0 {
        0
    } else {
        let numer = match (rate as u128).checked_mul(sub_dao.vehnt_delegated) {
            Some(v) => v,
            None => {
                return Err(ErrorCode::ArithmeticOverflow);
            },
        };
        numer / info.total_vehnt
    };
    if share > u64::MAX as u128 {
        return Err(ErrorCode::ArithmeticOverflow);
    }
    let amount = share as u64;
    match breaker.enforce(config, reference_balance, ts, amount) {
        Ok(()) => Ok(amount),
        Err(e) => Err(e),
    }
}

} // verus!

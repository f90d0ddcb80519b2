use vstd::prelude::*;

use crate::circuit_breaker::{ThresholdType, WindowedCircuitBreakerConfigV0};
use crate::curve::Curve;
use crate::delegation::{DaoV0, SubDaoV0};
use crate::epoch::EPOCH_LENGTH;
use crate::error::ErrorCode;
use crate::keys::Pubkey;
use crate::schedule::{
    schedule_well_formed, spec_rate_at, EmissionSchedule, EmissionScheduleItem,
};

verus! {

/// What an authorized actor supplies to create a sub-DAO.
pub struct InitializeSubDaoArgsV0 {
    pub authority: Pubkey,
    pub emission_schedule: Vec<EmissionScheduleItem>,
    /// Curve shape handed on to the treasury that pairs the sub-DAO token
    /// with the parent token.
    pub treasury_curve: Curve,
    /// Breaker configuration handed on to the treasury's guarded account.
    pub treasury_window_config: WindowedCircuitBreakerConfigV0,
    pub onboarding_dc_fee: u64,
    /// Authority to burn delegated data credits.
    pub dc_burn_authority: Pubkey,
}

/// The long-lived accounts a new sub-DAO is wired to.
#[derive(Clone, Copy, Debug, PartialEq, Eq, Structural)]
pub struct SubDaoAccountKeys {
    pub dao: Pubkey,
    pub dnt_mint: Pubkey,
    pub treasury: Pubkey,
    pub delegator_pool: Pubkey,
    pub rewards_escrow: Pubkey,
    pub active_device_aggregator: Pubkey,
}

/// A partial update of a sub-DAO's mutable settings: absent fields are left
/// as they are.
pub struct UpdateSubDaoArgsV0 {
    pub authority: Option<Pubkey>,
    pub emission_schedule: Option<Vec<EmissionScheduleItem>>,
    pub onboarding_dc_fee: Option<u64>,
    pub dc_burn_authority: Option<Pubkey>,
    pub active_device_aggregator: Option<Pubkey>,
}

/// The breaker configuration a sub-DAO's guarded paths open with: an
/// absolute threshold of five epochs' worth of the schedule's current rate
/// per one-epoch window. Distribution happens once per epoch, so a correct
/// pipeline stays well under it; five epochs bound the damage of any single
/// mistake. Fails as the rate lookup does, or with `ArithmeticOverflow`
/// when five times the rate does not fit a 64-bit amount.
pub fn epoch_breaker_config(
    schedule: &EmissionSchedule,
    curr_ts: i64,
) -> (r: Result<WindowedCircuitBreakerConfigV0, ErrorCode>)
    ensures
        match r {
            Ok(config) => {
                &&& spec_rate_at(schedule@, curr_ts as int) matches Some(rate)
                    && config.threshold == 5 * rate
                &&& config.threshold_type == ThresholdType::Absolute
                &&& config.window_size_seconds == EPOCH_LENGTH as u64
            },
            Err(ErrorCode::NoEmissionsScheduled) => spec_rate_at(schedule@, curr_ts as int) is None,
            Err(ErrorCode::ArithmeticOverflow) => spec_rate_at(schedule@, curr_ts as int) matches Some(
                rate,
            ) && 5 * rate > u64::MAX,
            Err(_) => false,
        },
{
    let rate = match schedule.rate_at(curr_ts) {
        Ok(rate) => rate,
        Err(e) => {
            return Err(e);
        },
    };
    let threshold = match rate.checked_mul(5) {
        Some(t) => t,
        None => {
            return Err(ErrorCode::ArithmeticOverflow);
        },
    };
    Ok(WindowedCircuitBreakerConfigV0 {
        window_size_seconds: EPOCH_LENGTH as u64,
        threshold_type: ThresholdType::Absolute,
        threshold,
    })
}

/// Creates a sub-DAO under `dao` at time `curr_ts`.
///
/// The submitted schedule must be strictly increasing, else the creation
/// fails whole with `InvalidSchedule`. On success the DAO's sub-DAO count
/// grows by one and the new record starts with no delegated stake, no fall
/// rate, and its ledger current as of `curr_ts`. Fails with
/// `ArithmeticOverflow` when the count is exhausted; the DAO is untouched
/// on every failure.
pub fn initialize_sub_dao(
    dao: &mut DaoV0,
    keys: SubDaoAccountKeys,
    args: InitializeSubDaoArgsV0,
    curr_ts: i64,
) -> (r: Result<SubDaoV0, ErrorCode>)
    ensures
        match r {
            Ok(s) => {
                &&& schedule_well_formed(args.emission_schedule@)
                &&& old(dao).num_sub_daos < u32::MAX
                &&& *final(dao) == (DaoV0 {
                    num_sub_daos: (old(dao).num_sub_daos + 1) as u32,
                    ..*old(dao)
                })
                &&& s.dao == keys.dao
                &&& s.dnt_mint == keys.dnt_mint
                &&& s.treasury == keys.treasury
                &&& s.delegator_pool == keys.delegator_pool
                &&& s.rewards_escrow == keys.rewards_escrow
                &&& s.active_device_aggregator == keys.active_device_aggregator
                &&& s.authority == args.authority
                &&& s.dc_burn_authority == args.dc_burn_authority
                &&& s.onboarding_dc_fee == args.onboarding_dc_fee
                &&& s.emission_schedule@ == args.emission_schedule@
                &&& s.emission_schedule.well_formed()
                &&& s.vehnt_delegated == 0
                &&& s.vehnt_fall_rate == 0
                &&& s.vehnt_last_calculated_ts == curr_ts
            },
            Err(e) => {
                &&& *final(dao) == *old(dao)
                &&& match e {
                    ErrorCode::InvalidSchedule => !schedule_well_formed(args.emission_schedule@),
                    ErrorCode::ArithmeticOverflow => schedule_well_formed(args.emission_schedule@)
                        && old(dao).num_sub_daos == u32::MAX,
                    _ => false,
                }
            },
        },
{
    let schedule = match EmissionSchedule::new(args.emission_schedule) {
        Ok(s) => s,
        Err(e) => {
            return Err(e);
        },
    };
    if dao.num_sub_daos == u32::MAX {
        return Err(ErrorCode::ArithmeticOverflow);
    }
    dao.add_sub_dao();
    Ok(SubDaoV0 {
        dao: keys.dao,
        dnt_mint: keys.dnt_mint,
        treasury: keys.treasury,
        delegator_pool: keys.delegator_pool,
        rewards_escrow: keys.rewards_escrow,
        active_device_aggregator: keys.active_device_aggregator,
        dc_burn_authority: args.dc_burn_authority,
        authority: args.authority,
        onboarding_dc_fee: args.onboarding_dc_fee,
        emission_schedule: schedule,
        vehnt_delegated: 0,
        vehnt_fall_rate: 0,
        vehnt_last_calculated_ts: curr_ts,
    })
}

/// Applies a partial update to a sub-DAO's settings.
///
/// Only the stored authority may mutate the record; anyone else is turned
/// away with `Unauthorized`. A replacement schedule must be strictly
/// increasing, else the whole update fails with `InvalidSchedule`. Either
/// failure leaves every field untouched; on success exactly the supplied
/// fields change, and the ledger and wiring fields never do.
pub fn update_sub_dao(
    sub_dao: &mut SubDaoV0,
    signer: Pubkey,
    args: UpdateSubDaoArgsV0,
) -> (r: Result<(), ErrorCode>)
    ensures
        match r {
            Ok(()) => {
                &&& old(sub_dao).authority == signer
                &&& final(sub_dao).authority == (match args.authority {
                    Some(a) => a,
                    None => old(sub_dao).authority,
                })
                &&& final(sub_dao).emission_schedule@ == (match args.emission_schedule {
                    Some(items) => items@,
                    None => old(sub_dao).emission_schedule@,
                })
                &&& (args.emission_schedule is Some
                    ==> final(sub_dao).emission_schedule.well_formed())
                &&& (args.emission_schedule is None ==> final(sub_dao).emission_schedule == old(
                    sub_dao,
                ).emission_schedule)
                &&& final(sub_dao).onboarding_dc_fee == (match args.onboarding_dc_fee {
                    Some(f) => f,
                    None => old(sub_dao).onboarding_dc_fee,
                })
                &&& final(sub_dao).dc_burn_authority == (match args.dc_burn_authority {
                    Some(a) => a,
                    None => old(sub_dao).dc_burn_authority,
                })
                &&& final(sub_dao).active_device_aggregator == (match args.active_device_aggregator {
                    Some(a) => a,
                    None => old(sub_dao).active_device_aggregator,
                })
                &&& final(sub_dao).dao == old(sub_dao).dao
                &&& final(sub_dao).dnt_mint == old(sub_dao).dnt_mint
                &&& final(sub_dao).treasury == old(sub_dao).treasury
                &&& final(sub_dao).delegator_pool == old(sub_dao).delegator_pool
                &&& final(sub_dao).rewards_escrow == old(sub_dao).rewards_escrow
                &&& final(sub_dao).vehnt_delegated == old(sub_dao).vehnt_delegated
                &&& final(sub_dao).vehnt_fall_rate == old(sub_dao).vehnt_fall_rate
                &&& final(sub_dao).vehnt_last_calculated_ts == old(
                    sub_dao,
                ).vehnt_last_calculated_ts
            },
            Err(e) => {
                &&& *final(sub_dao) == *old(sub_dao)
                &&& match e {
                    ErrorCode::Unauthorized => old(sub_dao).authority != signer,
                    ErrorCode::InvalidSchedule => {
                        &&& old(sub_dao).authority == signer
                        &&& args.emission_schedule matches Some(items)
                            && !schedule_well_formed(items@)
                    },
                    _ => false,
                }
            },
        },
{
    if sub_dao.authority != signer {
        return Err(ErrorCode::Unauthorized);
    }
    let new_schedule: Option<EmissionSchedule> = match args.emission_schedule {
        Some(items) => match EmissionSchedule::new(items) {
            Ok(s) => Some(s),
            Err(e) => {
                return Err(e);
            },
        },
        None => None,
    };
    if let Some(a) = args.authority {
        sub_dao.authority = a;
    }
    if let Some(s) = new_schedule {
        sub_dao.emission_schedule = s;
    }
    if let Some(f) = args.onboarding_dc_fee {
        sub_dao.onboarding_dc_fee = f;
    }
    if let Some(a) = args.dc_burn_authority {
        sub_dao.dc_burn_authority = a;
    }
    if let Some(a) = args.active_device_aggregator {
        sub_dao.active_device_aggregator = a;
    }
    Ok(())
}

} // verus!

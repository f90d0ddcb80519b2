use vstd::prelude::*;

use crate::error::ErrorCode;
use crate::keys::Pubkey;
use crate::schedule::EmissionSchedule;

verus! {

/// The parent organization's record: its primary mint, its data-credit
/// mint, the authority gating mutations, and a count of sub-DAOs created
/// under it. The count only ever grows; there is no deletion path.
#[derive(Clone, Copy, Debug, PartialEq, Eq, Structural)]
pub struct DaoV0 {
    pub hnt_mint: Pubkey,
    pub dc_mint: Pubkey,
    pub authority: Pubkey,
    pub num_sub_daos: u32,
}

impl DaoV0 {
    /// Records one more sub-DAO under this DAO.
    pub fn add_sub_dao(&mut self)
        requires
            old(self).num_sub_daos < u32::MAX,
        ensures
            *final(self) == (DaoV0 { num_sub_daos: (old(self).num_sub_daos + 1) as u32, ..*old(self) }),
    {
        self.num_sub_daos = self.num_sub_daos + 1;
    }
}

/// A sub-organization's economic state: the references the host needs to
/// move funds, the emission schedule governing its mint rate, and the
/// delegated-stake ledger with its linear decay.
#[derive(Clone, Debug)]
pub struct SubDaoV0 {
    /// The DAO this sub-DAO belongs to.
    pub dao: Pubkey,
    /// The sub-DAO's own token mint.
    pub dnt_mint: Pubkey,
    /// The treasury holding the reserve paired against `dnt_mint`.
    pub treasury: Pubkey,
    /// The pool that delegator rewards are paid from.
    pub delegator_pool: Pubkey,
    /// The escrow that minted rewards land in.
    pub rewards_escrow: Pubkey,
    /// The oracle feed of the active-device metric.
    pub active_device_aggregator: Pubkey,
    /// Authority allowed to burn delegated data credits.
    pub dc_burn_authority: Pubkey,
    /// Authority gating every mutation of this record.
    pub authority: Pubkey,
    /// Data-credit fee for onboarding one device.
    pub onboarding_dc_fee: u64,
    /// The mint rates this sub-DAO is authorized over time.
    pub emission_schedule: EmissionSchedule,
    /// Delegated stake as of `vehnt_last_calculated_ts`, after decay.
    pub vehnt_delegated: u128,
    /// How much `vehnt_delegated` falls per second.
    pub vehnt_fall_rate: u128,
    /// The timestamp the ledger was last brought up to.
    pub vehnt_last_calculated_ts: i64,
}

/// What a stake of `vehnt` decays to after `elapsed` seconds at `fall_rate`
/// per second: the decline is linear and saturates at zero, never negative.
pub open spec fn spec_decayed_vehnt(vehnt: u128, fall_rate: u128, elapsed: int) -> int {
    if fall_rate * elapsed >= vehnt {
        0
    } else {
        vehnt - fall_rate * elapsed
    }
}

/// The decayed total stays between zero and the total it started from.
pub proof fn lemma_decay_bounds(vehnt: u128, fall_rate: u128, elapsed: int)
    requires
        elapsed >= 0,
    ensures
        0 <= spec_decayed_vehnt(vehnt, fall_rate, elapsed) <= vehnt,
{
    assert(fall_rate * elapsed >= 0) by (nonlinear_arith)
        requires
            fall_rate >= 0,
            elapsed >= 0,
    ;
}

/// A sub-DAO's state once its ledger is brought up to `ts`: the delegated
/// total decayed over the gap, the reference timestamp moved to `ts`, and
/// every other field untouched.
pub open spec fn spec_recalculated(s: SubDaoV0, ts: int) -> SubDaoV0 {
    SubDaoV0 {
        vehnt_delegated: spec_decayed_vehnt(
            s.vehnt_delegated,
            s.vehnt_fall_rate,
            ts - s.vehnt_last_calculated_ts,
        ) as u128,
        vehnt_last_calculated_ts: ts as i64,
        ..s
    }
}

impl SubDaoV0 {
    /// What the delegated total will read once brought up to `ts`, without
    /// touching the ledger.
    pub fn decayed_vehnt_at(&self, ts: i64) -> (v: u128)
        requires
            self.vehnt_last_calculated_ts <= ts,
        ensures
            v == spec_decayed_vehnt(
                self.vehnt_delegated,
                self.vehnt_fall_rate,
                ts - self.vehnt_last_calculated_ts,
            ),
    {
        let elapsed: u128 = ((ts as i128) - (self.vehnt_last_calculated_ts as i128)) as u128;
        let decayed = match self.vehnt_fall_rate.checked_mul(elapsed) {
            Some(d) => d,
            None => {
                proof {
                    assert(self.vehnt_fall_rate * elapsed > u128::MAX ==> self.vehnt_fall_rate
                        * elapsed >= self.vehnt_delegated);
                }
                return 0;
            },
        };
        if decayed >= self.vehnt_delegated {
            0
        } else {
            self.vehnt_delegated - decayed
        }
    }

    /// Brings the delegated-stake ledger up to `ts`: the total falls by
    /// `vehnt_fall_rate` for each elapsed second, saturating at zero, and
    /// `ts` becomes the new reference point. All other fields are
    /// untouched. Invoked once per epoch before issuance reads the total,
    /// and before any external stake change, so decay is never counted
    /// twice across a gap.
    pub fn recalculate_vehnt(&mut self, ts: i64)
        requires
            old(self).vehnt_last_calculated_ts <= ts,
        ensures
            *final(self) == spec_recalculated(*old(self), ts as int),
    {
        self.vehnt_delegated = self.decayed_vehnt_at(ts);
        self.vehnt_last_calculated_ts = ts;
    }
}

/// Over zero elapsed time nothing decays.
pub proof fn lemma_decay_zero_elapsed(vehnt: u128, fall_rate: u128)
    ensures
        spec_decayed_vehnt(vehnt, fall_rate, 0) == vehnt,
{
}

/// Recalculating is idempotent: once the ledger has been brought up to
/// `ts`, recalculating again at the same `ts` sees zero elapsed time and
/// is a no-op.
pub proof fn lemma_recalculate_idempotent(s: SubDaoV0, ts: i64)
    requires
        s.vehnt_last_calculated_ts <= ts,
    ensures
        spec_recalculated(spec_recalculated(s, ts as int), ts as int) == spec_recalculated(
            s,
            ts as int,
        ),
{
    let s1 = spec_recalculated(s, ts as int);
    lemma_decay_zero_elapsed(s1.vehnt_delegated, s1.vehnt_fall_rate);
}

} // verus!

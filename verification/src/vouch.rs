//! The trust-weighting engine and the vouching operation.
//!
//! A vouch is a reputation-backed endorsement (positive) or challenge
//! (negative) by one agent toward another. Its impact is the staked base
//! amount scaled by the voucher's trust weight: a basis-point multiplier that
//! grows linearly with the voucher's reputation above the protocol threshold
//! and is capped by a fixed ceiling.

use vstd::prelude::*;

use crate::errors::ReputationError;
use crate::math::{apply_bps, bps_scale, sat_add, sat_mul, sat_sub, saturating_mul};
use crate::state::{AccountId, AgentProfile, ProtocolConfig};

verus! {

/// Neutral trust weight: 1.0x in basis points.
pub const NEUTRAL_TRUST_WEIGHT_BPS: u64 = 10000;

/// Fixed ceiling on the vouch trust weight: 3.0x in basis points.
pub const MAX_VOUCH_TRUST_MULTIPLIER_BPS: u64 = 30000;

/// One record per (voucher, vouched-for) pair; re-vouching overwrites the
/// same record. The reputation snapshot and weight are frozen at vouch time
/// and never recomputed.
#[derive(Clone, Debug)]
pub struct WeightedVouchRecord {
    pub voucher: AccountId,
    pub vouched_for: AccountId,
    /// Raw stake requested.
    pub base_amount: u64,
    /// Actual reputation impact after trust-weighting.
    pub weighted_amount: u64,
    /// Snapshot of the voucher's reputation, for auditability.
    pub voucher_reputation_at_time: u64,
    /// Basis points; at least 10000.
    pub trust_weight: u64,
    pub is_positive: bool,
    pub created_at: u64,
    pub last_updated: u64,
}

/// The trust weight, in basis points, of a voucher with reputation `r` under
/// threshold `t` and ceiling `m`: neutral (10000) at or below the threshold,
/// otherwise 10000 plus a bonus scaling the excess linearly, capped at `m`.
/// A zero threshold yields no excess scaling.
pub open spec fn trust_weight_spec(r: u64, t: u64, m: u64) -> u64 {
    if r <= t || t == 0 {
        10000u64
    } else {
        let bonus = sat_mul((r - t) as u64, sat_sub(m, 10000)) / t;
        let weight = sat_add(10000, bonus);
        if weight <= m {
            weight
        } else {
            m
        }
    }
}

/// Computes a voucher's trust multiplier from its reputation. All arithmetic
/// saturates; a zero threshold is treated as "no excess scaling" rather than
/// a fault.
pub fn calculate_trust_weight(
    voucher_reputation: u64,
    min_threshold: u64,
    max_bonus_multiplier: u64,
) -> (w: u64)
    ensures
        w == trust_weight_spec(voucher_reputation, min_threshold, max_bonus_multiplier),
{
    if voucher_reputation <= min_threshold || min_threshold == 0 {
        return NEUTRAL_TRUST_WEIGHT_BPS;
    }
    let excess = voucher_reputation - min_threshold;
    let bonus = saturating_mul(excess, max_bonus_multiplier.saturating_sub(10000)) / min_threshold;
    let weight = bonus.saturating_add(10000);
    if weight <= max_bonus_multiplier {
        weight
    } else {
        max_bonus_multiplier
    }
}

/// The reputation impact of a vouch: `base_amount * trust_weight / 10000`,
/// saturating, with flooring division.
pub fn calculate_weighted_impact(base_amount: u64, trust_weight: u64) -> (r: u64)
    ensures
        r == bps_scale(base_amount, trust_weight),
{
    apply_bps(base_amount, trust_weight)
}

/// For all `r <= t` the weight is exactly neutral.
pub proof fn lemma_trust_weight_neutral_at_or_below_threshold(r: u64, t: u64, m: u64)
    requires
        r <= t,
    ensures
        trust_weight_spec(r, t, m) == 10000,
{
}

/// Under a valid ceiling (`m >= 10000`, as the protocol configuration
/// guarantees) the weight always lies between neutral and the ceiling.
pub proof fn lemma_trust_weight_bounded(r: u64, t: u64, m: u64)
    requires
        m >= 10000,
    ensures
        10000 <= trust_weight_spec(r, t, m),
        trust_weight_spec(r, t, m) <= m,
{
}

/// The trust weight is monotonically non-decreasing in the voucher's
/// reputation, for any valid ceiling.
pub proof fn lemma_trust_weight_monotonic(r1: u64, r2: u64, t: u64, m: u64)
    requires
        r1 <= r2,
        m >= 10000,
    ensures
        trust_weight_spec(r1, t, m) <= trust_weight_spec(r2, t, m),
{
    if r2 <= t || t == 0 {
        // Both sides are neutral.
    } else if r1 <= t {
        lemma_trust_weight_bounded(r2, t, m);
    } else {
        let k = sat_sub(m, 10000);
        let e1 = (r1 - t) as u64;
        let e2 = (r2 - t) as u64;
        assert(e1 * k <= e2 * k) by (nonlinear_arith)
            requires
                e1 <= e2,
        ;
        let p1 = sat_mul(e1, k);
        let p2 = sat_mul(e2, k);
        assert(p1 <= p2);
        vstd::arithmetic::div_mod::lemma_div_is_ordered(p1 as int, p2 as int, t as int);
        assert(p1 / t <= p2 / t);
    }
}

/// Applies a weighted vouch. On success the vouch record is rebuilt with a
/// frozen snapshot and weight, the target's score moves by the weighted
/// amount (saturating either way) with the matching vouch counter bumped, and
/// the voucher's staked amount grows by the raw stake. The caller persists
/// the record and, for a positive vouch, transfers the stake to escrow
/// through the token custody collaborator. Self-vouching always fails,
/// whatever the reputation involved.
pub fn vouch_weighted(
    voucher: AccountId,
    vouched_for: AccountId,
    voucher_profile: &mut AgentProfile,
    vouched_for_profile: &mut AgentProfile,
    config: &ProtocolConfig,
    amount: u64,
    is_positive: bool,
    now: u64,
) -> (r: Result<WeightedVouchRecord, ReputationError>)
    ensures
        match r {
            Ok(rec) => {
                &&& voucher != vouched_for
                &&& old(voucher_profile).reputation_score >= config.min_reputation_for_vouching
                &&& amount > 0
                &&& rec.voucher == voucher
                &&& rec.vouched_for == vouched_for
                &&& rec.base_amount == amount
                &&& rec.trust_weight == trust_weight_spec(
                    old(voucher_profile).reputation_score,
                    config.min_reputation_for_vouching,
                    MAX_VOUCH_TRUST_MULTIPLIER_BPS,
                )
                &&& rec.weighted_amount == bps_scale(amount, rec.trust_weight)
                &&& rec.voucher_reputation_at_time == old(voucher_profile).reputation_score
                &&& rec.is_positive == is_positive
                &&& rec.created_at == now
                &&& rec.last_updated == now
                &&& final(vouched_for_profile).reputation_score == (if is_positive {
                    sat_add(old(vouched_for_profile).reputation_score, rec.weighted_amount)
                } else {
                    sat_sub(old(vouched_for_profile).reputation_score, rec.weighted_amount)
                })
                &&& final(vouched_for_profile).positive_vouches == (if is_positive {
                    sat_add(old(vouched_for_profile).positive_vouches, 1)
                } else {
                    old(vouched_for_profile).positive_vouches
                })
                &&& final(vouched_for_profile).negative_vouches == (if is_positive {
                    old(vouched_for_profile).negative_vouches
                } else {
                    sat_add(old(vouched_for_profile).negative_vouches, 1)
                })
                &&& final(vouched_for_profile).owner == old(vouched_for_profile).owner
                &&& final(vouched_for_profile).name@ == old(vouched_for_profile).name@
                &&& final(vouched_for_profile).total_tasks_completed == old(
                    vouched_for_profile,
                ).total_tasks_completed
                &&& final(vouched_for_profile).last_activity_timestamp == old(
                    vouched_for_profile,
                ).last_activity_timestamp
                &&& final(vouched_for_profile).is_active == old(vouched_for_profile).is_active
                &&& final(vouched_for_profile).staked_amount == old(
                    vouched_for_profile,
                ).staked_amount
                &&& final(voucher_profile).staked_amount == sat_add(
                    old(voucher_profile).staked_amount,
                    amount,
                )
                &&& final(voucher_profile).owner == old(voucher_profile).owner
                &&& final(voucher_profile).name@ == old(voucher_profile).name@
                &&& final(voucher_profile).reputation_score == old(
                    voucher_profile,
                ).reputation_score
                &&& final(voucher_profile).total_tasks_completed == old(
                    voucher_profile,
                ).total_tasks_completed
                &&& final(voucher_profile).last_activity_timestamp == old(
                    voucher_profile,
                ).last_activity_timestamp
                &&& final(voucher_profile).is_active == old(voucher_profile).is_active
                &&& final(voucher_profile).positive_vouches == old(
                    voucher_profile,
                ).positive_vouches
                &&& final(voucher_profile).negative_vouches == old(
                    voucher_profile,
                ).negative_vouches
            },
            Err(e) => {
                &&& *final(voucher_profile) == *old(voucher_profile)
                &&& *final(vouched_for_profile) == *old(vouched_for_profile)
                &&& if voucher == vouched_for {
                    e == ReputationError::SelfVouchNotAllowed
                } else if old(voucher_profile).reputation_score
                    < config.min_reputation_for_vouching {
                    e == ReputationError::InsufficientReputation
                } else {
                    amount == 0 && e == ReputationError::InvalidReputationAmount
                }
            },
        },
{
    if voucher == vouched_for {
        return Err(ReputationError::SelfVouchNotAllowed);
    }
    if voucher_profile.reputation_score < config.min_reputation_for_vouching {
        return Err(ReputationError::InsufficientReputation);
    }
    if amount == 0 {
        return Err(ReputationError::InvalidReputationAmount);
    }

    let trust_weight = calculate_trust_weight(
        voucher_profile.reputation_score,
        config.min_reputation_for_vouching,
        MAX_VOUCH_TRUST_MULTIPLIER_BPS,
    );
    let weighted_amount = calculate_weighted_impact(amount, trust_weight);

    let record = WeightedVouchRecord {
        voucher,
        vouched_for,
        base_amount: amount,
        weighted_amount,
        voucher_reputation_at_time: voucher_profile.reputation_score,
        trust_weight,
        is_positive,
        created_at: now,
        last_updated: now,
    };

    if is_positive {
        vouched_for_profile.reputation_score = vouched_for_profile
            .reputation_score
            .saturating_add(weighted_amount);
        vouched_for_profile.positive_vouches = vouched_for_profile.positive_vouches.saturating_add(
            1,
        );
    } else {
        vouched_for_profile.reputation_score = vouched_for_profile
            .reputation_score
            .saturating_sub(weighted_amount);
        vouched_for_profile.negative_vouches = vouched_for_profile.negative_vouches.saturating_add(
            1,
        );
    }
    voucher_profile.staked_amount = voucher_profile.staked_amount.saturating_add(amount);

    Ok(record)
}

/// Vouches for another agent: a positive weighted vouch.
pub fn vouch_for(
    voucher: AccountId,
    vouched_for: AccountId,
    voucher_profile: &mut AgentProfile,
    vouched_for_profile: &mut AgentProfile,
    config: &ProtocolConfig,
    amount: u64,
    now: u64,
) -> (r: Result<WeightedVouchRecord, ReputationError>)
    ensures
        match r {
            Ok(rec) => rec.is_positive && final(vouched_for_profile).reputation_score == sat_add(
                old(vouched_for_profile).reputation_score,
                rec.weighted_amount,
            ) && rec.weighted_amount == bps_scale(amount, rec.trust_weight)
                && rec.trust_weight == trust_weight_spec(
                old(voucher_profile).reputation_score,
                config.min_reputation_for_vouching,
                MAX_VOUCH_TRUST_MULTIPLIER_BPS,
            ) && rec.base_amount == amount && final(voucher_profile).staked_amount == sat_add(
                old(voucher_profile).staked_amount,
                amount,
            ),
            Err(e) => {
                &&& *final(voucher_profile) == *old(voucher_profile)
                &&& *final(vouched_for_profile) == *old(vouched_for_profile)
                &&& if voucher == vouched_for {
                    e == ReputationError::SelfVouchNotAllowed
                } else if old(voucher_profile).reputation_score
                    < config.min_reputation_for_vouching {
                    e == ReputationError::InsufficientReputation
                } else {
                    amount == 0 && e == ReputationError::InvalidReputationAmount
                }
            },
        },
{
    vouch_weighted(
        voucher,
        vouched_for,
        voucher_profile,
        vouched_for_profile,
        config,
        amount,
        true,
        now,
    )
}

/// Challenges another agent: a negative weighted vouch. The target's score
/// saturates at zero; no stake transfer accompanies a challenge.
pub fn vouch_against(
    voucher: AccountId,
    vouched_for: AccountId,
    voucher_profile: &mut AgentProfile,
    vouched_for_profile: &mut AgentProfile,
    config: &ProtocolConfig,
    amount: u64,
    now: u64,
) -> (r: Result<WeightedVouchRecord, ReputationError>)
    ensures
        match r {
            Ok(rec) => !rec.is_positive && final(vouched_for_profile).reputation_score == sat_sub(
                old(vouched_for_profile).reputation_score,
                rec.weighted_amount,
            ) && rec.weighted_amount == bps_scale(amount, rec.trust_weight)
                && rec.trust_weight == trust_weight_spec(
                old(voucher_profile).reputation_score,
                config.min_reputation_for_vouching,
                MAX_VOUCH_TRUST_MULTIPLIER_BPS,
            ) && rec.base_amount == amount,
            Err(e) => {
                &&& *final(voucher_profile) == *old(voucher_profile)
                &&& *final(vouched_for_profile) == *old(vouched_for_profile)
                &&& if voucher == vouched_for {
                    e == ReputationError::SelfVouchNotAllowed
                } else if old(voucher_profile).reputation_score
                    < config.min_reputation_for_vouching {
                    e == ReputationError::InsufficientReputation
                } else {
                    amount == 0 && e == ReputationError::InvalidReputationAmount
                }
            },
        },
{
    vouch_weighted(
        voucher,
        vouched_for,
        voucher_profile,
        vouched_for_profile,
        config,
        amount,
        false,
        now,
    )
}

/// Decides whether a vouch stake may be withdrawn: only once the lockup
/// window measured from the record's creation has elapsed. The stake return
/// itself is performed by the token custody collaborator.
pub fn can_withdraw_vouch(
    record: &WeightedVouchRecord,
    config: &ProtocolConfig,
    now: u64,
) -> (r: Result<(), ReputationError>)
    ensures
        r is Ok <==> now >= sat_add(record.created_at, config.vouch_lockup_period),
        r is Err ==> r == Err::<(), ReputationError>(ReputationError::LockupNotExpired),
{
    if now >= record.created_at.saturating_add(config.vouch_lockup_period) {
        Ok(())
    } else {
        Err(ReputationError::LockupNotExpired)
    }
}

} // verus!

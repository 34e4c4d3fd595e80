//! The trust-propagation engine: a bounded, EigenTrust-style aggregation of
//! incoming vouches into a reputation update.
//!
//! Each incoming vouch is a `(voucher, voucher_reputation, trust_weight)`
//! triple. The trust flow divides each voucher's weighted reputation by the
//! total incoming reputation, the damped recurrence mixes that flow with the
//! current score, and two guards keep the update safe to expose to
//! adversaries: the score never decreases, and a single invocation never
//! adds more than 10% of the current score.

use vstd::prelude::*;

use crate::errors::ReputationError;
use crate::math::{sat_add, sat_mul, sat_sub, saturating_mul};
use crate::state::{AccountId, AgentProfile};

verus! {

/// Damping factor alpha of the recurrence, in basis points: 0.15.
pub const PROPAGATION_ALPHA_BPS: u64 = 1500;

/// One minus alpha, in basis points: 0.85.
pub const PROPAGATION_ONE_MINUS_ALPHA_BPS: u64 = 8500;

/// The saturating sum of the voucher reputations of the incoming vouches.
pub open spec fn total_incoming_reputation(vouches: Seq<(AccountId, u64, u64)>) -> u64
    decreases vouches.len(),
{
    if vouches.len() == 0 {
        0u64
    } else {
        sat_add(total_incoming_reputation(vouches.drop_last()), vouches.last().1)
    }
}

/// The saturating sum of each vouch's contribution
/// `voucher_reputation * trust_weight / total`, for a positive total.
pub open spec fn trust_flow(vouches: Seq<(AccountId, u64, u64)>, total: u64) -> u64
    decreases vouches.len(),
{
    if vouches.len() == 0 {
        0u64
    } else {
        sat_add(
            trust_flow(vouches.drop_last(), total),
            sat_mul(vouches.last().1, vouches.last().2) / total,
        )
    }
}

/// The damped recurrence: `flow * (1 - alpha) + score * alpha`, in basis
/// points, all arithmetic saturating.
pub open spec fn propagated_reputation(score: u64, flow: u64) -> u64 {
    sat_add(
        sat_mul(flow, PROPAGATION_ONE_MINUS_ALPHA_BPS) / 10000u64,
        sat_mul(score, PROPAGATION_ALPHA_BPS) / 10000u64,
    )
}

/// The score after one propagation pass: unchanged unless the recurrence
/// would raise it, and raised by at most a tenth of its current value.
pub open spec fn propagation_result(score: u64, vouches: Seq<(AccountId, u64, u64)>) -> u64 {
    let total = total_incoming_reputation(vouches);
    let flow = if total > 0 {
        trust_flow(vouches, total)
    } else {
        0u64
    };
    let propagated = propagated_reputation(score, flow);
    if propagated > score {
        sat_add(score, if sat_sub(propagated, score) <= score / 10 {
            sat_sub(propagated, score)
        } else {
            score / 10
        })
    } else {
        score
    }
}

/// Propagation can only raise a score, and by no more than 10% of its
/// pre-update value, whatever the incoming vouch set contains.
pub proof fn lemma_propagation_bounded(score: u64, vouches: Seq<(AccountId, u64, u64)>)
    ensures
        propagation_result(score, vouches) >= score,
        propagation_result(score, vouches) <= score + score / 10,
{
}

/// Applies one propagation pass to the target profile. The activity
/// timestamp moves to `now` exactly when the score changes; a pass that
/// cannot raise the score is a designed no-op, not an error. Re-invoking
/// with the same vouch set cannot compound past the 10%-per-call cap.
pub fn propagate_trust(
    profile: &mut AgentProfile,
    incoming_vouches: &Vec<(AccountId, u64, u64)>,
    now: u64,
) -> (r: Result<(), ReputationError>)
    ensures
        r is Ok,
        final(profile).reputation_score == propagation_result(
            old(profile).reputation_score,
            incoming_vouches@,
        ),
        final(profile).reputation_score >= old(profile).reputation_score,
        final(profile).reputation_score <= old(profile).reputation_score + old(
            profile).reputation_score / 10,
        final(profile).reputation_score != old(profile).reputation_score ==> final(
            profile).last_activity_timestamp == now,
        final(profile).reputation_score == old(profile).reputation_score ==> *final(profile)
            == *old(profile),
        final(profile).owner == old(profile).owner,
        final(profile).name@ == old(profile).name@,
        final(profile).total_tasks_completed == old(profile).total_tasks_completed,
        final(profile).is_active == old(profile).is_active,
        final(profile).positive_vouches == old(profile).positive_vouches,
        final(profile).negative_vouches == old(profile).negative_vouches,
        final(profile).staked_amount == old(profile).staked_amount,
{
    let n = incoming_vouches.len();

    let mut total_reputation: u64 = 0;
    let mut i: usize = 0;
    while i < n
        invariant
            i <= n,
            n == incoming_vouches@.len(),
            total_reputation == total_incoming_reputation(incoming_vouches@.take(i as int)),
        decreases n - i,
    {
        proof {
            assert(incoming_vouches@.take(i + 1).drop_last() =~= incoming_vouches@.take(i as int));
        }
        total_reputation = total_reputation.saturating_add(incoming_vouches[i].1);
        i = i + 1;
    }
    proof {
        assert(incoming_vouches@.take(n as int) =~= incoming_vouches@);
    }

    let mut flow: u64 = 0;
    if total_reputation > 0 {
        let mut j: usize = 0;
        while j < n
            invariant
                j <= n,
                n == incoming_vouches@.len(),
                total_reputation > 0,
                flow == trust_flow(incoming_vouches@.take(j as int), total_reputation),
            decreases n - j,
        {
            proof {
                assert(incoming_vouches@.take(j + 1).drop_last() =~= incoming_vouches@.take(
                    j as int,
                ));
            }
            let contribution = saturating_mul(incoming_vouches[j].1, incoming_vouches[j].2)
                / total_reputation;
            flow = flow.saturating_add(contribution);
            j = j + 1;
        }
        proof {
            assert(incoming_vouches@.take(n as int) =~= incoming_vouches@);
        }
    }

    let propagated = saturating_mul(flow, PROPAGATION_ONE_MINUS_ALPHA_BPS) / 10000;
    let propagated = propagated.saturating_add(
        saturating_mul(profile.reputation_score, PROPAGATION_ALPHA_BPS) / 10000,
    );

    if propagated > profile.reputation_score {
        let increase = propagated - profile.reputation_score;
        let max_increase = profile.reputation_score / 10;
        let capped_increase = if increase <= max_increase {
            increase
        } else {
            max_increase
        };
        profile.reputation_score = profile.reputation_score.saturating_add(capped_increase);
        if capped_increase > 0 {
            profile.last_activity_timestamp = now;
        }
    }

    Ok(())
}

} // verus!

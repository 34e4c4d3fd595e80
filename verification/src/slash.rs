//! The slashing engine: punitive reputation reduction for misconduct, with
//! a bounty carve-out computed for the reporting party.
//!
//! The penalty is proportional to the target's current score, so agents
//! with more standing have more to lose. The engine only computes the
//! bounty; its transfer is delegated to the token custody collaborator.
//! Evidence is referenced by an opaque hash the engine never interprets.

use vstd::prelude::*;

use crate::errors::ReputationError;
use crate::math::{bps_scale, sat_sub, apply_bps};
use crate::state::AgentProfile;

verus! {

/// Reputation a slasher must hold before it may slash.
pub const MIN_REPUTATION_TO_SLASH: u64 = 5000;

/// Base slash rate in basis points: 20% of the target's score.
pub const SLASH_RATE_BPS: u64 = 2000;

/// Bounty rate in basis points: 5% of the slashed amount.
pub const SLASH_BOUNTY_BPS: u64 = 500;

/// Floor below which a slashed profile is deactivated.
pub const MIN_ACTIVE_SCORE: u64 = 100;

/// What a successful slash did: the reputation removed from the target and
/// the bounty owed to the slasher by the token custody collaborator.
#[derive(Clone, Copy, Debug, PartialEq, Eq, Structural)]
pub struct SlashOutcome {
    pub slash_amount: u64,
    pub bounty: u64,
}

/// Slashes a misbehaving agent. Requires the slasher to hold at least
/// `MIN_REPUTATION_TO_SLASH` reputation; removes `SLASH_RATE_BPS` of the
/// target's score (saturating), deactivates the target if it falls below
/// `MIN_ACTIVE_SCORE`, and reports a `SLASH_BOUNTY_BPS` bounty on the
/// removed amount. The opaque evidence hash is recorded by the caller, not
/// interpreted here.
pub fn slash_agent(
    slasher_profile: &AgentProfile,
    target_profile: &mut AgentProfile,
    _evidence_hash: &Vec<u8>,
) -> (r: Result<SlashOutcome, ReputationError>)
    ensures
        match r {
            Ok(outcome) => {
                &&& slasher_profile.reputation_score >= MIN_REPUTATION_TO_SLASH
                &&& outcome.slash_amount == bps_scale(
                    old(target_profile).reputation_score,
                    SLASH_RATE_BPS,
                )
                &&& outcome.bounty == bps_scale(outcome.slash_amount, SLASH_BOUNTY_BPS)
                &&& final(target_profile).reputation_score == sat_sub(
                    old(target_profile).reputation_score,
                    outcome.slash_amount,
                )
                &&& final(target_profile).is_active == (if final(target_profile).reputation_score
                    < MIN_ACTIVE_SCORE {
                    false
                } else {
                    old(target_profile).is_active
                })
                &&& final(target_profile).owner == old(target_profile).owner
                &&& final(target_profile).name@ == old(target_profile).name@
                &&& final(target_profile).total_tasks_completed == old(
                    target_profile).total_tasks_completed
                &&& final(target_profile).last_activity_timestamp == old(
                    target_profile).last_activity_timestamp
                &&& final(target_profile).positive_vouches == old(target_profile).positive_vouches
                &&& final(target_profile).negative_vouches == old(target_profile).negative_vouches
                &&& final(target_profile).staked_amount == old(target_profile).staked_amount
            },
            Err(e) => {
                &&& *final(target_profile) == *old(target_profile)
                &&& slasher_profile.reputation_score < MIN_REPUTATION_TO_SLASH
                &&& e == ReputationError::InsufficientReputation
            },
        },
{
    if slasher_profile.reputation_score < MIN_REPUTATION_TO_SLASH {
        return Err(ReputationError::InsufficientReputation);
    }

    let slash_amount = apply_bps(target_profile.reputation_score, SLASH_RATE_BPS);
    target_profile.reputation_score = target_profile.reputation_score.saturating_sub(
        slash_amount,
    );
    if target_profile.reputation_score < MIN_ACTIVE_SCORE {
        target_profile.is_active = false;
    }

    let bounty = apply_bps(slash_amount, SLASH_BOUNTY_BPS);
    Ok(SlashOutcome { slash_amount, bounty })
}

} // verus!

//! The decay engine: time-based score reduction that penalizes inactivity.
//!
//! The reduction is proportional to the score, the configured daily rate in
//! basis points, and the number of whole days elapsed since the last
//! activity. Decay is rate-limited: a second application within the cooldown
//! window fails loudly with `DecayCooldown` rather than silently doing
//! nothing, so skipped decay stays visible to callers.

use vstd::prelude::*;

use crate::errors::ReputationError;
use crate::math::{sat_mul, sat_sub, saturating_mul};
use crate::state::{AgentProfile, ProtocolConfig};

verus! {

/// Seconds per day; also the cooldown window: decay applies at most once a
/// day, since applying it refreshes the activity timestamp.
pub const SECONDS_PER_DAY: u64 = 86400;

/// Whole days elapsed between the last activity and `now`.
pub open spec fn elapsed_days(last_activity: u64, now: u64) -> u64 {
    sat_sub(now, last_activity) / SECONDS_PER_DAY
}

/// The score lost to decay: `score * rate * days / 10000`, saturating.
pub open spec fn decay_reduction(score: u64, rate_bps: u64, days: u64) -> u64 {
    sat_mul(sat_mul(score, rate_bps), days) / 10000u64
}

/// Applies decay once per cooldown window. Less than one whole day since the
/// last activity fails with `DecayCooldown` and leaves the profile
/// untouched; otherwise the reduction is saturating-subtracted from the
/// score and the activity timestamp moves to `now`, which is what arms the
/// cooldown for the next call.
pub fn apply_decay(profile: &mut AgentProfile, config: &ProtocolConfig, now: u64) -> (r: Result<
    (),
    ReputationError,
>)
    ensures
        match r {
            Ok(()) => {
                &&& elapsed_days(old(profile).last_activity_timestamp, now) >= 1
                &&& final(profile).reputation_score == sat_sub(
                    old(profile).reputation_score,
                    decay_reduction(
                        old(profile).reputation_score,
                        config.decay_rate_per_day,
                        elapsed_days(old(profile).last_activity_timestamp, now),
                    ),
                )
                &&& final(profile).reputation_score <= old(profile).reputation_score
                &&& final(profile).last_activity_timestamp == now
                &&& final(profile).owner == old(profile).owner
                &&& final(profile).name@ == old(profile).name@
                &&& final(profile).total_tasks_completed == old(profile).total_tasks_completed
                &&& final(profile).is_active == old(profile).is_active
                &&& final(profile).positive_vouches == old(profile).positive_vouches
                &&& final(profile).negative_vouches == old(profile).negative_vouches
                &&& final(profile).staked_amount == old(profile).staked_amount
            },
            Err(e) => {
                &&& *final(profile) == *old(profile)
                &&& elapsed_days(old(profile).last_activity_timestamp, now) == 0
                &&& e == ReputationError::DecayCooldown
            },
        },
{
    let elapsed = now.saturating_sub(profile.last_activity_timestamp);
    let days = elapsed / SECONDS_PER_DAY;
    if days == 0 {
        return Err(ReputationError::DecayCooldown);
    }

    let reduction = saturating_mul(
        saturating_mul(profile.reputation_score, config.decay_rate_per_day),
        days,
    ) / 10000;
    profile.reputation_score = profile.reputation_score.saturating_sub(reduction);
    profile.last_activity_timestamp = now;
    Ok(())
}

} // verus!

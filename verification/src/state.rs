//! The core data model: identity keys, agent profiles, and the protocol
//! configuration singleton, together with the profile-level operations
//! (registration, task completion, reading the score).

use vstd::prelude::*;

use crate::errors::ReputationError;
use crate::math::sat_add;

verus! {

/// A byte-stable identity key. Every record (agent profile, vouch record,
/// proposal, oracle) is addressed by one; the engines require only
/// exact-match comparison, so the key is held as a plain integer.
#[derive(Clone, Copy, Debug, PartialEq, Eq, Hash, Structural)]
pub struct AccountId {
    pub key: u64,
}

/// Names are bounded-length byte strings of at most this many bytes.
pub const MAX_NAME_LEN: usize = 50;

/// Task identifiers are bounded-length byte strings of at most this many bytes.
pub const MAX_TASK_ID_LEN: usize = 100;

/// One mutable reputation record per registered agent.
#[derive(Clone, Debug)]
pub struct AgentProfile {
    pub owner: AccountId,
    /// UTF-8 name bytes, at most `MAX_NAME_LEN` of them.
    pub name: Vec<u8>,
    /// Never negative: every decrease saturates at 0.
    pub reputation_score: u64,
    pub total_tasks_completed: u64,
    /// UNIX-epoch seconds of the last scoring activity.
    pub last_activity_timestamp: u64,
    pub is_active: bool,
    pub positive_vouches: u64,
    pub negative_vouches: u64,
    /// Sum of outstanding vouch stakes placed by this agent; only ever
    /// increases here (withdrawal is an external operation).
    pub staked_amount: u64,
}

impl AgentProfile {
    pub open spec fn wf(self) -> bool {
        self.name@.len() <= MAX_NAME_LEN
    }
}

/// Process-wide protocol parameters, mutated only by governance execution.
#[derive(Clone, Copy, Debug, PartialEq, Eq, Structural)]
pub struct ProtocolConfig {
    pub min_reputation_for_vouching: u64,
    /// Basis points of score lost per day of inactivity; at most 1000 (10%).
    pub decay_rate_per_day: u64,
    /// Seconds a vouch stake stays locked.
    pub vouch_lockup_period: u64,
    pub slash_threshold: u64,
    /// Basis points; within [10000, 50000], i.e. between 1x and 5x.
    pub max_trust_multiplier: u64,
}

impl ProtocolConfig {
    pub open spec fn wf(self) -> bool {
        &&& self.decay_rate_per_day <= 1000
        &&& 10000 <= self.max_trust_multiplier <= 50000
    }
}

/// Validates a configuration before the protocol starts using it. The
/// storage collaborator persists the returned singleton; afterwards only
/// `execute_proposal` may change it.
pub fn initialize(config: ProtocolConfig) -> (r: Result<ProtocolConfig, ReputationError>)
    ensures
        match r {
            Ok(c) => config.wf() && c == config,
            Err(e) => !config.wf() && e == ReputationError::InvalidParameter,
        },
{
    if config.decay_rate_per_day > 1000 {
        return Err(ReputationError::InvalidParameter);
    }
    if config.max_trust_multiplier < 10000 || config.max_trust_multiplier > 50000 {
        return Err(ReputationError::InvalidParameter);
    }
    Ok(config)
}

/// Creates the profile for a newly registered agent with score 0. The
/// storage collaborator must reject a key that already has a profile
/// (`AgentAlreadyRegistered` at the boundary); this function only builds the
/// fresh record.
pub fn register_agent(owner: AccountId, name: Vec<u8>, now: u64) -> (r: Result<
    AgentProfile,
    ReputationError,
>)
    ensures
        match r {
            Ok(p) => {
                &&& name@.len() <= MAX_NAME_LEN
                &&& p.owner == owner
                &&& p.name@ == name@
                &&& p.reputation_score == 0
                &&& p.total_tasks_completed == 0
                &&& p.last_activity_timestamp == now
                &&& p.is_active
                &&& p.positive_vouches == 0
                &&& p.negative_vouches == 0
                &&& p.staked_amount == 0
                &&& p.wf()
            },
            Err(e) => name@.len() > MAX_NAME_LEN && e == ReputationError::NameTooLong,
        },
{
    if name.len() > MAX_NAME_LEN {
        return Err(ReputationError::NameTooLong);
    }
    Ok(
        AgentProfile {
            owner,
            name,
            reputation_score: 0,
            total_tasks_completed: 0,
            last_activity_timestamp: now,
            is_active: true,
            positive_vouches: 0,
            negative_vouches: 0,
            staked_amount: 0,
        },
    )
}

/// Credits a completed task: adds the earned reputation (saturating), bumps
/// the task counter, and refreshes the activity timestamp. Rejects an
/// over-long task id, an inactive profile, and a zero amount, in that order,
/// leaving the profile untouched on any error.
pub fn complete_task(
    profile: &mut AgentProfile,
    task_id: &Vec<u8>,
    reputation_amount: u64,
    now: u64,
) -> (r: Result<(), ReputationError>)
    ensures
        match r {
            Ok(()) => {
                &&& task_id@.len() <= MAX_TASK_ID_LEN
                &&& old(profile).is_active
                &&& reputation_amount > 0
                &&& final(profile).reputation_score == sat_add(
                    old(profile).reputation_score,
                    reputation_amount,
                )
                &&& final(profile).total_tasks_completed == sat_add(
                    old(profile).total_tasks_completed,
                    1,
                )
                &&& final(profile).last_activity_timestamp == now
                &&& final(profile).owner == old(profile).owner
                &&& final(profile).name@ == old(profile).name@
                &&& final(profile).is_active == old(profile).is_active
                &&& final(profile).positive_vouches == old(profile).positive_vouches
                &&& final(profile).negative_vouches == old(profile).negative_vouches
                &&& final(profile).staked_amount == old(profile).staked_amount
            },
            Err(e) => {
                &&& *final(profile) == *old(profile)
                &&& if task_id@.len() > MAX_TASK_ID_LEN {
                    e == ReputationError::TaskIdTooLong
                } else if !old(profile).is_active {
                    e == ReputationError::AgentInactive
                } else {
                    reputation_amount == 0 && e == ReputationError::InvalidReputationAmount
                }
            },
        },
{
    if task_id.len() > MAX_TASK_ID_LEN {
        return Err(ReputationError::TaskIdTooLong);
    }
    if !profile.is_active {
        return Err(ReputationError::AgentInactive);
    }
    if reputation_amount == 0 {
        return Err(ReputationError::InvalidReputationAmount);
    }
    profile.reputation_score = profile.reputation_score.saturating_add(reputation_amount);
    profile.total_tasks_completed = profile.total_tasks_completed.saturating_add(1);
    profile.last_activity_timestamp = now;
    Ok(())
}

/// Reads the current reputation score.
pub fn get_reputation(profile: &AgentProfile) -> (r: u64)
    ensures
        r == profile.reputation_score,
{
    profile.reputation_score
}

} // verus!

//! The governance engine: a proposal lifecycle (create, vote, execute) that
//! gates changes to the protocol parameters behind reputation-weighted
//! quorum voting.
//!
//! A proposal moves from open voting to a one-shot execution. Execution
//! requires the voting window to be over, a quorum of total reputation-
//! weighted votes, and a simple majority in favour; it then applies exactly
//! one parameter mutation, bound-checked per parameter, and latches
//! `executed` permanently.

use vstd::prelude::*;

use crate::errors::ReputationError;
use crate::math::sat_add;
use crate::state::{AccountId, AgentProfile, ProtocolConfig};

verus! {

/// Descriptions are bounded-length byte strings of at most this many bytes.
pub const MAX_DESCRIPTION_LEN: usize = 200;

/// Minimum reputation to open a proposal (spam prevention).
pub const MIN_REPUTATION_TO_PROPOSE: u64 = 1000;

/// Minimum reputation to cast a vote.
pub const MIN_REPUTATION_TO_VOTE: u64 = 100;

/// Length of the voting window in seconds: 3 days.
pub const VOTING_PERIOD_SECONDS: u64 = 259200;

/// Quorum floor: total reputation-weighted votes needed before execution.
pub const QUORUM_VOTES: u64 = 10000;

/// The closed set of parameter targets a proposal may change.
#[derive(Clone, Copy, Debug, PartialEq, Eq, Structural)]
pub enum ProposalType {
    UpdateMinReputationForVouching,
    UpdateDecayRate,
    UpdateVouchLockupPeriod,
    UpdateSlashThreshold,
    UpdateMaxTrustMultiplier,
}

/// A governance proposal, created by any sufficiently reputable agent.
#[derive(Clone, Debug)]
pub struct GovernanceProposal {
    pub proposer: AccountId,
    pub proposal_type: ProposalType,
    pub new_value: u64,
    /// UTF-8 description bytes, at most `MAX_DESCRIPTION_LEN` of them.
    pub description: Vec<u8>,
    /// Reputation-weighted accumulator of votes in favour.
    pub votes_for: u64,
    /// Reputation-weighted accumulator of votes against.
    pub votes_against: u64,
    /// UNIX-epoch second at which voting closes.
    pub voting_ends_at: u64,
    /// One-shot latch: false to true exactly once, never back.
    pub executed: bool,
}

impl GovernanceProposal {
    pub open spec fn wf(self) -> bool {
        self.description@.len() <= MAX_DESCRIPTION_LEN
    }
}

/// One record per (proposal, voter) pair. The storage collaborator must
/// reject a second record for the same pair; that uniqueness is what makes
/// double-voting impossible.
#[derive(Clone, Debug)]
pub struct VoteRecord {
    pub voter: AccountId,
    pub proposal: AccountId,
    /// The voter's reputation at cast time, frozen.
    pub vote_weight: u64,
    pub is_for: bool,
    pub voted_at: u64,
}

/// Opens a proposal. Requires the proposer to hold at least
/// `MIN_REPUTATION_TO_PROPOSE` reputation and a description within bounds;
/// the proposer's own vote in favour is cast automatically with its current
/// reputation as weight.
pub fn create_proposal(
    proposer: AccountId,
    proposer_profile: &AgentProfile,
    proposal_type: ProposalType,
    new_value: u64,
    description: Vec<u8>,
    now: u64,
) -> (r: Result<GovernanceProposal, ReputationError>)
    ensures
        match r {
            Ok(p) => {
                &&& proposer_profile.reputation_score >= MIN_REPUTATION_TO_PROPOSE
                &&& description@.len() <= MAX_DESCRIPTION_LEN
                &&& p.proposer == proposer
                &&& p.proposal_type == proposal_type
                &&& p.new_value == new_value
                &&& p.description@ == description@
                &&& p.votes_for == proposer_profile.reputation_score
                &&& p.votes_against == 0
                &&& p.voting_ends_at == sat_add(now, VOTING_PERIOD_SECONDS)
                &&& !p.executed
                &&& p.wf()
            },
            Err(e) => {
                if proposer_profile.reputation_score < MIN_REPUTATION_TO_PROPOSE {
                    e == ReputationError::InsufficientReputation
                } else {
                    description@.len() > MAX_DESCRIPTION_LEN
                        && e == ReputationError::DescriptionTooLong
                }
            },
        },
{
    if proposer_profile.reputation_score < MIN_REPUTATION_TO_PROPOSE {
        return Err(ReputationError::InsufficientReputation);
    }
    if description.len() > MAX_DESCRIPTION_LEN {
        return Err(ReputationError::DescriptionTooLong);
    }
    Ok(
        GovernanceProposal {
            proposer,
            proposal_type,
            new_value,
            description,
            votes_for: proposer_profile.reputation_score,
            votes_against: 0,
            voting_ends_at: now.saturating_add(VOTING_PERIOD_SECONDS),
            executed: false,
        },
    )
}

/// Casts a reputation-weighted vote while the window is open. The weight is
/// the voter's reputation at cast time, frozen into the returned record; the
/// matching accumulator grows by saturating addition. One vote per (voter,
/// proposal) pair is enforced by record uniqueness at the storage boundary.
pub fn vote_proposal(
    proposal: &mut GovernanceProposal,
    proposal_id: AccountId,
    voter: AccountId,
    voter_profile: &AgentProfile,
    is_for: bool,
    now: u64,
) -> (r: Result<VoteRecord, ReputationError>)
    ensures
        match r {
            Ok(rec) => {
                &&& now < old(proposal).voting_ends_at
                &&& !old(proposal).executed
                &&& voter_profile.reputation_score >= MIN_REPUTATION_TO_VOTE
                &&& rec.voter == voter
                &&& rec.proposal == proposal_id
                &&& rec.vote_weight == voter_profile.reputation_score
                &&& rec.is_for == is_for
                &&& rec.voted_at == now
                &&& final(proposal).votes_for == (if is_for {
                    sat_add(old(proposal).votes_for, voter_profile.reputation_score)
                } else {
                    old(proposal).votes_for
                })
                &&& final(proposal).votes_against == (if is_for {
                    old(proposal).votes_against
                } else {
                    sat_add(old(proposal).votes_against, voter_profile.reputation_score)
                })
                &&& final(proposal).proposer == old(proposal).proposer
                &&& final(proposal).proposal_type == old(proposal).proposal_type
                &&& final(proposal).new_value == old(proposal).new_value
                &&& final(proposal).description@ == old(proposal).description@
                &&& final(proposal).voting_ends_at == old(proposal).voting_ends_at
                &&& final(proposal).executed == old(proposal).executed
            },
            Err(e) => {
                &&& *final(proposal) == *old(proposal)
                &&& if now >= old(proposal).voting_ends_at {
                    e == ReputationError::VotingPeriodEnded
                } else if old(proposal).executed {
                    e == ReputationError::ProposalAlreadyExecuted
                } else {
                    voter_profile.reputation_score < MIN_REPUTATION_TO_VOTE
                        && e == ReputationError::InsufficientReputation
                }
            },
        },
{
    if now >= proposal.voting_ends_at {
        return Err(ReputationError::VotingPeriodEnded);
    }
    if proposal.executed {
        return Err(ReputationError::ProposalAlreadyExecuted);
    }
    if voter_profile.reputation_score < MIN_REPUTATION_TO_VOTE {
        return Err(ReputationError::InsufficientReputation);
    }

    let record = VoteRecord {
        voter,
        proposal: proposal_id,
        vote_weight: voter_profile.reputation_score,
        is_for,
        voted_at: now,
    };

    if is_for {
        proposal.votes_for = proposal.votes_for.saturating_add(voter_profile.reputation_score);
    } else {
        proposal.votes_against = proposal.votes_against.saturating_add(
            voter_profile.reputation_score,
        );
    }

    Ok(record)
}

/// Whether the proposed value is within the bound its parameter demands.
pub open spec fn parameter_value_allowed(proposal_type: ProposalType, new_value: u64) -> bool {
    match proposal_type {
        ProposalType::UpdateDecayRate => new_value <= 1000,
        ProposalType::UpdateMaxTrustMultiplier => 10000 <= new_value <= 50000,
        _ => true,
    }
}

/// The configuration after applying one parameter mutation.
pub open spec fn config_with_update(
    config: ProtocolConfig,
    proposal_type: ProposalType,
    new_value: u64,
) -> ProtocolConfig {
    match proposal_type {
        ProposalType::UpdateMinReputationForVouching => (ProtocolConfig {
            min_reputation_for_vouching: new_value,
            ..config
        }),
        ProposalType::UpdateDecayRate => (ProtocolConfig { decay_rate_per_day: new_value, ..config }),
        ProposalType::UpdateVouchLockupPeriod => (ProtocolConfig {
            vouch_lockup_period: new_value,
            ..config
        }),
        ProposalType::UpdateSlashThreshold => (ProtocolConfig { slash_threshold: new_value, ..config }),
        ProposalType::UpdateMaxTrustMultiplier => (ProtocolConfig {
            max_trust_multiplier: new_value,
            ..config
        }),
    }
}

/// Executes a closed proposal exactly once. Requires the voting window to be
/// over, the quorum floor met by the saturating total of both accumulators,
/// and a strict majority in favour; the parameter mutation is applied only
/// if its bound check passes, and the `executed` latch is set so that any
/// second attempt fails. On any error neither the proposal nor the
/// configuration changes. A well-formed configuration stays well-formed.
pub fn execute_proposal(
    proposal: &mut GovernanceProposal,
    config: &mut ProtocolConfig,
    now: u64,
) -> (r: Result<(), ReputationError>)
    ensures
        match r {
            Ok(()) => {
                &&& now >= old(proposal).voting_ends_at
                &&& !old(proposal).executed
                &&& sat_add(old(proposal).votes_for, old(proposal).votes_against) >= QUORUM_VOTES
                &&& old(proposal).votes_for > old(proposal).votes_against
                &&& parameter_value_allowed(old(proposal).proposal_type, old(proposal).new_value)
                &&& *final(config) == config_with_update(
                    *old(config),
                    old(proposal).proposal_type,
                    old(proposal).new_value,
                )
                &&& final(proposal).executed
                &&& final(proposal).proposer == old(proposal).proposer
                &&& final(proposal).proposal_type == old(proposal).proposal_type
                &&& final(proposal).new_value == old(proposal).new_value
                &&& final(proposal).description@ == old(proposal).description@
                &&& final(proposal).votes_for == old(proposal).votes_for
                &&& final(proposal).votes_against == old(proposal).votes_against
                &&& final(proposal).voting_ends_at == old(proposal).voting_ends_at
                &&& (old(config).wf() ==> final(config).wf())
            },
            Err(e) => {
                &&& *final(proposal) == *old(proposal)
                &&& *final(config) == *old(config)
                &&& if now < old(proposal).voting_ends_at {
                    e == ReputationError::VotingPeriodActive
                } else if old(proposal).executed {
                    e == ReputationError::ProposalAlreadyExecuted
                } else if sat_add(old(proposal).votes_for, old(proposal).votes_against)
                    < QUORUM_VOTES {
                    e == ReputationError::QuorumNotReached
                } else if old(proposal).votes_for <= old(proposal).votes_against {
                    e == ReputationError::ProposalRejected
                } else {
                    !parameter_value_allowed(old(proposal).proposal_type, old(proposal).new_value)
                        && e == ReputationError::InvalidParameter
                }
            },
        },
{
    if now < proposal.voting_ends_at {
        return Err(ReputationError::VotingPeriodActive);
    }
    if proposal.executed {
        return Err(ReputationError::ProposalAlreadyExecuted);
    }

    let total_votes = proposal.votes_for.saturating_add(proposal.votes_against);
    if total_votes < QUORUM_VOTES {
        return Err(ReputationError::QuorumNotReached);
    }
    if proposal.votes_for <= proposal.votes_against {
        return Err(ReputationError::ProposalRejected);
    }

    match proposal.proposal_type {
        ProposalType::UpdateMinReputationForVouching => {
            config.min_reputation_for_vouching = proposal.new_value;
        },
        ProposalType::UpdateDecayRate => {
            if proposal.new_value > 1000 {
                return Err(ReputationError::InvalidParameter);
            }
            config.decay_rate_per_day = proposal.new_value;
        },
        ProposalType::UpdateVouchLockupPeriod => {
            config.vouch_lockup_period = proposal.new_value;
        },
        ProposalType::UpdateSlashThreshold => {
            config.slash_threshold = proposal.new_value;
        },
        ProposalType::UpdateMaxTrustMultiplier => {
            if proposal.new_value < 10000 || proposal.new_value > 50000 {
                return Err(ReputationError::InvalidParameter);
            }
            config.max_trust_multiplier = proposal.new_value;
        },
    }

    proposal.executed = true;
    Ok(())
}

} // verus!

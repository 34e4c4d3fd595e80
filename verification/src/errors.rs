//! The error taxonomy shared by every engine.
//!
//! Engines fail closed: on any precondition violation no partial mutation is
//! committed and the specific error kind is returned to the caller.

use vstd::prelude::*;

verus! {

#[derive(Clone, Copy, Debug, PartialEq, Eq, Structural)]
pub enum ReputationError {
    /// An agent name exceeded the 50-byte limit.
    NameTooLong,
    /// The identity key is already bound to a profile.
    AgentAlreadyRegistered,
    /// No profile exists for the identity key.
    AgentNotRegistered,
    /// The caller's reputation is below the bar for the attempted operation.
    InsufficientReputation,
    /// An agent tried to vouch for itself.
    SelfVouchNotAllowed,
    /// The vouch lockup period has not expired yet.
    LockupNotExpired,
    /// A reputation amount was zero or above the permitted cap.
    InvalidReputationAmount,
    /// A task identifier exceeded the length limit.
    TaskIdTooLong,
    /// The profile is marked inactive.
    AgentInactive,
    /// Decay was already applied within the cooldown window.
    DecayCooldown,
    /// A non-saturating arithmetic path overflowed (unreachable by design).
    MathOverflow,
    /// A description or URI exceeded its byte limit.
    DescriptionTooLong,
    /// A vote arrived at or after `voting_ends_at`.
    VotingPeriodEnded,
    /// Execution was attempted before `voting_ends_at`.
    VotingPeriodActive,
    /// The proposal's one-shot `executed` latch is already set.
    ProposalAlreadyExecuted,
    /// Total votes fell short of the quorum floor.
    QuorumNotReached,
    /// The proposal did not reach a simple majority in favour.
    ProposalRejected,
    /// A governance value fell outside its permitted bound.
    InvalidParameter,
    /// The submitting identity is not in the authorized-oracle set.
    OracleNotAuthorized,
    /// A proof blob failed validation.
    InvalidProof,
}

} // verus!

//! Soulbound reputation badges: a non-transferable record of the trust
//! level an agent had reached when its badge was minted or last upgraded.
//!
//! The engine builds and updates the badge record; minting and freezing the
//! actual token is the token custody collaborator's job.

use vstd::prelude::*;

use crate::errors::ReputationError;
use crate::state::{AccountId, AgentProfile};

verus! {

/// Metadata URIs are bounded-length byte strings of at most this many bytes.
pub const MAX_METADATA_URI_LEN: usize = 100;

/// The closed ladder of trust levels.
#[derive(Clone, Copy, Debug, PartialEq, Eq, Structural)]
pub enum ReputationLevel {
    /// Reputation 0 to 100.
    Novice,
    /// Reputation 101 to 500.
    Contributor,
    /// Reputation 501 to 1000.
    Builder,
    /// Reputation 1001 to 5000.
    Guardian,
    /// Reputation above 5000.
    Legend,
}

/// The level a reputation score maps to.
pub open spec fn level_of_score(score: u64) -> ReputationLevel {
    if score <= 100 {
        ReputationLevel::Novice
    } else if score <= 500 {
        ReputationLevel::Contributor
    } else if score <= 1000 {
        ReputationLevel::Builder
    } else if score <= 5000 {
        ReputationLevel::Guardian
    } else {
        ReputationLevel::Legend
    }
}

/// How many benefits each level confers.
pub open spec fn benefit_count(level: ReputationLevel) -> int {
    match level {
        ReputationLevel::Novice => 1,
        ReputationLevel::Contributor => 2,
        ReputationLevel::Builder => 3,
        ReputationLevel::Guardian => 4,
        ReputationLevel::Legend => 5,
    }
}

/// The exact benefit texts each level confers, in order.
pub open spec fn benefit_texts(level: ReputationLevel) -> Seq<Seq<char>> {
    match level {
        ReputationLevel::Novice => seq!["Basic API access"@],
        ReputationLevel::Contributor => seq!["Basic API access"@, "Discord role: Contributor"@],
        ReputationLevel::Builder => seq![
            "Extended API rate limits"@,
            "Discord role: Builder"@,
            "Early feature access"@,
        ],
        ReputationLevel::Guardian => seq![
            "Premium API access"@,
            "Discord role: Guardian"@,
            "Governance voting"@,
            "Revenue sharing"@,
        ],
        ReputationLevel::Legend => seq![
            "Unlimited API access"@,
            "Discord role: Legend"@,
            "Full governance"@,
            "Revenue sharing"@,
            "Exclusive events"@,
        ],
    }
}

impl ReputationLevel {
    /// Maps a reputation score to its level.
    pub fn from_score(score: u64) -> (r: ReputationLevel)
        ensures
            r == level_of_score(score),
    {
        if score <= 100 {
            ReputationLevel::Novice
        } else if score <= 500 {
            ReputationLevel::Contributor
        } else if score <= 1000 {
            ReputationLevel::Builder
        } else if score <= 5000 {
            ReputationLevel::Guardian
        } else {
            ReputationLevel::Legend
        }
    }

    /// The benefits a level confers, broadest last; each level adds to the
    /// one below.
    pub fn get_benefits(&self) -> (r: Vec<&'static str>)
        ensures
            r@.len() == benefit_count(*self),
            forall|i: int| 0 <= i < r@.len() ==> r@[i]@ == benefit_texts(*self)[i],
    {
        match self {
            ReputationLevel::Novice => vec!["Basic API access"],
            ReputationLevel::Contributor => vec!["Basic API access", "Discord role: Contributor"],
            ReputationLevel::Builder => vec![
                "Extended API rate limits",
                "Discord role: Builder",
                "Early feature access",
            ],
            ReputationLevel::Guardian => vec![
                "Premium API access",
                "Discord role: Guardian",
                "Governance voting",
                "Revenue sharing",
            ],
            ReputationLevel::Legend => vec![
                "Unlimited API access",
                "Discord role: Legend",
                "Full governance",
                "Revenue sharing",
                "Exclusive events",
            ],
        }
    }
}

/// The badge record: one per agent, updated in place on upgrade.
#[derive(Clone, Debug)]
pub struct ReputationNFT {
    pub agent: AccountId,
    pub level: ReputationLevel,
    /// Score snapshot taken at mint or at the latest upgrade.
    pub score_at_mint: u64,
    pub minted_at: u64,
    /// UTF-8 URI bytes, at most `MAX_METADATA_URI_LEN` of them.
    pub metadata_uri: Vec<u8>,
}

impl ReputationNFT {
    pub open spec fn wf(self) -> bool {
        self.metadata_uri@.len() <= MAX_METADATA_URI_LEN
    }
}

/// Builds the badge record for an agent at its current level. The token
/// custody collaborator then mints one token and freezes the holding
/// account to make the badge non-transferable.
pub fn mint_reputation_nft(
    agent: AccountId,
    agent_profile: &AgentProfile,
    metadata_uri: Vec<u8>,
    now: u64,
) -> (r: Result<ReputationNFT, ReputationError>)
    ensures
        match r {
            Ok(nft) => {
                &&& metadata_uri@.len() <= MAX_METADATA_URI_LEN
                &&& nft.agent == agent
                &&& nft.level == level_of_score(agent_profile.reputation_score)
                &&& nft.score_at_mint == agent_profile.reputation_score
                &&& nft.minted_at == now
                &&& nft.metadata_uri@ == metadata_uri@
                &&& nft.wf()
            },
            Err(e) => metadata_uri@.len() > MAX_METADATA_URI_LEN && e
                == ReputationError::DescriptionTooLong,
        },
{
    if metadata_uri.len() > MAX_METADATA_URI_LEN {
        return Err(ReputationError::DescriptionTooLong);
    }
    let level = ReputationLevel::from_score(agent_profile.reputation_score);
    Ok(
        ReputationNFT {
            agent,
            level,
            score_at_mint: agent_profile.reputation_score,
            minted_at: now,
            metadata_uri,
        },
    )
}

/// Re-levels the badge against the agent's current score, refreshing the
/// score snapshot. A badge already at the current level is rejected.
pub fn upgrade_reputation_nft(nft: &mut ReputationNFT, agent_profile: &AgentProfile) -> (r: Result<
    (),
    ReputationError,
>)
    ensures
        match r {
            Ok(()) => {
                &&& level_of_score(agent_profile.reputation_score) != old(nft).level
                &&& final(nft).level == level_of_score(agent_profile.reputation_score)
                &&& final(nft).score_at_mint == agent_profile.reputation_score
                &&& final(nft).agent == old(nft).agent
                &&& final(nft).minted_at == old(nft).minted_at
                &&& final(nft).metadata_uri@ == old(nft).metadata_uri@
            },
            Err(e) => {
                &&& *final(nft) == *old(nft)
                &&& level_of_score(agent_profile.reputation_score) == old(nft).level
                &&& e == ReputationError::InvalidParameter
            },
        },
{
    let new_level = ReputationLevel::from_score(agent_profile.reputation_score);
    if new_level == nft.level {
        return Err(ReputationError::InvalidParameter);
    }
    nft.level = new_level;
    nft.score_at_mint = agent_profile.reputation_score;
    Ok(())
}

/// Reads a badge: the level it certifies and the score snapshot behind it.
pub fn verify_reputation_nft(nft: &ReputationNFT) -> (r: (ReputationLevel, u64))
    ensures
        r.0 == nft.level,
        r.1 == nft.score_at_mint,
{
    (nft.level, nft.score_at_mint)
}

} // verus!

//! Oracle attestation intake: authorized oracles mint bounded reputation
//! for off-chain achievements.
//!
//! The registry holds at most ten distinct authorized oracle identities.
//! Each attestation category carries a fixed cap on the reputation it may
//! mint; a request above the cap is rejected outright.

use vstd::prelude::*;

use crate::errors::ReputationError;
use crate::math::sat_add;
use crate::state::{AccountId, AgentProfile};

verus! {

/// Capacity of the authorized-oracle set.
pub const MAX_ORACLES: usize = 10;

/// Length in bytes of an attestation metadata hash.
pub const METADATA_HASH_LEN: usize = 32;

/// Length in bytes of a rendered attestation URI.
pub const ATTESTATION_URI_LEN: usize = 100;

/// The membership list of oracles allowed to submit attestations.
#[derive(Clone, Debug)]
pub struct OracleRegistry {
    pub authority: AccountId,
    pub authorized_oracles: Vec<AccountId>,
}

impl OracleRegistry {
    /// At most `MAX_ORACLES` entries, all distinct.
    pub open spec fn wf(self) -> bool {
        &&& self.authorized_oracles@.len() <= MAX_ORACLES
        &&& forall|i: int, j: int|
            0 <= i < j < self.authorized_oracles@.len() ==> self.authorized_oracles@[i]
                != self.authorized_oracles@[j]
    }
}

/// One oracle-submitted event minting reputation for an agent.
#[derive(Clone, Debug)]
pub struct OracleAttestation {
    pub oracle: AccountId,
    pub agent: AccountId,
    pub attestation_type: AttestationType,
    /// Hash of the off-chain evidence; exactly `METADATA_HASH_LEN` bytes.
    pub metadata_hash: Vec<u8>,
    pub reputation_amount: u64,
    pub created_at: u64,
}

/// The closed set of attestation categories.
#[derive(Clone, Copy, Debug, PartialEq, Eq, Structural)]
pub enum AttestationType {
    /// Code contributions.
    GitHubCommit,
    /// Pull requests merged.
    GitHubPRMerged,
    /// High-value transaction volume.
    OnChainTransaction,
    /// Hackathon placement.
    HackathonWin,
    /// Security findings.
    BugBounty,
    /// Docs, tutorials, and the like.
    CommunityContribution,
}

/// The cap on reputation a single attestation of each category may mint.
pub open spec fn attestation_cap(t: AttestationType) -> u64 {
    match t {
        AttestationType::GitHubCommit => 10u64,
        AttestationType::GitHubPRMerged => 50u64,
        AttestationType::OnChainTransaction => 100u64,
        AttestationType::HackathonWin => 500u64,
        AttestationType::BugBounty => 1000u64,
        AttestationType::CommunityContribution => 25u64,
    }
}

/// The per-category cap lookup table.
pub fn max_attestation_amount(t: &AttestationType) -> (r: u64)
    ensures
        r == attestation_cap(*t),
{
    match t {
        AttestationType::GitHubCommit => 10,
        AttestationType::GitHubPRMerged => 50,
        AttestationType::OnChainTransaction => 100,
        AttestationType::HackathonWin => 500,
        AttestationType::BugBounty => 1000,
        AttestationType::CommunityContribution => 25,
    }
}

/// Creates an empty registry owned by `authority`.
pub fn initialize_oracle_registry(authority: AccountId) -> (r: OracleRegistry)
    ensures
        r.authority == authority,
        r.authorized_oracles@.len() == 0,
        r.wf(),
{
    OracleRegistry { authority, authorized_oracles: Vec::new() }
}

/// Whether `oracle` is in the registry's authorized set.
pub fn is_authorized_oracle(registry: &OracleRegistry, oracle: AccountId) -> (r: bool)
    ensures
        r == registry.authorized_oracles@.contains(oracle),
{
    let n = registry.authorized_oracles.len();
    let mut i: usize = 0;
    while i < n
        invariant
            i <= n,
            n == registry.authorized_oracles@.len(),
            forall|k: int| 0 <= k < i ==> registry.authorized_oracles@[k] != oracle,
        decreases n - i,
    {
        if registry.authorized_oracles[i] == oracle {
            return true;
        }
        i = i + 1;
    }
    false
}

/// Adds an oracle to the registry. A key already present is rejected (the
/// registry stays duplicate-free), as is a full registry. Only the
/// registry's authority may reach this operation; the storage collaborator
/// enforces that before loading the record.
pub fn add_oracle(registry: &mut OracleRegistry, oracle: AccountId) -> (r: Result<
    (),
    ReputationError,
>)
    requires
        old(registry).wf(),
    ensures
        final(registry).wf(),
        final(registry).authority == old(registry).authority,
        match r {
            Ok(()) => {
                &&& !old(registry).authorized_oracles@.contains(oracle)
                &&& old(registry).authorized_oracles@.len() < MAX_ORACLES
                &&& final(registry).authorized_oracles@ == old(
                    registry).authorized_oracles@.push(oracle)
            },
            Err(e) => {
                &&& *final(registry) == *old(registry)
                &&& if old(registry).authorized_oracles@.contains(oracle) {
                    e == ReputationError::OracleNotAuthorized
                } else {
                    old(registry).authorized_oracles@.len() >= MAX_ORACLES
                        && e == ReputationError::InvalidParameter
                }
            },
        },
{
    if is_authorized_oracle(registry, oracle) {
        return Err(ReputationError::OracleNotAuthorized);
    }
    if registry.authorized_oracles.len() >= MAX_ORACLES {
        return Err(ReputationError::InvalidParameter);
    }
    registry.authorized_oracles.push(oracle);
    Ok(())
}

/// Validates and applies one oracle attestation: the submitting identity
/// must be authorized and the amount within its category's cap; the agent's
/// score grows by the amount (saturating), its task counter advances, and
/// its activity timestamp refreshes. The caller persists the returned
/// attestation record.
pub fn submit_attestation(
    registry: &OracleRegistry,
    agent_profile: &mut AgentProfile,
    oracle: AccountId,
    agent: AccountId,
    attestation_type: AttestationType,
    metadata_hash: Vec<u8>,
    reputation_amount: u64,
    now: u64,
) -> (r: Result<OracleAttestation, ReputationError>)
    requires
        metadata_hash@.len() == METADATA_HASH_LEN,
    ensures
        match r {
            Ok(att) => {
                &&& registry.authorized_oracles@.contains(oracle)
                &&& reputation_amount <= attestation_cap(attestation_type)
                &&& att.oracle == oracle
                &&& att.agent == agent
                &&& att.attestation_type == attestation_type
                &&& att.metadata_hash@ == metadata_hash@
                &&& att.reputation_amount == reputation_amount
                &&& att.created_at == now
                &&& final(agent_profile).reputation_score == sat_add(
                    old(agent_profile).reputation_score,
                    reputation_amount,
                )
                &&& final(agent_profile).total_tasks_completed == sat_add(
                    old(agent_profile).total_tasks_completed,
                    1,
                )
                &&& final(agent_profile).last_activity_timestamp == now
                &&& final(agent_profile).owner == old(agent_profile).owner
                &&& final(agent_profile).name@ == old(agent_profile).name@
                &&& final(agent_profile).is_active == old(agent_profile).is_active
                &&& final(agent_profile).positive_vouches == old(agent_profile).positive_vouches
                &&& final(agent_profile).negative_vouches == old(agent_profile).negative_vouches
                &&& final(agent_profile).staked_amount == old(agent_profile).staked_amount
            },
            Err(e) => {
                &&& *final(agent_profile) == *old(agent_profile)
                &&& if !registry.authorized_oracles@.contains(oracle) {
                    e == ReputationError::OracleNotAuthorized
                } else {
                    reputation_amount > attestation_cap(attestation_type)
                        && e == ReputationError::InvalidReputationAmount
                }
            },
        },
{
    if !is_authorized_oracle(registry, oracle) {
        return Err(ReputationError::OracleNotAuthorized);
    }

    let max_amount = max_attestation_amount(&attestation_type);
    if reputation_amount > max_amount {
        return Err(ReputationError::InvalidReputationAmount);
    }

    let attestation = OracleAttestation {
        oracle,
        agent,
        attestation_type,
        metadata_hash,
        reputation_amount,
        created_at: now,
    };

    agent_profile.reputation_score = agent_profile.reputation_score.saturating_add(
        reputation_amount,
    );
    agent_profile.total_tasks_completed = agent_profile.total_tasks_completed.saturating_add(1);
    agent_profile.last_activity_timestamp = now;

    Ok(attestation)
}

/// The fixed URI prefix under which attestation evidence is published:
/// `https://api.agentreputation.io/attestations/`.
pub const URI_PREFIX: [u8; 44] = [
    104, 116, 116, 112, 115, 58, 47, 47,  // "https://"
    97, 112, 105, 46,  // "api."
    97, 103, 101, 110, 116, 114, 101, 112, 117, 116, 97, 116, 105, 111, 110,  // "agentreputation"
    46, 105, 111, 47,  // ".io/"
    97, 116, 116, 101, 115, 116, 97, 116, 105, 111, 110, 115, 47,  // "attestations/"
];

/// The lower-case hexadecimal digit for a nibble.
pub open spec fn hex_digit(n: u8) -> u8 {
    if n < 10 {
        (n + 48) as u8
    } else {
        (n + 87) as u8
    }
}

fn hex_digit_byte(n: u8) -> (r: u8)
    requires
        n < 16,
    ensures
        r == hex_digit(n),
{
    if n < 10 {
        n + 48
    } else {
        n + 87
    }
}

/// Renders the fixed-size URI under which an attestation's metadata can be
/// fetched for off-chain verification: the prefix followed by as many
/// lower-case hex digits of the 32-byte hash as fit in the remaining 56
/// bytes, i.e. the first 28 bytes of the hash.
pub fn get_attestation_uri(metadata_hash: &Vec<u8>) -> (r: Vec<u8>)
    requires
        metadata_hash@.len() == METADATA_HASH_LEN,
    ensures
        r@.len() == ATTESTATION_URI_LEN,
        forall|i: int| 0 <= i < 44 ==> r@[i] == URI_PREFIX@[i],
        forall|i: int|
            0 <= i < 28 ==> r@[44 + 2 * i] == hex_digit((metadata_hash@[i] / 16) as u8) && r@[44
                + 2 * i + 1] == hex_digit((metadata_hash@[i] % 16) as u8),
{
    let mut out: Vec<u8> = Vec::new();
    let mut i: usize = 0;
    while i < 44
        invariant
            i <= 44,
            out@.len() == i,
            forall|k: int| 0 <= k < i ==> out@[k] == URI_PREFIX@[k],
        decreases 44 - i,
    {
        out.push(URI_PREFIX[i]);
        i = i + 1;
    }

    let mut j: usize = 0;
    while j < 28
        invariant
            j <= 28,
            metadata_hash@.len() == METADATA_HASH_LEN,
            out@.len() == 44 + 2 * j,
            forall|k: int| 0 <= k < 44 ==> out@[k] == URI_PREFIX@[k],
            forall|k: int|
                0 <= k < j ==> out@[44 + 2 * k] == hex_digit((metadata_hash@[k] / 16) as u8)
                    && out@[44 + 2 * k + 1] == hex_digit((metadata_hash@[k] % 16) as u8),
        decreases 28 - j,
    {
        let byte = metadata_hash[j];
        out.push(hex_digit_byte(byte / 16));
        out.push(hex_digit_byte(byte % 16));
        j = j + 1;
    }

    out
}

} // verus!

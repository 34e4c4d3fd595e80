use agent_reputation::errors::ReputationError;
use agent_reputation::oracle::{
    add_oracle, get_attestation_uri, initialize_oracle_registry, is_authorized_oracle,
    max_attestation_amount, submit_attestation, AttestationType,
};
use agent_reputation::state::{AccountId, AgentProfile};

fn profile(key: u64, score: u64) -> AgentProfile {
    AgentProfile {
        owner: AccountId { key },
        name: Vec::new(),
        reputation_score: score,
        total_tasks_completed: 0,
        last_activity_timestamp: 0,
        is_active: true,
        positive_vouches: 0,
        negative_vouches: 0,
        staked_amount: 0,
    }
}

#[test]
fn registry_accepts_up_to_ten_distinct_oracles() {
    let mut reg = initialize_oracle_registry(AccountId { key: 1 });
    assert_eq!(reg.authority, AccountId { key: 1 });
    for k in 0..10u64 {
        assert!(add_oracle(&mut reg, AccountId { key: 100 + k }).is_ok());
    }
    let r = add_oracle(&mut reg, AccountId { key: 999 });
    assert_eq!(r.unwrap_err(), ReputationError::InvalidParameter);
}

#[test]
fn duplicate_oracle_is_rejected() {
    let mut reg = initialize_oracle_registry(AccountId { key: 1 });
    assert!(add_oracle(&mut reg, AccountId { key: 7 }).is_ok());
    let r = add_oracle(&mut reg, AccountId { key: 7 });
    assert_eq!(r.unwrap_err(), ReputationError::OracleNotAuthorized);
    assert!(is_authorized_oracle(&reg, AccountId { key: 7 }));
    assert!(!is_authorized_oracle(&reg, AccountId { key: 8 }));
}

#[test]
fn attestation_caps_per_category() {
    assert_eq!(max_attestation_amount(&AttestationType::GitHubCommit), 10);
    assert_eq!(max_attestation_amount(&AttestationType::GitHubPRMerged), 50);
    assert_eq!(max_attestation_amount(&AttestationType::OnChainTransaction), 100);
    assert_eq!(max_attestation_amount(&AttestationType::HackathonWin), 500);
    assert_eq!(max_attestation_amount(&AttestationType::BugBounty), 1000);
    assert_eq!(max_attestation_amount(&AttestationType::CommunityContribution), 25);
}

#[test]
fn unauthorized_oracle_cannot_attest() {
    let reg = initialize_oracle_registry(AccountId { key: 1 });
    let mut agent = profile(5, 0);
    let r = submit_attestation(
        &reg,
        &mut agent,
        AccountId { key: 7 },
        AccountId { key: 5 },
        AttestationType::GitHubCommit,
        vec![0u8; 32],
        5,
        0,
    );
    assert_eq!(r.unwrap_err(), ReputationError::OracleNotAuthorized);
}

#[test]
fn bug_bounty_above_cap_fails_at_cap_succeeds() {
    let mut reg = initialize_oracle_registry(AccountId { key: 1 });
    assert!(add_oracle(&mut reg, AccountId { key: 7 }).is_ok());
    let mut agent = profile(5, 40);

    let r = submit_attestation(
        &reg,
        &mut agent,
        AccountId { key: 7 },
        AccountId { key: 5 },
        AttestationType::BugBounty,
        vec![0u8; 32],
        1500,
        0,
    );
    assert_eq!(r.unwrap_err(), ReputationError::InvalidReputationAmount);
    assert_eq!(agent.reputation_score, 40);
    assert_eq!(agent.total_tasks_completed, 0);

    let att = submit_attestation(
        &reg,
        &mut agent,
        AccountId { key: 7 },
        AccountId { key: 5 },
        AttestationType::BugBounty,
        vec![0u8; 32],
        1000,
        99,
    )
    .unwrap();
    assert_eq!(att.reputation_amount, 1000);
    assert_eq!(att.created_at, 99);
    assert_eq!(agent.reputation_score, 1040);
    assert_eq!(agent.total_tasks_completed, 1);
    assert_eq!(agent.last_activity_timestamp, 99);
}

#[test]
fn attestation_uri_renders_prefix_and_hex() {
    let mut hash = Vec::new();
    for i in 0..32u8 {
        hash.push(i * 8 + 3);
    }
    let uri = get_attestation_uri(&hash);
    assert_eq!(uri.len(), 100);
    let prefix = b"https://api.agentreputation.io/attestations/";
    assert_eq!(&uri[..44], &prefix[..]);
    // The 56 remaining bytes hold the hex of the first 28 hash bytes.
    let mut expected = String::new();
    for i in 0..28 {
        expected.push_str(&format!("{:02x}", hash[i]));
    }
    assert_eq!(&uri[44..], expected.as_bytes());
}

use agent_reputation::decay::apply_decay;
use agent_reputation::errors::ReputationError;
use agent_reputation::slash::slash_agent;
use agent_reputation::state::{
    complete_task, get_reputation, initialize, register_agent, AccountId, AgentProfile,
    ProtocolConfig,
};

fn profile(key: u64, score: u64) -> AgentProfile {
    AgentProfile {
        owner: AccountId { key },
        name: Vec::new(),
        reputation_score: score,
        total_tasks_completed: 0,
        last_activity_timestamp: 0,
        is_active: true,
        positive_vouches: 0,
        negative_vouches: 0,
        staked_amount: 0,
    }
}

fn config() -> ProtocolConfig {
    ProtocolConfig {
        min_reputation_for_vouching: 1000,
        decay_rate_per_day: 100,
        vouch_lockup_period: 604800,
        slash_threshold: 5000,
        max_trust_multiplier: 30000,
    }
}

#[test]
fn initialize_validates_bounds() {
    assert!(initialize(config()).is_ok());
    let mut bad = config();
    bad.decay_rate_per_day = 1001;
    assert_eq!(initialize(bad).unwrap_err(), ReputationError::InvalidParameter);
    let mut bad = config();
    bad.max_trust_multiplier = 9999;
    assert_eq!(initialize(bad).unwrap_err(), ReputationError::InvalidParameter);
    let mut bad = config();
    bad.max_trust_multiplier = 50001;
    assert_eq!(initialize(bad).unwrap_err(), ReputationError::InvalidParameter);
}

#[test]
fn register_creates_fresh_profile() {
    let p = register_agent(AccountId { key: 9 }, b"ferris".to_vec(), 1234).unwrap();
    assert_eq!(p.owner, AccountId { key: 9 });
    assert_eq!(p.name, b"ferris".to_vec());
    assert_eq!(p.reputation_score, 0);
    assert_eq!(p.total_tasks_completed, 0);
    assert_eq!(p.last_activity_timestamp, 1234);
    assert!(p.is_active);
    assert_eq!(p.staked_amount, 0);
    assert_eq!(get_reputation(&p), 0);
}

#[test]
fn register_rejects_long_name() {
    let r = register_agent(AccountId { key: 9 }, vec![b'a'; 51], 0);
    assert_eq!(r.unwrap_err(), ReputationError::NameTooLong);
    assert!(register_agent(AccountId { key: 9 }, vec![b'a'; 50], 0).is_ok());
}

#[test]
fn complete_task_credits_and_counts() {
    let mut p = profile(1, 10);
    assert!(complete_task(&mut p, &b"task-42".to_vec(), 25, 500).is_ok());
    assert_eq!(p.reputation_score, 35);
    assert_eq!(p.total_tasks_completed, 1);
    assert_eq!(p.last_activity_timestamp, 500);
}

#[test]
fn complete_task_rejects_bad_inputs() {
    let mut p = profile(1, 10);
    let r = complete_task(&mut p, &vec![b't'; 101], 25, 0);
    assert_eq!(r.unwrap_err(), ReputationError::TaskIdTooLong);

    let r = complete_task(&mut p, &Vec::new(), 0, 0);
    assert_eq!(r.unwrap_err(), ReputationError::InvalidReputationAmount);

    p.is_active = false;
    let r = complete_task(&mut p, &Vec::new(), 25, 0);
    assert_eq!(r.unwrap_err(), ReputationError::AgentInactive);
    assert_eq!(p.reputation_score, 10);
    assert_eq!(p.total_tasks_completed, 0);
}

#[test]
fn decay_reduces_exactly_by_formula() {
    // 10 days at 1% per day from 1000: minus 1000*100*10/10000 = 100.
    let mut p = profile(1, 1000);
    let cfg = config();
    assert!(apply_decay(&mut p, &cfg, 864000).is_ok());
    assert_eq!(p.reputation_score, 900);
    assert_eq!(p.last_activity_timestamp, 864000);
}

#[test]
fn decay_twice_within_cooldown_fails() {
    let mut p = profile(1, 1000);
    let cfg = config();
    assert!(apply_decay(&mut p, &cfg, 864000).is_ok());
    assert_eq!(p.reputation_score, 900);
    let r = apply_decay(&mut p, &cfg, 864000 + 86399);
    assert_eq!(r.unwrap_err(), ReputationError::DecayCooldown);
    assert_eq!(p.reputation_score, 900);
    // One full day later it applies again: minus 900*100*1/10000 = 9.
    assert!(apply_decay(&mut p, &cfg, 864000 + 86400).is_ok());
    assert_eq!(p.reputation_score, 891);
}

#[test]
fn decay_saturates_at_zero() {
    let mut p = profile(1, 5);
    let cfg = ProtocolConfig { decay_rate_per_day: 1000, ..config() };
    // 400 days at 10% per day wipes far more than the score holds.
    assert!(apply_decay(&mut p, &cfg, 400 * 86400).is_ok());
    assert_eq!(p.reputation_score, 0);
}

#[test]
fn slash_takes_twenty_percent_with_five_percent_bounty() {
    let slasher = profile(1, 5000);
    let mut target = profile(2, 1000);
    let outcome = slash_agent(&slasher, &mut target, &vec![0u8; 32]).unwrap();
    assert_eq!(outcome.slash_amount, 200);
    assert_eq!(outcome.bounty, 10);
    assert_eq!(target.reputation_score, 800);
    assert!(target.is_active);
}

#[test]
fn slash_requires_reputable_slasher() {
    let slasher = profile(1, 4999);
    let mut target = profile(2, 1000);
    let r = slash_agent(&slasher, &mut target, &vec![0u8; 32]);
    assert_eq!(r.unwrap_err(), ReputationError::InsufficientReputation);
    assert_eq!(target.reputation_score, 1000);
}

#[test]
fn slash_deactivates_below_floor() {
    let slasher = profile(1, 9000);
    let mut target = profile(2, 120);
    // 20% of 120 is 24; 96 is below the floor of 100.
    let outcome = slash_agent(&slasher, &mut target, &vec![7u8; 32]).unwrap();
    assert_eq!(outcome.slash_amount, 24);
    assert_eq!(target.reputation_score, 96);
    assert!(!target.is_active);
}

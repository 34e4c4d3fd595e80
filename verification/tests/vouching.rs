use agent_reputation::errors::ReputationError;
use agent_reputation::state::{AccountId, AgentProfile, ProtocolConfig};
use agent_reputation::vouch::{
    calculate_trust_weight, calculate_weighted_impact, can_withdraw_vouch, vouch_against,
    vouch_for, vouch_weighted,
};

fn profile(key: u64, score: u64) -> AgentProfile {
    AgentProfile {
        owner: AccountId { key },
        name: b"agent".to_vec(),
        reputation_score: score,
        total_tasks_completed: 0,
        last_activity_timestamp: 0,
        is_active: true,
        positive_vouches: 0,
        negative_vouches: 0,
        staked_amount: 0,
    }
}

fn config() -> ProtocolConfig {
    ProtocolConfig {
        min_reputation_for_vouching: 1000,
        decay_rate_per_day: 100,
        vouch_lockup_period: 604800,
        slash_threshold: 5000,
        max_trust_multiplier: 30000,
    }
}

#[test]
fn trust_weight_is_neutral_at_or_below_threshold() {
    assert_eq!(calculate_trust_weight(0, 1000, 30000), 10000);
    assert_eq!(calculate_trust_weight(999, 1000, 30000), 10000);
    assert_eq!(calculate_trust_weight(1000, 1000, 30000), 10000);
}

#[test]
fn trust_weight_scales_linearly_above_threshold() {
    // excess 500 of threshold 1000 earns half the 2.0x bonus span: 2.0x.
    assert_eq!(calculate_trust_weight(1500, 1000, 30000), 20000);
    // excess 250 earns a quarter of the span: 1.5x.
    assert_eq!(calculate_trust_weight(1250, 1000, 30000), 15000);
}

#[test]
fn trust_weight_caps_at_max_multiplier() {
    assert_eq!(calculate_trust_weight(2000, 1000, 30000), 30000);
    assert_eq!(calculate_trust_weight(u64::MAX, 1000, 30000), 30000);
}

#[test]
fn trust_weight_is_monotonic_in_samples() {
    let mut last = 0;
    for r in [0u64, 500, 1000, 1100, 1500, 2000, 5000, u64::MAX] {
        let w = calculate_trust_weight(r, 1000, 30000);
        assert!(w >= last);
        last = w;
    }
}

#[test]
fn trust_weight_zero_threshold_means_no_excess_scaling() {
    assert_eq!(calculate_trust_weight(5, 0, 30000), 10000);
    assert_eq!(calculate_trust_weight(u64::MAX, 0, 30000), 10000);
}

#[test]
fn weighted_impact_floors_and_saturates() {
    assert_eq!(calculate_weighted_impact(100, 20000), 200);
    assert_eq!(calculate_weighted_impact(99, 10000), 99);
    assert_eq!(calculate_weighted_impact(3, 15000), 4); // 4.5 floors to 4
    // The product saturates at u64::MAX before the basis-point division.
    assert_eq!(calculate_weighted_impact(u64::MAX, 20000), u64::MAX / 10000);
}

#[test]
fn self_vouch_fails_regardless_of_reputation() {
    let cfg = config();
    for score in [0u64, 1000, 1_000_000, u64::MAX] {
        let mut voucher = profile(1, score);
        let mut target = profile(1, 0);
        let r = vouch_weighted(
            AccountId { key: 1 },
            AccountId { key: 1 },
            &mut voucher,
            &mut target,
            &cfg,
            50,
            true,
            0,
        );
        assert_eq!(r.unwrap_err(), ReputationError::SelfVouchNotAllowed);
        assert_eq!(voucher.staked_amount, 0);
        assert_eq!(target.reputation_score, 0);
    }
}

#[test]
fn vouch_requires_minimum_reputation() {
    let cfg = config();
    let mut voucher = profile(1, 999);
    let mut target = profile(2, 0);
    let r = vouch_weighted(
        AccountId { key: 1 },
        AccountId { key: 2 },
        &mut voucher,
        &mut target,
        &cfg,
        50,
        true,
        0,
    );
    assert_eq!(r.unwrap_err(), ReputationError::InsufficientReputation);
}

#[test]
fn vouch_rejects_zero_amount() {
    let cfg = config();
    let mut voucher = profile(1, 2000);
    let mut target = profile(2, 0);
    let r = vouch_weighted(
        AccountId { key: 1 },
        AccountId { key: 2 },
        &mut voucher,
        &mut target,
        &cfg,
        0,
        true,
        0,
    );
    assert_eq!(r.unwrap_err(), ReputationError::InvalidReputationAmount);
}

#[test]
fn positive_vouch_applies_weighted_amount_and_stake() {
    let cfg = config();
    let mut voucher = profile(1, 1500);
    let mut target = profile(2, 10);
    let rec = vouch_for(
        AccountId { key: 1 },
        AccountId { key: 2 },
        &mut voucher,
        &mut target,
        &cfg,
        100,
        77,
    )
    .unwrap();
    assert_eq!(rec.trust_weight, 20000);
    assert_eq!(rec.weighted_amount, 200);
    assert_eq!(rec.base_amount, 100);
    assert_eq!(rec.voucher_reputation_at_time, 1500);
    assert!(rec.is_positive);
    assert_eq!(rec.created_at, 77);
    assert_eq!(rec.last_updated, 77);
    assert_eq!(target.reputation_score, 210);
    assert_eq!(target.positive_vouches, 1);
    assert_eq!(target.negative_vouches, 0);
    assert_eq!(voucher.staked_amount, 100);
    assert_eq!(voucher.reputation_score, 1500);
}

#[test]
fn negative_vouch_saturates_at_zero() {
    let cfg = config();
    let mut voucher = profile(1, 2000);
    let mut target = profile(2, 150);
    let rec = vouch_against(
        AccountId { key: 1 },
        AccountId { key: 2 },
        &mut voucher,
        &mut target,
        &cfg,
        100,
        0,
    )
    .unwrap();
    // weight 30000 makes the impact 300, far above the target's 150.
    assert_eq!(rec.weighted_amount, 300);
    assert_eq!(target.reputation_score, 0);
    assert_eq!(target.negative_vouches, 1);
    assert_eq!(target.positive_vouches, 0);
}

#[test]
fn withdraw_respects_lockup_window() {
    let cfg = config();
    let mut voucher = profile(1, 1500);
    let mut target = profile(2, 0);
    let rec = vouch_for(
        AccountId { key: 1 },
        AccountId { key: 2 },
        &mut voucher,
        &mut target,
        &cfg,
        100,
        1000,
    )
    .unwrap();
    assert_eq!(
        can_withdraw_vouch(&rec, &cfg, 1000 + 604799).unwrap_err(),
        ReputationError::LockupNotExpired
    );
    assert!(can_withdraw_vouch(&rec, &cfg, 1000 + 604800).is_ok());
}

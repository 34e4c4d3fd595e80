use agent_reputation::propagation::propagate_trust;
use agent_reputation::state::{AccountId, AgentProfile};

fn profile(key: u64, score: u64) -> AgentProfile {
    AgentProfile {
        owner: AccountId { key },
        name: Vec::new(),
        reputation_score: score,
        total_tasks_completed: 0,
        last_activity_timestamp: 0,
        is_active: true,
        positive_vouches: 0,
        negative_vouches: 0,
        staked_amount: 0,
    }
}

#[test]
fn empty_vouch_set_is_a_no_op() {
    let mut p = profile(1, 1000);
    assert!(propagate_trust(&mut p, &Vec::new(), 50).is_ok());
    assert_eq!(p.reputation_score, 1000);
    assert_eq!(p.last_activity_timestamp, 0);
}

#[test]
fn adversarial_inflated_voucher_is_capped_at_ten_percent() {
    // A single voucher with the maximal weight of 50000 bps tries to pump
    // the target; the increase still stops at 10% of the current score.
    let mut p = profile(1, 1000);
    let vouches = vec![(AccountId { key: 9 }, 8000u64, 50000u64)];
    assert!(propagate_trust(&mut p, &vouches, 55).is_ok());
    assert_eq!(p.reputation_score, 1100);
    assert_eq!(p.last_activity_timestamp, 55);
}

#[test]
fn propagation_never_decreases_score() {
    // A vouch set whose flow is tiny compared to the current score would
    // push the recurrence downward; the monotonic-up guard keeps it a no-op.
    let mut p = profile(1, 100000);
    let vouches = vec![(AccountId { key: 2 }, 10u64, 10000u64)];
    assert!(propagate_trust(&mut p, &vouches, 60).is_ok());
    assert_eq!(p.reputation_score, 100000);
    assert_eq!(p.last_activity_timestamp, 0);
}

#[test]
fn small_flow_applies_uncapped_increase() {
    // Flow 150 over score 1000: propagated = 150*0.85 + 1000*0.15 = 277 is
    // below the score, a no-op. Use score 100: propagated = 127 + 15 = 142,
    // increase 42 exceeds the 10-point cap, so the score lands on 110.
    let mut p = profile(1, 100);
    let vouches = vec![(AccountId { key: 2 }, 100u64, 15000u64)];
    assert!(propagate_trust(&mut p, &vouches, 70).is_ok());
    assert_eq!(p.reputation_score, 110);
}

#[test]
fn repeated_propagation_grows_at_most_ten_percent_per_call() {
    let mut p = profile(1, 1000);
    let vouches = vec![(AccountId { key: 9 }, 8000u64, 50000u64)];
    let mut last = p.reputation_score;
    for _ in 0..5 {
        assert!(propagate_trust(&mut p, &vouches, 1).is_ok());
        assert!(p.reputation_score >= last);
        assert!(p.reputation_score <= last + last / 10);
        last = p.reputation_score;
    }
    // 1000 -> 1100 -> 1210 -> 1331 -> 1464 -> 1610: bounded geometric creep,
    // no runaway jump from a single call.
    assert_eq!(p.reputation_score, 1610);
}

#[test]
fn contributions_divide_by_total_incoming_reputation() {
    // Two vouchers of reputation 500 each, weights 20000 and 10000:
    // flow = 500*20000/1000 + 500*10000/1000 = 10000 + 5000 = 15000.
    // propagated = 15000*0.85 + 200*0.15 = 12750 + 30; increase is capped
    // at 20 (10% of 200).
    let mut p = profile(1, 200);
    let vouches = vec![
        (AccountId { key: 2 }, 500u64, 20000u64),
        (AccountId { key: 3 }, 500u64, 10000u64),
    ];
    assert!(propagate_trust(&mut p, &vouches, 80).is_ok());
    assert_eq!(p.reputation_score, 220);
}

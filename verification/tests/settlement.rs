use silence_bridge::errors::ErrorCode;
use silence_bridge::fees::settlement_split;
use silence_bridge::gate::{
    calculate_reputation, compute_settlement, verify_intent_amounts, IntentAmounts,
    SettlementAmounts, SolverMetrics,
};

#[test]
fn split_example_ten_thousand_at_250_bps() {
    let d = settlement_split(10_000, 250).unwrap();
    assert_eq!(d.protocol_fee, 250);
    assert_eq!(d.solver_reward, 9_750);
}

#[test]
fn split_always_returns_whole_amount() {
    for amount in [1u128, 3, 9_999, 10_000, 10_001, 123_456_789] {
        for bps in [0u16, 1, 30, 250, 999, 1000] {
            let d = settlement_split(amount, bps).unwrap();
            assert_eq!(d.solver_reward + d.protocol_fee, amount);
            assert_eq!(d.protocol_fee, amount * bps as u128 / 10_000);
        }
    }
}

#[test]
fn split_zero_fee_pays_solver_everything() {
    let d = settlement_split(10_000, 0).unwrap();
    assert_eq!(d.protocol_fee, 0);
    assert_eq!(d.solver_reward, 10_000);
}

#[test]
fn split_rejects_multiplication_overflow() {
    assert_eq!(settlement_split(u128::MAX, 1000), Err(ErrorCode::Overflow));
}

#[test]
fn split_rounds_fee_down() {
    // 9_999 * 250 / 10_000 = 249.975, floor 249.
    let d = settlement_split(9_999, 250).unwrap();
    assert_eq!(d.protocol_fee, 249);
    assert_eq!(d.solver_reward, 9_750);
}

#[test]
fn verify_amounts_example() {
    let v = verify_intent_amounts(
        IntentAmounts { source_amount: 1000, destination_amount: 95 },
        10_000,
        500,
        30,
    )
    .unwrap();
    assert!(v.rate_valid);
    assert!(v.amount_sufficient);
    assert_eq!(v.fee, 3);
}

#[test]
fn verify_amounts_flags_bad_rate_and_short_amount() {
    // Expected destination at 5000 bps of 1000 is 500; 501 is too much.
    let v = verify_intent_amounts(
        IntentAmounts { source_amount: 1000, destination_amount: 501 },
        5_000,
        2_000,
        30,
    )
    .unwrap();
    assert!(!v.rate_valid);
    assert!(!v.amount_sufficient);
}

#[test]
fn verify_amounts_rejects_overflow() {
    let r = verify_intent_amounts(
        IntentAmounts { source_amount: u128::MAX, destination_amount: 1 },
        2,
        0,
        0,
    );
    assert_eq!(r, Err(ErrorCode::Overflow));
}

#[test]
fn compute_settlement_matches_calculator() {
    let d = compute_settlement(SettlementAmounts { total_amount: 10_000, protocol_fee_bps: 250 })
        .unwrap();
    assert_eq!(d.protocol_fee, 250);
    assert_eq!(d.solver_reward, 9_750);
}

#[test]
fn compute_settlement_rejects_fee_above_ceiling() {
    let r = compute_settlement(SettlementAmounts { total_amount: 10_000, protocol_fee_bps: 1001 });
    assert_eq!(r, Err(ErrorCode::FeeTooHigh));
}

#[test]
fn reputation_of_new_solver_starts_in_the_middle() {
    let s = calculate_reputation(
        SolverMetrics { total_executed: 0, successful: 0, failed: 0, total_volume: 0 },
        1_000,
    )
    .unwrap();
    assert_eq!(s.score, 500);
    assert_eq!(s.tier, 3);
    assert!(!s.high_value_eligible);
}

#[test]
fn reputation_caps_at_one_thousand() {
    let s = calculate_reputation(
        SolverMetrics { total_executed: 10, successful: 10, failed: 0, total_volume: 2_000 },
        1_000,
    )
    .unwrap();
    assert_eq!(s.score, 1_000);
    assert_eq!(s.tier, 5);
    assert!(s.high_value_eligible);
}

#[test]
fn reputation_tiers_follow_thresholds() {
    let tier_of = |successful: u64| {
        calculate_reputation(
            SolverMetrics { total_executed: 10, successful, failed: 10 - successful, total_volume: 0 },
            1_000,
        )
        .unwrap()
        .tier
    };
    assert_eq!(tier_of(9), 5); // 900
    assert_eq!(tier_of(7), 4); // 700
    assert_eq!(tier_of(5), 3); // 500
    assert_eq!(tier_of(3), 2); // 300
    assert_eq!(tier_of(1), 1); // 100
}

#[test]
fn reputation_volume_bonus_is_proportional() {
    let s = calculate_reputation(
        SolverMetrics { total_executed: 10, successful: 5, failed: 5, total_volume: 250 },
        1_000,
    )
    .unwrap();
    // 500 from the success rate, 250 * 100 / 1000 = 25 from volume.
    assert_eq!(s.score, 525);
    assert_eq!(s.tier, 3);
    assert!(!s.high_value_eligible);
}

#[test]
fn reputation_rejects_volume_bonus_overflow() {
    let r = calculate_reputation(
        SolverMetrics {
            total_executed: 1,
            successful: 1,
            failed: 0,
            total_volume: u128::MAX / 2,
        },
        u128::MAX,
    );
    assert_eq!(r, Err(ErrorCode::Overflow));
}

#[test]
fn reputation_high_tier_alone_is_not_high_value_eligible() {
    // Tier 4 on the success rate, but volume below the threshold.
    let s = calculate_reputation(
        SolverMetrics { total_executed: 10, successful: 7, failed: 3, total_volume: 10 },
        1_000,
    )
    .unwrap();
    assert_eq!(s.tier, 4);
    assert!(!s.high_value_eligible);
}

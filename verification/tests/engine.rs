use silence_bridge::chain::Chain;
use silence_bridge::errors::ErrorCode;
use silence_bridge::intent::IntentStatus;
use silence_bridge::registry::SilenceBridgeRegistry;

const OWNER: u64 = 1;
const FEE_VAULT: u64 = 2;
const CREATOR: u64 = 9;
const SOLVER: u64 = 7;
const ALL_CHAINS: u8 = 0x07;
const NEAR_ONLY: u8 = 0x02;

fn fresh_registry() -> SilenceBridgeRegistry {
    SilenceBridgeRegistry::new(OWNER, 100, 250, FEE_VAULT, Chain::Solana).unwrap()
}

fn registry_with_solver() -> SilenceBridgeRegistry {
    let mut registry = fresh_registry();
    registry.register_solver(SOLVER, ALL_CHAINS, 100, 5).unwrap();
    registry
}

#[test]
fn new_rejects_fee_above_ceiling() {
    let r = SilenceBridgeRegistry::new(OWNER, 100, 1001, FEE_VAULT, Chain::Solana);
    assert_eq!(r.err(), Some(ErrorCode::FeeTooHigh));
}

#[test]
fn register_solver_records_stake_and_starting_score() {
    let registry = registry_with_solver();
    let solver = registry.get_solver(SOLVER).unwrap();
    assert_eq!(solver.stake, 100);
    assert_eq!(solver.reputation_score, 100);
    assert!(solver.is_active);
    assert_eq!(registry.get_stats().active_solvers, 1);
}

#[test]
fn register_solver_rejects_bad_registrations() {
    let mut registry = registry_with_solver();
    assert_eq!(registry.register_solver(8, 0, 100, 5), Err(ErrorCode::NoSupportedChains));
    assert_eq!(registry.register_solver(8, ALL_CHAINS, 99, 5), Err(ErrorCode::InsufficientStake));
    assert_eq!(
        registry.register_solver(SOLVER, ALL_CHAINS, 100, 5),
        Err(ErrorCode::SolverAlreadyRegistered)
    );
}

#[test]
fn create_intent_escrows_exactly_the_deposit() {
    let mut registry = fresh_registry();
    registry
        .create_intent(42, CREATOR, Chain::Near, [0; 32], [0; 32], [0; 32], false, 100, 10_000, 50)
        .unwrap();
    let intent = registry.get_intent(42).unwrap();
    assert_eq!(intent.escrow, 10_000);
    assert_eq!(intent.source_amount, 10_000);
    assert_eq!(intent.status, IntentStatus::Created);
    assert_eq!(intent.solver, None);
    assert_eq!(intent.source_chain, Chain::Solana);
    assert_eq!(intent.created_at, 50);
    assert_eq!(intent.expires_at, 150);
    assert_eq!(registry.get_stats().total_intents, 1);
}

#[test]
fn create_intent_rejects_bad_requests() {
    let mut registry = fresh_registry();
    assert_eq!(
        registry.create_intent(
            42, CREATOR, Chain::Near, [0; 32], [0; 32], [0; 32], false, 100, 0, 50
        ),
        Err(ErrorCode::ZeroDeposit)
    );
    registry
        .create_intent(42, CREATOR, Chain::Near, [0; 32], [0; 32], [0; 32], false, 100, 10_000, 50)
        .unwrap();
    assert_eq!(
        registry.create_intent(
            42, CREATOR, Chain::Near, [0; 32], [0; 32], [0; 32], false, 100, 10_000, 50
        ),
        Err(ErrorCode::IntentAlreadyExists)
    );
    assert_eq!(
        registry.create_intent(
            43, CREATOR, Chain::Near, [0; 32], [0; 32], [0; 32], false, 0, 10_000, 50
        ),
        Err(ErrorCode::InvalidExpiry)
    );
    assert_eq!(
        registry.create_intent(
            43, CREATOR, Chain::Near, [0; 32], [0; 32], [0; 32], false, u64::MAX, 10_000, 50
        ),
        Err(ErrorCode::InvalidExpiry)
    );
}

#[test]
fn happy_path_settles_with_exact_split() {
    let mut registry = registry_with_solver();
    registry
        .create_intent(42, CREATOR, Chain::Near, [0; 32], [0; 32], [0; 32], false, 100, 10_000, 50)
        .unwrap();
    registry.match_intent(42, SOLVER, 60).unwrap();
    assert_eq!(registry.get_intent(42).unwrap().status, IntentStatus::Matched);
    assert_eq!(registry.get_intent(42).unwrap().solver, Some(SOLVER));

    registry.execute_intent(42, SOLVER, [0xAB; 32], None, 70).unwrap();
    let executed = registry.get_intent(42).unwrap();
    assert_eq!(executed.status, IntentStatus::Executed);
    assert_eq!(executed.executed_at, Some(70));
    assert_eq!(executed.destination_tx_hash, [0xAB; 32]);

    let outcome = registry.settle_intent(42).unwrap();
    assert_eq!(outcome.solver_id, SOLVER);
    assert_eq!(outcome.fee_vault, FEE_VAULT);
    assert_eq!(outcome.protocol_fee, 250);
    assert_eq!(outcome.solver_reward, 9_750);
    assert_eq!(outcome.solver_reward + outcome.protocol_fee, 10_000);

    let settled = registry.get_intent(42).unwrap();
    assert_eq!(settled.status, IntentStatus::Settled);
    assert_eq!(settled.escrow, 0);

    let solver = registry.get_solver(SOLVER).unwrap();
    assert_eq!(solver.total_intents_executed, 1);
    assert_eq!(solver.successful_intents, 1);
    assert_eq!(solver.failed_intents, 0);
    assert_eq!(solver.total_volume, 10_000);
    assert_eq!(solver.reputation_score, 101);

    assert_eq!(registry.get_stats().total_volume, 10_000);
}

#[test]
fn intent_matches_at_most_one_solver() {
    let mut registry = registry_with_solver();
    registry.register_solver(8, ALL_CHAINS, 100, 5).unwrap();
    registry
        .create_intent(42, CREATOR, Chain::Near, [0; 32], [0; 32], [0; 32], false, 100, 10_000, 50)
        .unwrap();
    registry.match_intent(42, SOLVER, 60).unwrap();
    assert_eq!(registry.match_intent(42, 8, 61), Err(ErrorCode::IntentAlreadyMatched));
    assert_eq!(registry.match_intent(42, SOLVER, 61), Err(ErrorCode::IntentAlreadyMatched));
    assert_eq!(registry.get_intent(42).unwrap().solver, Some(SOLVER));
}

#[test]
fn match_fails_expired_at_the_boundary() {
    let mut registry = registry_with_solver();
    registry
        .create_intent(42, CREATOR, Chain::Near, [0; 32], [0; 32], [0; 32], false, 100, 10_000, 50)
        .unwrap();
    // expires_at is 150: matching at 150 is already too late.
    assert_eq!(registry.match_intent(42, SOLVER, 150), Err(ErrorCode::IntentExpired));
    assert_eq!(registry.match_intent(42, SOLVER, 151), Err(ErrorCode::IntentExpired));
    assert!(registry.match_intent(42, SOLVER, 149).is_ok());
}

#[test]
fn match_rejects_unsupported_destination_chain() {
    let mut registry = SilenceBridgeRegistry::new(OWNER, 100, 250, FEE_VAULT, Chain::Near).unwrap();
    registry.register_solver(SOLVER, NEAR_ONLY, 100, 5).unwrap();
    registry
        .create_intent(42, CREATOR, Chain::Zcash, [0; 32], [0; 32], [0; 32], false, 100, 10_000, 50)
        .unwrap();
    assert_eq!(registry.match_intent(42, SOLVER, 60), Err(ErrorCode::ChainNotSupported));
}

#[test]
fn match_rejects_missing_or_inactive_solver() {
    let mut registry = registry_with_solver();
    registry
        .create_intent(42, CREATOR, Chain::Near, [0; 32], [0; 32], [0; 32], false, 100, 10_000, 50)
        .unwrap();
    assert_eq!(registry.match_intent(42, 99, 60), Err(ErrorCode::SolverNotFound));
    assert_eq!(registry.match_intent(99, SOLVER, 60), Err(ErrorCode::IntentNotFound));
    registry.deactivate_solver(OWNER, SOLVER).unwrap();
    assert_eq!(registry.match_intent(42, SOLVER, 60), Err(ErrorCode::SolverNotActive));
}

#[test]
fn execute_requires_the_bound_solver() {
    let mut registry = registry_with_solver();
    registry
        .create_intent(42, CREATOR, Chain::Near, [0; 32], [0; 32], [0; 32], false, 100, 10_000, 50)
        .unwrap();
    // Not matched yet: nobody is bound.
    assert_eq!(
        registry.execute_intent(42, SOLVER, [0; 32], None, 70),
        Err(ErrorCode::NotMatchedSolver)
    );
    registry.match_intent(42, SOLVER, 60).unwrap();
    assert_eq!(
        registry.execute_intent(42, 8, [0; 32], None, 70),
        Err(ErrorCode::NotMatchedSolver)
    );
    registry.execute_intent(42, SOLVER, [0; 32], None, 70).unwrap();
    // A second execution finds the intent past `Matched`.
    assert_eq!(
        registry.execute_intent(42, SOLVER, [0; 32], None, 71),
        Err(ErrorCode::InvalidIntentStatus)
    );
}

#[test]
fn settle_requires_an_executed_intent() {
    let mut registry = registry_with_solver();
    registry
        .create_intent(42, CREATOR, Chain::Near, [0; 32], [0; 32], [0; 32], false, 100, 10_000, 50)
        .unwrap();
    assert_eq!(registry.settle_intent(42), Err(ErrorCode::IntentNotExecuted));
    assert_eq!(registry.settle_intent(99), Err(ErrorCode::IntentNotFound));
    registry.match_intent(42, SOLVER, 60).unwrap();
    assert_eq!(registry.settle_intent(42), Err(ErrorCode::IntentNotExecuted));
    registry.execute_intent(42, SOLVER, [0; 32], None, 70).unwrap();
    registry.settle_intent(42).unwrap();
    // Settling is not repeatable.
    assert_eq!(registry.settle_intent(42), Err(ErrorCode::IntentNotExecuted));
}

#[test]
fn settle_rejects_fee_overflow_with_no_state_change() {
    let mut registry = registry_with_solver();
    registry
        .create_intent(
            42, CREATOR, Chain::Near, [0; 32], [0; 32], [0; 32], false, 100, u128::MAX, 50
        )
        .unwrap();
    registry.match_intent(42, SOLVER, 60).unwrap();
    registry.execute_intent(42, SOLVER, [0; 32], None, 70).unwrap();
    assert_eq!(registry.settle_intent(42), Err(ErrorCode::Overflow));
    let intent = registry.get_intent(42).unwrap();
    assert_eq!(intent.status, IntentStatus::Executed);
    assert_eq!(intent.escrow, u128::MAX);
}

#[test]
fn fail_after_match_refunds_and_is_terminal() {
    let mut registry = registry_with_solver();
    registry
        .create_intent(42, CREATOR, Chain::Near, [0; 32], [0; 32], [0; 32], false, 100, 10_000, 50)
        .unwrap();
    registry.match_intent(42, SOLVER, 60).unwrap();
    let refund = registry.fail_intent(42, SOLVER).unwrap();
    assert_eq!(refund.creator, CREATOR);
    assert_eq!(refund.amount, 10_000);

    let intent = registry.get_intent(42).unwrap();
    assert_eq!(intent.status, IntentStatus::Failed);
    assert_eq!(intent.escrow, 0);

    // `Executed` and `Settled` are unreachable from here.
    assert_eq!(
        registry.execute_intent(42, SOLVER, [0; 32], None, 70),
        Err(ErrorCode::InvalidIntentStatus)
    );
    assert_eq!(registry.settle_intent(42), Err(ErrorCode::IntentNotExecuted));
    assert_eq!(registry.match_intent(42, SOLVER, 61), Err(ErrorCode::IntentAlreadyMatched));
    assert_eq!(registry.fail_intent(42, SOLVER), Err(ErrorCode::InvalidIntentStatus));

    let solver = registry.get_solver(SOLVER).unwrap();
    assert_eq!(solver.failed_intents, 1);
    assert_eq!(solver.total_intents_executed, 1);
    assert_eq!(solver.reputation_score, 95);
}

#[test]
fn fail_authorization_follows_the_binding() {
    let mut registry = registry_with_solver();
    registry
        .create_intent(42, CREATOR, Chain::Near, [0; 32], [0; 32], [0; 32], false, 100, 10_000, 50)
        .unwrap();
    // Unmatched: only the creator may abandon it.
    assert_eq!(registry.fail_intent(42, SOLVER), Err(ErrorCode::Unauthorized));
    registry.match_intent(42, SOLVER, 60).unwrap();
    // Matched: only the bound solver.
    assert_eq!(registry.fail_intent(42, CREATOR), Err(ErrorCode::NotMatchedSolver));
    assert_eq!(registry.fail_intent(99, SOLVER), Err(ErrorCode::IntentNotFound));
    registry.fail_intent(42, SOLVER).unwrap();
}

#[test]
fn unmatched_intent_failed_by_creator_is_refunded() {
    let mut registry = fresh_registry();
    registry
        .create_intent(42, CREATOR, Chain::Near, [0; 32], [0; 32], [0; 32], false, 100, 10_000, 50)
        .unwrap();
    let refund = registry.fail_intent(42, CREATOR).unwrap();
    assert_eq!(refund, silence_bridge::registry::Refund { creator: CREATOR, amount: 10_000 });
    assert_eq!(registry.get_intent(42).unwrap().status, IntentStatus::Failed);
}

#[test]
fn reputation_saturates_at_zero_under_repeated_failures() {
    let mut registry = registry_with_solver();
    for i in 0..25u64 {
        registry
            .create_intent(
                100 + i, CREATOR, Chain::Near, [0; 32], [0; 32], [0; 32], false, 100, 1_000, 50
            )
            .unwrap();
        registry.match_intent(100 + i, SOLVER, 60).unwrap();
        registry.fail_intent(100 + i, SOLVER).unwrap();
        let score = registry.get_solver(SOLVER).unwrap().reputation_score;
        assert!(score <= 1000);
    }
    // 100 starting points, 25 failures at 5 points each: floored at zero.
    assert_eq!(registry.get_solver(SOLVER).unwrap().reputation_score, 0);
    assert_eq!(registry.get_solver(SOLVER).unwrap().failed_intents, 25);
}

#[test]
fn reputation_saturates_at_the_ceiling_under_repeated_successes() {
    let mut registry = registry_with_solver();
    for i in 0..5u64 {
        registry
            .create_intent(
                100 + i, CREATOR, Chain::Near, [0; 32], [0; 32], [0; 32], false, 100, 1_000, 50
            )
            .unwrap();
        registry.match_intent(100 + i, SOLVER, 60).unwrap();
        registry.execute_intent(100 + i, SOLVER, [0; 32], None, 70).unwrap();
        registry.settle_intent(100 + i).unwrap();
    }
    assert_eq!(registry.get_solver(SOLVER).unwrap().reputation_score, 105);
    assert_eq!(registry.get_solver(SOLVER).unwrap().successful_intents, 5);
    assert_eq!(registry.get_stats().total_volume, 5_000);
}

#[test]
fn set_protocol_fee_is_owner_only_and_capped() {
    let mut registry = fresh_registry();
    assert_eq!(registry.set_protocol_fee(CREATOR, 100), Err(ErrorCode::Unauthorized));
    assert_eq!(registry.set_protocol_fee(OWNER, 1001), Err(ErrorCode::FeeTooHigh));
    registry.set_protocol_fee(OWNER, 1000).unwrap();
    assert_eq!(registry.get_stats().protocol_fee_bps, 1000);
}

#[test]
fn deactivate_solver_is_owner_only_and_counts_down() {
    let mut registry = registry_with_solver();
    assert_eq!(registry.deactivate_solver(CREATOR, SOLVER), Err(ErrorCode::Unauthorized));
    assert_eq!(registry.deactivate_solver(OWNER, 99), Err(ErrorCode::SolverNotFound));
    registry.deactivate_solver(OWNER, SOLVER).unwrap();
    assert!(!registry.get_solver(SOLVER).unwrap().is_active);
    assert_eq!(registry.get_stats().active_solvers, 0);
}

#[test]
fn deactivate_solver_is_idempotent() {
    let mut registry = registry_with_solver();
    registry.register_solver(8, ALL_CHAINS, 100, 5).unwrap();
    assert_eq!(registry.get_stats().active_solvers, 2);
    registry.deactivate_solver(OWNER, SOLVER).unwrap();
    assert_eq!(registry.get_stats().active_solvers, 1);
    // Deactivating the same solver again succeeds and changes nothing: the
    // counter keeps counting the solvers that really are active.
    registry.deactivate_solver(OWNER, SOLVER).unwrap();
    registry.deactivate_solver(OWNER, SOLVER).unwrap();
    assert_eq!(registry.get_stats().active_solvers, 1);
    assert!(!registry.get_solver(SOLVER).unwrap().is_active);
    assert!(registry.get_solver(8).unwrap().is_active);
    assert_eq!(registry.get_active_solvers(0, 10).len(), 1);
}

#[test]
fn getters_filter_and_paginate() {
    let mut registry = fresh_registry();
    registry.register_solver(10, 0x03, 100, 5).unwrap(); // Solana + Near
    registry.register_solver(11, 0x06, 100, 5).unwrap(); // Near + Zcash
    registry.register_solver(12, 0x07, 100, 5).unwrap(); // all three
    registry.deactivate_solver(OWNER, 11).unwrap();

    let active = registry.get_active_solvers(0, 10);
    assert_eq!(active.len(), 2);
    assert_eq!(active[0].solver_id, 10);
    assert_eq!(active[1].solver_id, 12);

    let page = registry.get_active_solvers(1, 1);
    assert_eq!(page.len(), 0); // the record at index 1 is inactive
    let page = registry.get_active_solvers(2, 5);
    assert_eq!(page.len(), 1);
    assert_eq!(page[0].solver_id, 12);
    assert_eq!(registry.get_active_solvers(17, 5).len(), 0);

    let capable = registry.find_solvers_for_chains(Chain::Solana, Chain::Near);
    assert_eq!(capable.len(), 2);
    assert_eq!(capable[0].solver_id, 10);
    assert_eq!(capable[1].solver_id, 12);
    let capable = registry.find_solvers_for_chains(Chain::Solana, Chain::Zcash);
    assert_eq!(capable.len(), 1);
    assert_eq!(capable[0].solver_id, 12);

    registry
        .create_intent(1, CREATOR, Chain::Near, [0; 32], [0; 32], [0; 32], false, 100, 1_000, 50)
        .unwrap();
    registry
        .create_intent(2, 33, Chain::Near, [0; 32], [0; 32], [0; 32], false, 100, 1_000, 50)
        .unwrap();
    registry
        .create_intent(3, CREATOR, Chain::Zcash, [0; 32], [0; 32], [0; 32], false, 100, 1_000, 50)
        .unwrap();
    let mine = registry.get_intents_by_creator(CREATOR);
    assert_eq!(mine.len(), 2);
    assert_eq!(mine[0].intent_id, 1);
    assert_eq!(mine[1].intent_id, 3);
    assert!(registry.get_intent(4).is_none());
    assert!(registry.get_solver(99).is_none());
}

#[test]
fn stats_track_the_aggregates() {
    let mut registry = registry_with_solver();
    registry
        .create_intent(42, CREATOR, Chain::Near, [0; 32], [0; 32], [0; 32], false, 100, 10_000, 50)
        .unwrap();
    let stats = registry.get_stats();
    assert_eq!(stats.total_intents, 1);
    assert_eq!(stats.total_solvers, 1);
    assert_eq!(stats.active_solvers, 1);
    assert_eq!(stats.total_volume, 0);
    assert_eq!(stats.protocol_fee_bps, 250);
}

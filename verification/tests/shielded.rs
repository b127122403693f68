use silence_bridge::chain::Chain;
use silence_bridge::errors::ErrorCode;
use silence_bridge::intent::IntentStatus;
use silence_bridge::registry::{SilenceBridgeRegistry, VerificationOutcome};

const OWNER: u64 = 1;
const FEE_VAULT: u64 = 2;
const CREATOR: u64 = 9;
const SOLVER: u64 = 7;

fn matched_shielded_intent() -> SilenceBridgeRegistry {
    let mut registry = SilenceBridgeRegistry::new(OWNER, 100, 250, FEE_VAULT, Chain::Solana).unwrap();
    registry.register_solver(SOLVER, 0x07, 100, 5).unwrap();
    registry
        .create_intent(42, CREATOR, Chain::Zcash, [9; 32], [0; 32], [0; 32], true, 100, 10_000, 50)
        .unwrap();
    registry.match_intent(42, SOLVER, 60).unwrap();
    registry
}

#[test]
fn shielded_intent_cannot_execute_directly() {
    let mut registry = matched_shielded_intent();
    assert_eq!(
        registry.execute_intent(42, SOLVER, [0xAB; 32], None, 70),
        Err(ErrorCode::VerificationRequired)
    );
}

#[test]
fn accepted_verdict_executes_with_the_submitted_delivery() {
    let mut registry = matched_shielded_intent();
    registry.submit_shielded_execution(42, SOLVER, 555, [0xAB; 32], 70).unwrap();
    // Still matched while the round-trip is in flight.
    assert_eq!(registry.get_intent(42).unwrap().status, IntentStatus::Matched);

    let outcome = registry.deliver_verification(555, true, [0xCD; 32], 80).unwrap();
    assert_eq!(outcome, VerificationOutcome::Accepted);

    let intent = registry.get_intent(42).unwrap();
    assert_eq!(intent.status, IntentStatus::Executed);
    assert_eq!(intent.executed_at, Some(80));
    assert_eq!(intent.destination_tx_hash, [0xAB; 32]);
    assert_eq!(intent.privacy_proof, Some([0xCD; 32]));

    let settlement = registry.settle_intent(42).unwrap();
    assert_eq!(settlement.solver_reward + settlement.protocol_fee, 10_000);
}

#[test]
fn rejected_verdict_fails_the_intent_and_refunds() {
    let mut registry = matched_shielded_intent();
    registry.submit_shielded_execution(42, SOLVER, 555, [0xAB; 32], 70).unwrap();
    let outcome = registry.deliver_verification(555, false, [0; 32], 80).unwrap();
    match outcome {
        VerificationOutcome::Rejected(refund) => {
            assert_eq!(refund.creator, CREATOR);
            assert_eq!(refund.amount, 10_000);
        },
        VerificationOutcome::Accepted => panic!("a failed range check must not execute"),
    }
    let intent = registry.get_intent(42).unwrap();
    assert_eq!(intent.status, IntentStatus::Failed);
    assert_eq!(intent.escrow, 0);

    // The failure counts against the bound solver, exactly as a declared
    // failure would.
    let solver = registry.get_solver(SOLVER).unwrap();
    assert_eq!(solver.failed_intents, 1);
    assert_eq!(solver.total_intents_executed, 1);
    assert_eq!(solver.successful_intents, 0);
    assert_eq!(solver.reputation_score, 95);
}

#[test]
fn submission_requires_the_waiting_sub_state() {
    let mut registry = matched_shielded_intent();
    assert_eq!(
        registry.submit_shielded_execution(99, SOLVER, 555, [0; 32], 70),
        Err(ErrorCode::IntentNotFound)
    );
    assert_eq!(
        registry.submit_shielded_execution(42, CREATOR, 555, [0; 32], 70),
        Err(ErrorCode::NotMatchedSolver)
    );
    registry.submit_shielded_execution(42, SOLVER, 555, [0; 32], 70).unwrap();
    // One round-trip at a time, and correlation ids are not reusable.
    assert_eq!(
        registry.submit_shielded_execution(42, SOLVER, 556, [0; 32], 71),
        Err(ErrorCode::VerificationPending)
    );
}

#[test]
fn plain_intent_does_not_take_the_oracle_path() {
    let mut registry = SilenceBridgeRegistry::new(OWNER, 100, 250, FEE_VAULT, Chain::Solana).unwrap();
    registry.register_solver(SOLVER, 0x07, 100, 5).unwrap();
    registry
        .create_intent(42, CREATOR, Chain::Near, [0; 32], [0; 32], [0; 32], false, 100, 10_000, 50)
        .unwrap();
    registry.match_intent(42, SOLVER, 60).unwrap();
    assert_eq!(
        registry.submit_shielded_execution(42, SOLVER, 555, [0; 32], 70),
        Err(ErrorCode::InvalidIntentStatus)
    );
}

#[test]
fn verdicts_resolve_exactly_once() {
    let mut registry = matched_shielded_intent();
    registry.submit_shielded_execution(42, SOLVER, 555, [0xAB; 32], 70).unwrap();
    // A verdict under an unknown correlation id is rejected.
    assert_eq!(
        registry.deliver_verification(556, true, [0; 32], 80),
        Err(ErrorCode::UnknownVerification)
    );
    registry.deliver_verification(555, true, [0; 32], 80).unwrap();
    // A duplicate delivery of the same verdict is rejected.
    assert_eq!(
        registry.deliver_verification(555, true, [0; 32], 81),
        Err(ErrorCode::UnknownVerification)
    );
}

#[test]
fn failing_the_intent_cancels_the_round_trip() {
    let mut registry = matched_shielded_intent();
    registry.submit_shielded_execution(42, SOLVER, 555, [0xAB; 32], 70).unwrap();
    registry.fail_intent(42, SOLVER).unwrap();
    // The late callback matches nothing and cannot resurrect the intent.
    assert_eq!(
        registry.deliver_verification(555, true, [0; 32], 80),
        Err(ErrorCode::UnknownVerification)
    );
    assert_eq!(registry.get_intent(42).unwrap().status, IntentStatus::Failed);
}

use silence_bridge::attestation::{verify_attestation, TEEAttestation};
use silence_bridge::bridge_request::{new_bridge_request, update_bridge_status, BridgeStatus};
use silence_bridge::gate::{
    generate_privacy_proof, verify_attestation as verify_attestation_bytes, AttestationData,
    ShieldedTransfer,
};

fn sample_attestation() -> TEEAttestation {
    TEEAttestation {
        enclave_id: "enclave-1".to_string(),
        attestation_proof: "proof-bytes".to_string(),
        timestamp: 1_700_000_000,
        public_key: "pk".to_string(),
        quote: "quote".to_string(),
    }
}

#[test]
fn attestation_with_all_fields_is_plausible() {
    assert!(verify_attestation(&sample_attestation()));
}

#[test]
fn attestation_missing_fields_is_rejected() {
    let mut a = sample_attestation();
    a.enclave_id = String::new();
    assert!(!verify_attestation(&a));

    let mut a = sample_attestation();
    a.attestation_proof = String::new();
    assert!(!verify_attestation(&a));

    let mut a = sample_attestation();
    a.timestamp = 0;
    assert!(!verify_attestation(&a));
}

#[test]
fn byte_attestation_checks_measurement_freshness_and_quote() {
    let attestation = AttestationData {
        enclave_id: [7; 32],
        quote_signature: [1; 64],
        timestamp: 100,
    };
    assert!(verify_attestation_bytes(&attestation, &[7; 32], 100));
    assert!(!verify_attestation_bytes(&attestation, &[8; 32], 100));
    assert!(!verify_attestation_bytes(&attestation, &[7; 32], 101));
    let unsigned = AttestationData { quote_signature: [0; 64], ..attestation };
    assert!(!verify_attestation_bytes(&unsigned, &[7; 32], 100));
    // A single nonzero byte anywhere in the quote counts as signed.
    let mut one_bit = unsigned;
    one_bit.quote_signature[63] = 1;
    assert!(verify_attestation_bytes(&one_bit, &[7; 32], 100));
}

#[test]
fn privacy_proof_commitment_folds_amount_blinding_and_recipient() {
    let transfer = ShieldedTransfer {
        amount: 0x0102,
        blinding: {
            let mut b = [0u8; 32];
            for (i, byte) in b.iter_mut().enumerate() {
                *byte = i as u8;
            }
            b
        },
        recipient_hash: [0xFF; 32],
    };
    let proof = generate_privacy_proof(transfer, 0x0102);
    assert!(proof.range_valid);
    // First sixteen bytes also fold in the little-endian amount.
    assert_eq!(proof.commitment[0], 0x00 ^ 0xFF ^ 0x02);
    assert_eq!(proof.commitment[1], 0x01 ^ 0xFF ^ 0x01);
    assert_eq!(proof.commitment[2], 0x02 ^ 0xFF);
    assert_eq!(proof.commitment[15], 0x0F ^ 0xFF);
    // The upper half folds only blinding and recipient.
    for i in 16..32 {
        assert_eq!(proof.commitment[i], (i as u8) ^ 0xFF);
    }
}

#[test]
fn privacy_proof_range_check_is_exact() {
    let transfer = ShieldedTransfer { amount: 5, blinding: [0; 32], recipient_hash: [0; 32] };
    assert!(generate_privacy_proof(transfer, 5).range_valid);
    assert!(!generate_privacy_proof(transfer, 4).range_valid);
}

#[test]
fn bridge_request_starts_pending_with_no_hashes() {
    let request = new_bridge_request(
        "req-1".to_string(),
        "near".to_string(),
        "zcash".to_string(),
        1_000,
        "NEAR".to_string(),
        "addr".to_string(),
        true,
        50,
    );
    assert_eq!(request.status, BridgeStatus::Pending);
    assert_eq!(request.lock_tx_hash, None);
    assert_eq!(request.mint_tx_hash, None);
    assert_eq!(request.proof_hash, None);
    assert_eq!(request.amount, 1_000);
    assert_eq!(request.created_at, 50);
}

#[test]
fn bridge_request_updates_keep_hashes_unless_given() {
    let mut request = new_bridge_request(
        "req-1".to_string(),
        "near".to_string(),
        "zcash".to_string(),
        1_000,
        "NEAR".to_string(),
        "addr".to_string(),
        false,
        50,
    );
    update_bridge_status(&mut request, BridgeStatus::Locked, Some("lock-tx".to_string()), None, None);
    assert_eq!(request.status, BridgeStatus::Locked);
    assert_eq!(request.lock_tx_hash.as_deref(), Some("lock-tx"));

    update_bridge_status(&mut request, BridgeStatus::Proved, None, None, Some("proof".to_string()));
    assert_eq!(request.status, BridgeStatus::Proved);
    // The lock hash written earlier survives an update that omits it.
    assert_eq!(request.lock_tx_hash.as_deref(), Some("lock-tx"));
    assert_eq!(request.proof_hash.as_deref(), Some("proof"));

    update_bridge_status(
        &mut request,
        BridgeStatus::Minted,
        None,
        Some("mint-tx".to_string()),
        None,
    );
    assert_eq!(request.mint_tx_hash.as_deref(), Some("mint-tx"));
    assert_eq!(request.status, BridgeStatus::Minted);
}

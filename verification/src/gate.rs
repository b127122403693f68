//! The input/output contract of the privacy-preserving verification oracle.
//!
//! The oracle checks amounts, rates, settlement splits, solver reputation
//! and transfer ranges over values the engine never sees in plaintext, and
//! returns only boolean flags and derived integers. This module states, and
//! implements over plain values, exactly what the oracle computes; the
//! cryptographic transport around it is the host's concern.

use vstd::prelude::*;

use crate::errors::ErrorCode;
use crate::fees::{settlement_split, spec_protocol_fee, SettlementDistribution};
use crate::fees::{BPS_DENOMINATOR, MAX_FEE_BPS};

verus! {

/// The pair of amounts an intent promises: what the creator escrows on the
/// source ledger and what the solver must deliver on the destination.
#[derive(Clone, Copy, Debug, PartialEq, Eq, Structural)]
pub struct IntentAmounts {
    pub source_amount: u128,
    pub destination_amount: u128,
}

/// What the oracle reveals about an intent's amounts: two validity flags
/// and the protocol fee, never the amounts themselves.
#[derive(Clone, Copy, Debug, PartialEq, Eq, Structural)]
pub struct IntentVerification {
    /// The destination amount stays within the expected exchange rate.
    pub rate_valid: bool,
    /// The source amount reaches the required minimum.
    pub amount_sufficient: bool,
    /// The protocol fee owed on the source amount.
    pub fee: u128,
}

/// An escrowed total together with the fee rate to split it by.
#[derive(Clone, Copy, Debug, PartialEq, Eq, Structural)]
pub struct SettlementAmounts {
    pub total_amount: u128,
    pub protocol_fee_bps: u64,
}

/// A solver's raw performance counters, as the oracle receives them.
#[derive(Clone, Copy, Debug, PartialEq, Eq, Structural)]
pub struct SolverMetrics {
    pub total_executed: u64,
    pub successful: u64,
    pub failed: u64,
    pub total_volume: u128,
}

/// The reputation the oracle derives from a solver's metrics.
#[derive(Clone, Copy, Debug, PartialEq, Eq, Structural)]
pub struct ReputationScore {
    /// 0 to 1000.
    pub score: u32,
    /// Eligibility bucket, 1 to 5.
    pub tier: u8,
    /// Whether the solver may take high-value intents.
    pub high_value_eligible: bool,
}

/// A shielded transfer's hidden fields: the amount, a blinding factor, and
/// the recipient's address hash.
#[derive(Clone, Copy, Debug, PartialEq, Eq)]
pub struct ShieldedTransfer {
    pub amount: u128,
    pub blinding: [u8; 32],
    pub recipient_hash: [u8; 32],
}

/// A commitment binding amount, blinding factor and recipient, plus a
/// range flag; the commitment reveals none of the three.
#[derive(Clone, Copy, Debug, PartialEq, Eq)]
pub struct PrivacyProof {
    pub commitment: [u8; 32],
    pub range_valid: bool,
}

/// Whether `destination` stays within the exchange rate: at most
/// `source * expected_rate_bps / 10000`.
pub open spec fn spec_rate_valid(source: u128, destination: u128, expected_rate_bps: u64) -> bool {
    destination <= (source * expected_rate_bps) / (BPS_DENOMINATOR as int)
}

/// Checks an intent's hidden amounts against an expected exchange rate, a
/// minimum source amount, and the protocol fee rate.
///
/// Rejects exactly the inputs whose rate or fee product overflows 128-bit
/// arithmetic; otherwise both flags and the fee follow the oracle's fixed
/// formulas.
pub fn verify_intent_amounts(
    amounts: IntentAmounts,
    expected_rate_bps: u64,
    min_source_amount: u128,
    protocol_fee_bps: u64,
) -> (r: Result<IntentVerification, ErrorCode>)
    ensures
        r is Ok <==> amounts.source_amount * expected_rate_bps <= u128::MAX
            && amounts.source_amount * protocol_fee_bps <= u128::MAX,
        r is Err ==> r == Err::<IntentVerification, ErrorCode>(ErrorCode::Overflow),
        r matches Ok(v) ==> {
            &&& v.rate_valid == spec_rate_valid(
                amounts.source_amount,
                amounts.destination_amount,
                expected_rate_bps,
            )
            &&& v.amount_sufficient == (amounts.source_amount >= min_source_amount)
            &&& v.fee == spec_protocol_fee(amounts.source_amount, protocol_fee_bps as int)
        },
{
    let scaled_rate = match amounts.source_amount.checked_mul(expected_rate_bps as u128) {
        Some(s) => s,
        None => {
            return Err(ErrorCode::Overflow);
        },
    };
    let scaled_fee = match amounts.source_amount.checked_mul(protocol_fee_bps as u128) {
        Some(s) => s,
        None => {
            return Err(ErrorCode::Overflow);
        },
    };
    let expected_destination = scaled_rate / (BPS_DENOMINATOR as u128);
    Ok(
        IntentVerification {
            rate_valid: amounts.destination_amount <= expected_destination,
            amount_sufficient: amounts.source_amount >= min_source_amount,
            fee: scaled_fee / (BPS_DENOMINATOR as u128),
        },
    )
}

/// Splits a settlement total by the fee rate it carries.
///
/// The same calculator as [`settlement_split`], reached through the
/// oracle's record type; a rate above the 10% ceiling is rejected here
/// rather than assumed away.
pub fn compute_settlement(amounts: SettlementAmounts) -> (r: Result<
    SettlementDistribution,
    ErrorCode,
>)
    ensures
        amounts.protocol_fee_bps > MAX_FEE_BPS ==> r == Err::<
            SettlementDistribution,
            ErrorCode,
        >(ErrorCode::FeeTooHigh),
        amounts.protocol_fee_bps <= MAX_FEE_BPS ==> {
            &&& r is Ok <==> amounts.total_amount * amounts.protocol_fee_bps <= u128::MAX
            &&& r matches Ok(d) ==> {
                &&& d.protocol_fee == spec_protocol_fee(
                    amounts.total_amount,
                    amounts.protocol_fee_bps as int,
                )
                &&& d.solver_reward + d.protocol_fee == amounts.total_amount
            }
            &&& r is Err ==> r == Err::<SettlementDistribution, ErrorCode>(ErrorCode::Overflow)
        },
{
    if amounts.protocol_fee_bps > MAX_FEE_BPS as u64 {
        return Err(ErrorCode::FeeTooHigh);
    }
    settlement_split(amounts.total_amount, amounts.protocol_fee_bps as u16)
}

/// A solver's success rate scaled to 0..1000; a solver with no executions
/// yet starts from the middle.
pub open spec fn spec_success_rate(metrics: SolverMetrics) -> int {
    if metrics.total_executed > 0 {
        (metrics.successful * 1000) / (metrics.total_executed as int)
    } else {
        500
    }
}

/// The volume bonus: up to 100 points, in proportion to the volume
/// threshold.
pub open spec fn spec_volume_bonus(total_volume: u128, volume_threshold: u128) -> int {
    if total_volume >= volume_threshold {
        100
    } else {
        (total_volume * 100) / (volume_threshold as int)
    }
}

/// The reputation score: success rate plus volume bonus, capped at 1000.
pub open spec fn spec_reputation_score(metrics: SolverMetrics, volume_threshold: u128) -> int {
    let raw = spec_success_rate(metrics) + spec_volume_bonus(metrics.total_volume, volume_threshold);
    if raw > 1000 {
        1000
    } else {
        raw
    }
}

/// The eligibility tier a score falls in.
pub open spec fn spec_tier(score: int) -> u8 {
    if score >= 900 {
        5
    } else if score >= 700 {
        4
    } else if score >= 500 {
        3
    } else if score >= 300 {
        2
    } else {
        1
    }
}

/// Recomputes a solver's reputation from its raw counters.
///
/// This is the on-demand audit path; the per-settlement increment the
/// registry applies is a separate signal and the two are not
/// interchangeable. Rejects exactly the inputs whose volume-bonus product
/// overflows 128-bit arithmetic.
pub fn calculate_reputation(metrics: SolverMetrics, volume_threshold: u128) -> (r: Result<
    ReputationScore,
    ErrorCode,
>)
    ensures
        r is Ok <==> (metrics.total_volume >= volume_threshold || metrics.total_volume * 100
            <= u128::MAX),
        r is Err ==> r == Err::<ReputationScore, ErrorCode>(ErrorCode::Overflow),
        r matches Ok(s) ==> {
            &&& s.score == spec_reputation_score(metrics, volume_threshold)
            &&& s.tier == spec_tier(spec_reputation_score(metrics, volume_threshold))
            &&& s.high_value_eligible == (s.tier >= 4 && metrics.total_volume >= volume_threshold)
        },
{
    let success_rate: u128 = if metrics.total_executed > 0 {
        (metrics.successful as u128 * 1000) / (metrics.total_executed as u128)
    } else {
        500
    };
    let volume_bonus: u128 = if metrics.total_volume >= volume_threshold {
        100
    } else {
        match metrics.total_volume.checked_mul(100) {
            Some(scaled) => scaled / volume_threshold,
            None => {
                return Err(ErrorCode::Overflow);
            },
        }
    };
    proof {
        if metrics.total_executed > 0 {
            assert(metrics.successful * 1000 <= u128::MAX) by (nonlinear_arith)
                requires
                    metrics.successful <= u64::MAX,
            ;
        }
        if metrics.total_volume < volume_threshold {
            assert((metrics.total_volume * 100) / (volume_threshold as int) <= 100)
                by (nonlinear_arith)
                requires
                    0 < volume_threshold <= u128::MAX,
                    metrics.total_volume < volume_threshold,
            ;
        }
    }
    let raw = success_rate + volume_bonus;
    let score: u32 = if raw > 1000 {
        1000
    } else {
        raw as u32
    };
    let tier: u8 = if score >= 900 {
        5
    } else if score >= 700 {
        4
    } else if score >= 500 {
        3
    } else if score >= 300 {
        2
    } else {
        1
    };
    Ok(
        ReputationScore {
            score,
            tier,
            high_value_eligible: tier >= 4 && metrics.total_volume >= volume_threshold,
        },
    )
}

/// Byte `i` of `amount` in little-endian order.
pub open spec fn spec_le_byte(amount: u128, i: int) -> u8 {
    ((amount >> (8 * i) as u128) & 0xff) as u8
}

/// Byte `i` of the commitment to a shielded transfer: the blinding factor
/// folded with the recipient hash, and, over the first sixteen bytes, the
/// little-endian amount.
pub open spec fn spec_commitment_byte(transfer: ShieldedTransfer, i: int) -> u8 {
    if 0 <= i < 16 {
        (transfer.blinding[i] ^ transfer.recipient_hash[i]) ^ spec_le_byte(transfer.amount, i)
    } else {
        transfer.blinding[i] ^ transfer.recipient_hash[i]
    }
}

/// Commits to a shielded transfer and range-checks its amount.
///
/// The commitment binds amount, blinding factor and recipient hash without
/// revealing any of them; `range_valid` holds exactly when the amount stays
/// within `max_amount`.
pub fn generate_privacy_proof(transfer: ShieldedTransfer, max_amount: u128) -> (r: PrivacyProof)
    ensures
        r.range_valid == (transfer.amount <= max_amount),
        forall|i: int| 0 <= i < 32 ==> r.commitment[i] == spec_commitment_byte(transfer, i),
{
    let mut commitment = [0u8; 32];
    let mut i: usize = 0;
    while i < 32
        invariant
            i <= 32,
            forall|j: int|
                0 <= j < i ==> commitment[j] == (transfer.blinding[j]
                    ^ transfer.recipient_hash[j]),
        decreases 32 - i,
    {
        commitment[i] = transfer.blinding[i] ^ transfer.recipient_hash[i];
        i = i + 1;
    }
    let mut k: usize = 0;
    while k < 16
        invariant
            k <= 16,
            forall|j: int| 0 <= j < k ==> commitment[j] == spec_commitment_byte(transfer, j),
            forall|j: int|
                k <= j < 32 ==> commitment[j] == (transfer.blinding[j]
                    ^ transfer.recipient_hash[j]),
        decreases 16 - k,
    {
        let amount_byte: u8 = ((transfer.amount >> (8 * k as u32)) & 0xff) as u8;
        assert(amount_byte == spec_le_byte(transfer.amount, k as int));
        commitment[k] = commitment[k] ^ amount_byte;
        k = k + 1;
    }
    PrivacyProof { commitment, range_valid: transfer.amount <= max_amount }
}

/// An attestation produced inside a trusted enclave: the enclave's
/// measurement, the quote's signature, and when it was taken.
#[derive(Clone, Copy, Debug, PartialEq, Eq)]
pub struct AttestationData {
    pub enclave_id: [u8; 32],
    pub quote_signature: [u8; 64],
    pub timestamp: u64,
}

/// What the oracle accepts as a valid attestation: the expected enclave
/// measurement, a timestamp no older than the freshness bound, and a
/// quote signature that is not all zeroes.
pub open spec fn spec_attestation_valid(
    attestation: AttestationData,
    expected_enclave_id: [u8; 32],
    min_timestamp: u64,
) -> bool {
    &&& attestation.enclave_id@ == expected_enclave_id@
    &&& attestation.timestamp >= min_timestamp
    &&& exists|i: int| 0 <= i < 64 && attestation.quote_signature[i] != 0
}

/// Checks an enclave attestation against the expected measurement and a
/// freshness bound.
pub fn verify_attestation(
    attestation: &AttestationData,
    expected_enclave_id: &[u8; 32],
    min_timestamp: u64,
) -> (r: bool)
    ensures
        r == spec_attestation_valid(*attestation, *expected_enclave_id, min_timestamp),
{
    let mut id_matches = true;
    let mut i: usize = 0;
    while i < 32
        invariant
            i <= 32,
            id_matches == forall|j: int|
                0 <= j < i ==> attestation.enclave_id[j] == expected_enclave_id[j],
        decreases 32 - i,
    {
        if attestation.enclave_id[i] != expected_enclave_id[i] {
            id_matches = false;
        }
        i = i + 1;
    }
    proof {
        if id_matches {
            assert(attestation.enclave_id@ =~= expected_enclave_id@);
        }
    }
    let timestamp_valid = attestation.timestamp >= min_timestamp;
    let mut quote_valid = false;
    let mut k: usize = 0;
    while k < 64
        invariant
            k <= 64,
            quote_valid == exists|j: int| 0 <= j < k && attestation.quote_signature[j] != 0,
        decreases 64 - k,
    {
        if attestation.quote_signature[k] != 0 {
            quote_valid = true;
        }
        k = k + 1;
    }
    id_matches && timestamp_valid && quote_valid
}

} // verus!

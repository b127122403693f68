//! Attestation records from trusted-execution services.
//!
//! A host that gates settlement on off-ledger computation receives results
//! together with an enclave attestation. The engine only needs the sanity
//! check below; validating the quote cryptographically is the oracle's job
//! (see [`crate::gate::verify_attestation`] for the byte-level check the
//! oracle runs in the encrypted domain).

use vstd::prelude::*;

verus! {

/// An attestation proof as a trusted-execution service reports it.
#[derive(Clone, Debug)]
pub struct TEEAttestation {
    /// The enclave's measurement.
    pub enclave_id: String,
    /// The attestation proof blob.
    pub attestation_proof: String,
    /// When the attestation was taken.
    pub timestamp: u64,
    /// The enclave's public key.
    pub public_key: String,
    /// The raw quote.
    pub quote: String,
}

/// A result delivered by a trusted-execution service, with the attestation
/// it arrived under.
#[derive(Clone, Debug)]
pub struct InferenceResult {
    /// The request this answers.
    pub request_id: String,
    /// The result payload.
    pub result: String,
    /// The attestation the service supplied, if any.
    pub attestation: Option<TEEAttestation>,
    /// The service's own id for this execution.
    pub inference_id: String,
    /// When the result was recorded.
    pub timestamp: u64,
    /// Whether the service reported the execution as verified.
    pub verified: bool,
}

/// What the engine requires of an attestation before it trusts a result:
/// a named enclave, a nonempty proof, and a real timestamp.
pub open spec fn spec_attestation_plausible(attestation: TEEAttestation) -> bool {
    &&& attestation.enclave_id@.len() > 0
    &&& attestation.attestation_proof@.len() > 0
    &&& attestation.timestamp > 0
}

/// Sanity-checks an attestation record.
pub fn verify_attestation(attestation: &TEEAttestation) -> (r: bool)
    ensures
        r == spec_attestation_plausible(*attestation),
{
    !attestation.enclave_id.as_str().is_empty() && !attestation.attestation_proof.as_str().is_empty()
        && attestation.timestamp > 0
}

} // verus!

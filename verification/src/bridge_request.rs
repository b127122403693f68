//! Request-side bookkeeping for a cross-chain transfer.
//!
//! Where the intent ledger records the escrow side, a host that originates
//! transfers keeps one of these records per outbound request: which leg of
//! the lock/prove/mint pipeline it has reached, and the transaction hashes
//! collected along the way. Each hash is written at most once; an update
//! that carries `None` leaves the stored value alone.

use vstd::prelude::*;

verus! {

/// Where a bridge request stands in the lock/prove/mint pipeline.
#[derive(Clone, Copy, Debug, PartialEq, Eq, Structural)]
pub enum BridgeStatus {
    /// Created, nothing locked yet.
    Pending,
    /// Source funds locked.
    Locked,
    /// Proof of the lock produced.
    Proved,
    /// Destination funds minted.
    Minted,
    /// Fully completed. Terminal.
    Completed,
    /// Abandoned or rejected. Terminal.
    Failed,
}

/// One outbound cross-chain transfer request.
#[derive(Clone, Debug)]
pub struct BridgeRequest {
    /// Unique id the record is keyed by.
    pub request_id: String,
    /// The ledger the funds leave.
    pub from_chain: String,
    /// The ledger the funds arrive on.
    pub to_chain: String,
    /// The amount moved.
    pub amount: u128,
    /// The token moved.
    pub token: String,
    /// Who receives the funds.
    pub recipient: String,
    /// Whether the amount travels behind a commitment.
    pub is_shielded: bool,
    /// Where the request stands.
    pub status: BridgeStatus,
    /// The lock transaction, once known.
    pub lock_tx_hash: Option<String>,
    /// The mint transaction, once known.
    pub mint_tx_hash: Option<String>,
    /// The proof, once known.
    pub proof_hash: Option<String>,
    /// When the request was created.
    pub created_at: u64,
}

/// Creates a bridge request at the start of its pipeline: `Pending`, with
/// no transaction hashes yet.
pub fn new_bridge_request(
    request_id: String,
    from_chain: String,
    to_chain: String,
    amount: u128,
    token: String,
    recipient: String,
    is_shielded: bool,
    now: u64,
) -> (r: BridgeRequest)
    ensures
        r.request_id == request_id,
        r.from_chain == from_chain,
        r.to_chain == to_chain,
        r.amount == amount,
        r.token == token,
        r.recipient == recipient,
        r.is_shielded == is_shielded,
        r.status == BridgeStatus::Pending,
        r.lock_tx_hash is None,
        r.mint_tx_hash is None,
        r.proof_hash is None,
        r.created_at == now,
{
    BridgeRequest {
        request_id,
        from_chain,
        to_chain,
        amount,
        token,
        recipient,
        is_shielded,
        status: BridgeStatus::Pending,
        lock_tx_hash: None,
        mint_tx_hash: None,
        proof_hash: None,
        created_at: now,
    }
}

/// Moves a request to `status` and records whichever transaction hashes the
/// caller learned; a `None` leaves the stored hash as it was.
pub fn update_bridge_status(
    request: &mut BridgeRequest,
    status: BridgeStatus,
    lock_tx_hash: Option<String>,
    mint_tx_hash: Option<String>,
    proof_hash: Option<String>,
)
    ensures
        final(request).status == status,
        final(request).lock_tx_hash == if lock_tx_hash is Some {
            lock_tx_hash
        } else {
            old(request).lock_tx_hash
        },
        final(request).mint_tx_hash == if mint_tx_hash is Some {
            mint_tx_hash
        } else {
            old(request).mint_tx_hash
        },
        final(request).proof_hash == if proof_hash is Some {
            proof_hash
        } else {
            old(request).proof_hash
        },
        final(request).request_id == old(request).request_id,
        final(request).from_chain == old(request).from_chain,
        final(request).to_chain == old(request).to_chain,
        final(request).amount == old(request).amount,
        final(request).token == old(request).token,
        final(request).recipient == old(request).recipient,
        final(request).is_shielded == old(request).is_shielded,
        final(request).created_at == old(request).created_at,
{
    request.status = status;
    if lock_tx_hash.is_some() {
        request.lock_tx_hash = lock_tx_hash;
    }
    if mint_tx_hash.is_some() {
        request.mint_tx_hash = mint_tx_hash;
    }
    if proof_hash.is_some() {
        request.proof_hash = proof_hash;
    }
}

} // verus!

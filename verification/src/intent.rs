//! Intent records and their state machine.
//!
//! An intent is a promise to deliver value on a destination ledger, funded
//! by an escrowed amount on the source ledger. Its status only moves
//! forward along `Created -> Matched -> Executed -> Settled`, except into
//! the `Failed` and `Disputed` sinks; the bound solver is set exactly once
//! and never changes afterwards.

use vstd::prelude::*;

use crate::chain::Chain;

verus! {

/// Where an intent stands in its lifecycle.
#[derive(Clone, Copy, Debug, PartialEq, Eq, Structural)]
pub enum IntentStatus {
    /// Created and escrowed, awaiting a solver.
    Created,
    /// A solver is bound and preparing execution.
    Matched,
    /// Cross-chain transfer in progress.
    Executing,
    /// Delivery completed on the destination ledger.
    Executed,
    /// Settlement in progress.
    Settling,
    /// Fully settled, rewards distributed. Terminal.
    Settled,
    /// Execution failed, escrow refunded. Terminal.
    Failed,
    /// Under out-of-band dispute resolution. Terminal.
    Disputed,
}

/// A cross-chain transfer intent, kept as an audit record even after it
/// reaches a terminal state.
#[derive(Clone, Copy, Debug)]
pub struct Intent {
    /// Unique id the record is keyed by.
    pub intent_id: u64,
    /// Who escrowed the source funds and receives any refund.
    pub creator: u64,
    /// The hosting ledger the funds are escrowed on.
    pub source_chain: Chain,
    /// Where delivery is owed.
    pub destination_chain: Chain,
    /// Amount escrowed from the creator.
    pub source_amount: u128,
    /// Commitment to the destination amount; opaque to the engine.
    pub destination_amount_commitment: [u8; 32],
    /// Hash identifying the destination token.
    pub destination_token_hash: [u8; 32],
    /// Hash of the recipient's address.
    pub recipient_hash: [u8; 32],
    /// Whether the transfer's amount is hidden behind a commitment.
    pub is_shielded: bool,
    /// Where the intent stands in its lifecycle.
    pub status: IntentStatus,
    /// The bound solver; set exactly once, by matching.
    pub solver: Option<u64>,
    /// When the intent was created.
    pub created_at: u64,
    /// When the match window closes; always after `created_at`.
    pub expires_at: u64,
    /// When delivery was executed, if it was.
    pub executed_at: Option<u64>,
    /// The destination ledger's transaction hash, once executed.
    pub destination_tx_hash: [u8; 32],
    /// Commitment proving a shielded delivery, if one was supplied.
    pub privacy_proof: Option<[u8; 32]>,
    /// Funds currently held in escrow for this intent.
    pub escrow: u128,
}

impl Intent {
    /// The record invariant every engine operation preserves: a positive
    /// escrowed amount, an expiry after creation, a solver exactly when the
    /// status implies one, and escrow held in full until a terminal payout.
    pub open spec fn wf(self) -> bool {
        &&& self.source_amount > 0
        &&& self.created_at < self.expires_at
        &&& self.status == IntentStatus::Created ==> self.solver is None
        &&& (self.status == IntentStatus::Matched || self.status == IntentStatus::Executing
            || self.status == IntentStatus::Executed || self.status == IntentStatus::Settling
            || self.status == IntentStatus::Settled) ==> self.solver is Some
        &&& self.escrow == if self.status == IntentStatus::Settled || self.status
            == IntentStatus::Failed {
            0
        } else {
            self.source_amount as int
        }
    }
}

} // verus!

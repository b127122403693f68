//! The error taxonomy of the engine.
//!
//! Every operation rejects a bad call before any state change: validation
//! errors (out-of-range input), state conflicts (wrong status for the
//! requested transition), authorization errors, resource errors
//! (insufficient stake), arithmetic overflow, and oracle bookkeeping
//! errors (an unmatched or duplicate verification response).

use vstd::prelude::*;

verus! {

/// Why an engine operation rejected a call. Errors are local to the one
/// atomic call that raised them; no state was changed.
#[derive(Clone, Copy, Debug, PartialEq, Eq, Structural)]
pub enum ErrorCode {
    /// Caller is not the owner, creator, or bound solver the operation needs.
    Unauthorized,
    /// Arithmetic on amounts or counters would overflow; the call is fatal,
    /// no funds move.
    Overflow,
    /// Protocol fee above the hard ceiling of 1000 basis points (10%).
    FeeTooHigh,
    /// Solver stake below the registry minimum.
    InsufficientStake,
    /// A solver must support at least one chain.
    NoSupportedChains,
    /// A solver with this id is already registered.
    SolverAlreadyRegistered,
    /// No solver registered under this id.
    SolverNotFound,
    /// The solver is deactivated.
    SolverNotActive,
    /// An intent must escrow a positive amount.
    ZeroDeposit,
    /// An intent with this id already exists.
    IntentAlreadyExists,
    /// No intent recorded under this id.
    IntentNotFound,
    /// The intent would expire no later than it was created.
    InvalidExpiry,
    /// The intent has left the `Created` state; a solver is already bound.
    IntentAlreadyMatched,
    /// The match window closed: now is at or past `expires_at`.
    IntentExpired,
    /// The solver's capability set is missing the source or destination chain.
    ChainNotSupported,
    /// Caller is not the solver bound to this intent.
    NotMatchedSolver,
    /// The intent's status does not admit the requested transition.
    InvalidIntentStatus,
    /// Settlement asked for before the intent was executed.
    IntentNotExecuted,
    /// A shielded intent must be executed through the verification oracle.
    VerificationRequired,
    /// A verification round-trip for this intent is already in flight.
    VerificationPending,
    /// An oracle response that matches no pending request (unknown
    /// correlation id, or a duplicate delivery).
    UnknownVerification,
}

} // verus!

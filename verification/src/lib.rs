//! A cross-chain intent settlement engine.
//!
//! A user locks funds on a source ledger in exchange for a promise of
//! delivery on a destination ledger, fulfilled by a market of bonded
//! relayers ("solvers"). The engine owns the intent state machine, solver
//! matching, escrow and settlement arithmetic, reputation accounting, and
//! the input/output contract of a privacy-preserving verification oracle.
//! The hosting ledger performs the actual fund transfers; every operation
//! here is a self-contained atomic step that validates its preconditions,
//! mutates state, and reports the transfers the host must carry out.

pub mod attestation;
pub mod bridge_request;
pub mod chain;
pub mod errors;
pub mod fees;
pub mod gate;
pub mod intent;
pub mod registry;
pub mod solver;

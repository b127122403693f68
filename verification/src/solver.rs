//! Solver records: bonded relayers and their reputation.
//!
//! A solver's score moves by one of two mechanisms that are deliberately
//! separate signals: the incremental adjustment applied here at settle and
//! fail time (one point up on success, five down on failure, clamped to
//! 0..=1000), and the full recompute from raw counters that the
//! verification oracle offers (see [`crate::gate::calculate_reputation`]).

use vstd::prelude::*;

verus! {

/// A solver's score starts in the low range and must earn its way up.
pub const INITIAL_REPUTATION: u32 = 100;

/// The ceiling the incremental score saturates at.
pub const MAX_REPUTATION: u32 = 1000;

/// How many points a failed intent costs.
pub const FAILURE_PENALTY: u32 = 5;

/// A bonded relayer registered with the bridge.
#[derive(Clone, Copy, Debug)]
pub struct Solver {
    /// Unique id the record is keyed by.
    pub solver_id: u64,
    /// Capability bitmap over [`crate::chain::Chain`].
    pub supported_chains: u8,
    /// The stake bonded at registration.
    pub stake: u128,
    /// Incremental reputation, 0..=1000.
    pub reputation_score: u32,
    /// Intents this solver was bound to that reached a terminal outcome.
    pub total_intents_executed: u64,
    /// How many of those settled successfully.
    pub successful_intents: u64,
    /// How many of those failed.
    pub failed_intents: u64,
    /// Total source volume across settled intents.
    pub total_volume: u128,
    /// Whether the solver may take new intents.
    pub is_active: bool,
    /// When the solver registered.
    pub registered_at: u64,
}

impl Solver {
    /// The record invariant: the score stays within its clamp, at least one
    /// chain is supported, and the outcome counters never exceed the total.
    pub open spec fn wf(self) -> bool {
        &&& self.reputation_score <= MAX_REPUTATION
        &&& self.supported_chains != 0
        &&& self.successful_intents + self.failed_intents <= self.total_intents_executed
    }

    /// The score after one successful settlement: up one point, saturating
    /// at the ceiling.
    pub open spec fn spec_score_after_success(score: u32) -> u32 {
        if score >= MAX_REPUTATION {
            MAX_REPUTATION
        } else {
            (score + 1) as u32
        }
    }

    /// The score after one failed intent: down five points, saturating at
    /// zero.
    pub open spec fn spec_score_after_failure(score: u32) -> u32 {
        if score >= FAILURE_PENALTY {
            (score - FAILURE_PENALTY) as u32
        } else {
            0
        }
    }
}

} // verus!

//! The bridge registry: the engine that owns intents, solvers, escrow
//! bookkeeping and the configuration singleton.
//!
//! Every public operation is one atomic step of the hosting ledger: it
//! validates its preconditions against the current state, then either
//! mutates the state and reports the fund transfers the host must perform,
//! or rejects the call with an [`ErrorCode`] and changes nothing. The host
//! supplies the caller's identity and the current time as plain arguments;
//! the engine never reads them ambiently.

use vstd::prelude::*;

use crate::chain::{spec_supports, supports_chain, Chain};
use crate::errors::ErrorCode;
use crate::fees::{fee_fits, settlement_split, spec_protocol_fee, MAX_FEE_BPS};
use crate::intent::{Intent, IntentStatus};
use crate::solver::{Solver, FAILURE_PENALTY, INITIAL_REPUTATION, MAX_REPUTATION};

verus! {

/// The configuration singleton: ownership, stake and fee policy, and the
/// aggregate counters.
#[derive(Clone, Copy, Debug, PartialEq, Eq, Structural)]
pub struct BridgeConfig {
    /// The admin account: may change the fee and deactivate solvers.
    pub owner: u64,
    /// Minimum stake a solver must bond to register.
    pub min_solver_stake: u128,
    /// Protocol fee in basis points, at most 1000 (10%).
    pub protocol_fee_bps: u16,
    /// Total source volume across settled intents.
    pub total_volume: u128,
    /// How many intents were ever created.
    pub total_intents: u64,
    /// How many registered solvers are currently active.
    pub active_solvers: u32,
    /// The account protocol fees are paid to.
    pub fee_vault: u64,
    /// The hosting ledger every intent's funds are escrowed on.
    pub source_chain: Chain,
}

/// A verification round-trip in flight: a range-check request submitted to
/// the oracle for a shielded intent, awaiting the callback that resolves it
/// exactly once.
#[derive(Clone, Copy, Debug)]
pub struct PendingVerification {
    /// The correlation id the oracle will echo back.
    pub request_id: u64,
    /// The shielded intent awaiting its range check.
    pub intent_id: u64,
    /// The destination transaction the solver claims, recorded on delivery.
    pub destination_tx_hash: [u8; 32],
    /// When the request was submitted.
    pub submitted_at: u64,
}

/// A transfer the host ledger must perform out of an intent's escrow back
/// to its creator.
#[derive(Clone, Copy, Debug, PartialEq, Eq, Structural)]
pub struct Refund {
    /// The intent's creator.
    pub creator: u64,
    /// The full escrowed amount.
    pub amount: u128,
}

/// The transfers the host ledger must perform out of an intent's escrow at
/// settlement.
#[derive(Clone, Copy, Debug, PartialEq, Eq, Structural)]
pub struct SettlementOutcome {
    /// The bound solver, owed the reward.
    pub solver_id: u64,
    /// The solver's share of the escrow.
    pub solver_reward: u128,
    /// The fee vault account, owed the fee.
    pub fee_vault: u64,
    /// The protocol's share of the escrow.
    pub protocol_fee: u128,
}

/// How a delivered oracle verdict resolved a shielded execution.
#[derive(Clone, Copy, Debug, PartialEq, Eq, Structural)]
pub enum VerificationOutcome {
    /// The range check passed; the intent is now executed.
    Accepted,
    /// The range check failed; the intent failed and the host must refund
    /// the creator.
    Rejected(Refund),
}

/// Aggregate counters a host can render for operators.
#[derive(Clone, Copy, Debug, PartialEq, Eq, Structural)]
pub struct BridgeStats {
    pub total_intents: u64,
    pub total_solvers: usize,
    pub active_solvers: u32,
    pub total_volume: u128,
    pub protocol_fee_bps: u16,
}

// ---------------------------------------------------------------------------
// Spec-level lookup over the repositories.
// ---------------------------------------------------------------------------
/// Whether some intent in `s` carries `intent_id`.
pub open spec fn has_intent(s: Seq<Intent>, intent_id: u64) -> bool {
    exists|i: int| 0 <= i < s.len() && s[i].intent_id == intent_id
}

/// The index `intent_id` lives at (meaningful when `has_intent` holds and
/// ids are unique).
pub open spec fn intent_index(s: Seq<Intent>, intent_id: u64) -> int {
    choose|i: int| 0 <= i < s.len() && s[i].intent_id == intent_id
}

/// The intent keyed by `intent_id`.
pub open spec fn lookup_intent(s: Seq<Intent>, intent_id: u64) -> Intent {
    s[intent_index(s, intent_id)]
}

/// Whether some solver in `s` carries `solver_id`.
pub open spec fn has_solver(s: Seq<Solver>, solver_id: u64) -> bool {
    exists|i: int| 0 <= i < s.len() && s[i].solver_id == solver_id
}

/// The index `solver_id` lives at.
pub open spec fn solver_index(s: Seq<Solver>, solver_id: u64) -> int {
    choose|i: int| 0 <= i < s.len() && s[i].solver_id == solver_id
}

/// The solver keyed by `solver_id`.
pub open spec fn lookup_solver(s: Seq<Solver>, solver_id: u64) -> Solver {
    s[solver_index(s, solver_id)]
}

/// Whether a round-trip with this correlation id is in flight.
pub open spec fn has_pending_request(s: Seq<PendingVerification>, request_id: u64) -> bool {
    exists|i: int| 0 <= i < s.len() && s[i].request_id == request_id
}

/// The index the correlation id lives at.
pub open spec fn pending_request_index(s: Seq<PendingVerification>, request_id: u64) -> int {
    choose|i: int| 0 <= i < s.len() && s[i].request_id == request_id
}

/// The pending record keyed by `request_id`.
pub open spec fn lookup_pending(s: Seq<PendingVerification>, request_id: u64) -> PendingVerification {
    s[pending_request_index(s, request_id)]
}

/// Whether a round-trip for this intent is in flight.
pub open spec fn has_pending_intent(s: Seq<PendingVerification>, intent_id: u64) -> bool {
    exists|i: int| 0 <= i < s.len() && s[i].intent_id == intent_id
}

/// The index the intent's round-trip lives at.
pub open spec fn pending_intent_index(s: Seq<PendingVerification>, intent_id: u64) -> int {
    choose|i: int| 0 <= i < s.len() && s[i].intent_id == intent_id
}

/// No two intents share an id.
pub open spec fn unique_intent_ids(s: Seq<Intent>) -> bool {
    forall|i: int, j: int| 0 <= i < j < s.len() ==> s[i].intent_id != s[j].intent_id
}

/// No two solvers share an id.
pub open spec fn unique_solver_ids(s: Seq<Solver>) -> bool {
    forall|i: int, j: int| 0 <= i < j < s.len() ==> s[i].solver_id != s[j].solver_id
}

/// No two in-flight round-trips share a correlation id or an intent.
pub open spec fn unique_pending(s: Seq<PendingVerification>) -> bool {
    forall|i: int, j: int|
        0 <= i < j < s.len() ==> s[i].request_id != s[j].request_id && s[i].intent_id
            != s[j].intent_id
}

/// A pending round-trip always points at a shielded intent that sits in its
/// waiting sub-state: still `Matched`, awaiting the oracle's verdict.
pub open spec fn pending_refers_to_waiting_intent(
    p: PendingVerification,
    intents: Seq<Intent>,
) -> bool {
    exists|j: int|
        0 <= j < intents.len() && intents[j].intent_id == p.intent_id && intents[j].status
            == IntentStatus::Matched && intents[j].is_shielded
}

/// The active solvers among `s[start..end]`, in order.
pub open spec fn active_solvers_in(s: Seq<Solver>, start: int, end: int) -> Seq<Solver>
    decreases end - start,
{
    if start >= end {
        Seq::empty()
    } else {
        let rest = active_solvers_in(s, start, end - 1);
        if s[end - 1].is_active {
            rest.push(s[end - 1])
        } else {
            rest
        }
    }
}

/// The active solvers among the first `n` of `s` whose capability bitmap
/// covers both `source` and `destination`, in order.
pub open spec fn capable_solvers_in(
    s: Seq<Solver>,
    n: int,
    source: Chain,
    destination: Chain,
) -> Seq<Solver>
    decreases n,
{
    if n <= 0 {
        Seq::empty()
    } else {
        let rest = capable_solvers_in(s, n - 1, source, destination);
        if s[n - 1].is_active && spec_supports(s[n - 1].supported_chains, source) && spec_supports(
            s[n - 1].supported_chains,
            destination,
        ) {
            rest.push(s[n - 1])
        } else {
            rest
        }
    }
}

/// The intents among the first `n` of `s` created by `creator`, in order.
pub open spec fn intents_of_creator(s: Seq<Intent>, n: int, creator: u64) -> Seq<Intent>
    decreases n,
{
    if n <= 0 {
        Seq::empty()
    } else {
        let rest = intents_of_creator(s, n - 1, creator);
        if s[n - 1].creator == creator {
            rest.push(s[n - 1])
        } else {
            rest
        }
    }
}

/// How many solvers in `s` are active: the count the configuration's
/// `active_solvers` field must always agree with.
pub open spec fn count_active(s: Seq<Solver>) -> int
    decreases s.len(),
{
    if s.len() == 0 {
        0
    } else {
        count_active(s.drop_last()) + if s.last().is_active {
            1int
        } else {
            0int
        }
    }
}

/// The active count stays within 0 and the number of records.
pub proof fn lemma_count_active_bounds(s: Seq<Solver>)
    ensures
        0 <= count_active(s) <= s.len(),
    decreases s.len(),
{
    if s.len() > 0 {
        lemma_count_active_bounds(s.drop_last());
    }
}

/// Appending one record moves the active count by that record's own flag.
pub proof fn lemma_count_active_push(s: Seq<Solver>, v: Solver)
    ensures
        count_active(s.push(v)) == count_active(s) + if v.is_active {
            1int
        } else {
            0int
        },
{
    assert(s.push(v).drop_last() =~= s);
    assert(s.push(v).last() == v);
}

/// Replacing one record moves the active count by the difference of the
/// two records' flags.
pub proof fn lemma_count_active_update(s: Seq<Solver>, i: int, v: Solver)
    requires
        0 <= i < s.len(),
    ensures
        count_active(s.update(i, v)) == count_active(s) - (if s[i].is_active {
            1int
        } else {
            0int
        }) + (if v.is_active {
            1int
        } else {
            0int
        }),
    decreases s.len(),
{
    let t = s.update(i, v);
    if i == s.len() - 1 {
        assert(t.drop_last() =~= s.drop_last());
        assert(t.last() == v);
    } else {
        assert(t.drop_last() =~= s.drop_last().update(i, v));
        assert(t.last() == s.last());
        lemma_count_active_update(s.drop_last(), i, v);
    }
}

/// The bridge registry: the engine's whole state.
pub struct SilenceBridgeRegistry {
    /// The configuration singleton.
    pub config: BridgeConfig,
    /// Every intent ever created, keyed by `intent_id`; records are never
    /// deleted, terminal ones stay as audit records.
    pub intents: Vec<Intent>,
    /// Every solver ever registered, keyed by `solver_id`; deactivation is
    /// a soft delete.
    pub solvers: Vec<Solver>,
    /// Verification round-trips in flight with the oracle.
    pub pending: Vec<PendingVerification>,
}

impl SilenceBridgeRegistry {
    /// The engine invariant: every operation requires it and re-establishes
    /// it.
    pub open spec fn wf(self) -> bool {
        &&& self.config.protocol_fee_bps <= MAX_FEE_BPS
        &&& self.config.total_intents == self.intents@.len()
        &&& self.config.active_solvers == count_active(self.solvers@)
        &&& unique_intent_ids(self.intents@)
        &&& unique_solver_ids(self.solvers@)
        &&& unique_pending(self.pending@)
        &&& forall|i: int| 0 <= i < self.intents@.len() ==> (#[trigger] self.intents@[i]).wf()
        &&& forall|i: int| 0 <= i < self.solvers@.len() ==> (#[trigger] self.solvers@[i]).wf()
        &&& forall|i: int|
            0 <= i < self.intents@.len() ==> ((#[trigger] self.intents@[i]).solver matches Some(s)
                ==> has_solver(self.solvers@, s))
        &&& forall|i: int|
            0 <= i < self.pending@.len() ==> pending_refers_to_waiting_intent(
                #[trigger] self.pending@[i],
                self.intents@,
            )
    }

    /// Creates a registry with no intents, solvers, or pending round-trips.
    ///
    /// Rejects a protocol fee above the 10% ceiling; nothing else can fail.
    pub fn new(
        owner: u64,
        min_solver_stake: u128,
        protocol_fee_bps: u16,
        fee_vault: u64,
        source_chain: Chain,
    ) -> (r: Result<Self, ErrorCode>)
        ensures
            r is Ok <==> protocol_fee_bps <= MAX_FEE_BPS,
            r is Err ==> r == Err::<Self, ErrorCode>(ErrorCode::FeeTooHigh),
            r matches Ok(registry) ==> {
                &&& registry.wf()
                &&& registry.config == (BridgeConfig {
                    owner,
                    min_solver_stake,
                    protocol_fee_bps,
                    total_volume: 0,
                    total_intents: 0,
                    active_solvers: 0,
                    fee_vault,
                    source_chain,
                })
                &&& registry.intents@.len() == 0
                &&& registry.solvers@.len() == 0
                &&& registry.pending@.len() == 0
            },
    {
        if protocol_fee_bps > MAX_FEE_BPS {
            return Err(ErrorCode::FeeTooHigh);
        }
        Ok(
            SilenceBridgeRegistry {
                config: BridgeConfig {
                    owner,
                    min_solver_stake,
                    protocol_fee_bps,
                    total_volume: 0,
                    total_intents: 0,
                    active_solvers: 0,
                    fee_vault,
                    source_chain,
                },
                intents: Vec::new(),
                solvers: Vec::new(),
                pending: Vec::new(),
            },
        )
    }

    /// Finds the index an intent id lives at.
    fn find_intent(&self, intent_id: u64) -> (r: Option<usize>)
        ensures
            match r {
                Some(i) => i < self.intents@.len() && self.intents@[i as int].intent_id
                    == intent_id,
                None => !has_intent(self.intents@, intent_id),
            },
    {
        let mut i: usize = 0;
        while i < self.intents.len()
            invariant
                i <= self.intents@.len(),
                forall|j: int| 0 <= j < i ==> self.intents@[j].intent_id != intent_id,
            decreases self.intents@.len() - i,
        {
            if self.intents[i].intent_id == intent_id {
                return Some(i);
            }
            i = i + 1;
        }
        None
    }

    /// Finds the index a solver id lives at.
    fn find_solver(&self, solver_id: u64) -> (r: Option<usize>)
        ensures
            match r {
                Some(i) => i < self.solvers@.len() && self.solvers@[i as int].solver_id
                    == solver_id,
                None => !has_solver(self.solvers@, solver_id),
            },
    {
        let mut i: usize = 0;
        while i < self.solvers.len()
            invariant
                i <= self.solvers@.len(),
                forall|j: int| 0 <= j < i ==> self.solvers@[j].solver_id != solver_id,
            decreases self.solvers@.len() - i,
        {
            if self.solvers[i].solver_id == solver_id {
                return Some(i);
            }
            i = i + 1;
        }
        None
    }
}

/// The record `register_solver` appends on success.
pub open spec fn spec_new_solver(solver_id: u64, supported_chains: u8, stake: u128, now: u64) -> Solver {
    Solver {
        solver_id,
        supported_chains,
        stake,
        reputation_score: INITIAL_REPUTATION,
        total_intents_executed: 0,
        successful_intents: 0,
        failed_intents: 0,
        total_volume: 0,
        is_active: true,
        registered_at: now,
    }
}

/// The record `create_intent` appends on success.
pub open spec fn spec_new_intent(
    config: BridgeConfig,
    intent_id: u64,
    creator: u64,
    destination_chain: Chain,
    destination_amount_commitment: [u8; 32],
    destination_token_hash: [u8; 32],
    recipient_hash: [u8; 32],
    is_shielded: bool,
    ttl: u64,
    source_amount: u128,
    now: u64,
) -> Intent {
    Intent {
        intent_id,
        creator,
        source_chain: config.source_chain,
        destination_chain,
        source_amount,
        destination_amount_commitment,
        destination_token_hash,
        recipient_hash,
        is_shielded,
        status: IntentStatus::Created,
        solver: None,
        created_at: now,
        expires_at: (now + ttl) as u64,
        executed_at: None,
        destination_tx_hash: vstd::array::spec_array_fill_for_copy_type::<u8, 32>(0u8),
        privacy_proof: None,
        escrow: source_amount,
    }
}

impl SilenceBridgeRegistry {
    /// When `register_solver` succeeds: a fresh id, a nonempty capability
    /// set, enough stake, and room in the active-solver counter.
    pub open spec fn can_register(self, solver_id: u64, supported_chains: u8, stake: u128) -> bool {
        &&& supported_chains != 0
        &&& stake >= self.config.min_solver_stake
        &&& !has_solver(self.solvers@, solver_id)
        &&& self.config.active_solvers < u32::MAX
    }

    /// Registers a bonded solver.
    ///
    /// The host has already locked `stake` from the caller; the engine
    /// records it and activates the solver with the starting reputation.
    pub fn register_solver(
        &mut self,
        solver_id: u64,
        supported_chains: u8,
        stake: u128,
        now: u64,
    ) -> (r: Result<(), ErrorCode>)
        requires
            old(self).wf(),
        ensures
            final(self).wf(),
            r is Ok <==> old(self).can_register(solver_id, supported_chains, stake),
            r is Ok ==> {
                &&& final(self).solvers@ == old(self).solvers@.push(
                    spec_new_solver(solver_id, supported_chains, stake, now),
                )
                &&& final(self).config == (BridgeConfig {
                    active_solvers: (old(self).config.active_solvers + 1) as u32,
                    ..old(self).config
                })
                &&& final(self).intents@ == old(self).intents@
                &&& final(self).pending@ == old(self).pending@
            },
            r is Err ==> *final(self) == *old(self),
            supported_chains == 0 ==> r == Err::<(), ErrorCode>(ErrorCode::NoSupportedChains),
            supported_chains != 0 && stake < old(self).config.min_solver_stake ==> r == Err::<
                (),
                ErrorCode,
            >(ErrorCode::InsufficientStake),
            supported_chains != 0 && stake >= old(self).config.min_solver_stake && has_solver(
                old(self).solvers@,
                solver_id,
            ) ==> r == Err::<(), ErrorCode>(ErrorCode::SolverAlreadyRegistered),
            supported_chains != 0 && stake >= old(self).config.min_solver_stake && !has_solver(
                old(self).solvers@,
                solver_id,
            ) && old(self).config.active_solvers == u32::MAX ==> r == Err::<(), ErrorCode>(
                ErrorCode::Overflow,
            ),
    {
        if supported_chains == 0 {
            return Err(ErrorCode::NoSupportedChains);
        }
        if stake < self.config.min_solver_stake {
            return Err(ErrorCode::InsufficientStake);
        }
        if self.find_solver(solver_id).is_some() {
            return Err(ErrorCode::SolverAlreadyRegistered);
        }
        if self.config.active_solvers == u32::MAX {
            return Err(ErrorCode::Overflow);
        }
        let solver = Solver {
            solver_id,
            supported_chains,
            stake,
            reputation_score: INITIAL_REPUTATION,
            total_intents_executed: 0,
            successful_intents: 0,
            failed_intents: 0,
            total_volume: 0,
            is_active: true,
            registered_at: now,
        };
        self.solvers.push(solver);
        self.config.active_solvers = self.config.active_solvers + 1;
        proof {
            let post = self.solvers@;
            let pre = old(self).solvers@;
            lemma_count_active_push(pre, solver);
            assert forall|i: int, j: int| 0 <= i < j < post.len() implies post[i].solver_id
                != post[j].solver_id by {
                if j < pre.len() {
                } else {
                    assert(post[j] == spec_new_solver(solver_id, supported_chains, stake, now));
                    assert(!has_solver(pre, solver_id));
                }
            }
            assert forall|i: int|
                0 <= i < self.intents@.len() implies ((#[trigger] self.intents@[i]).solver matches
            Some(s) ==> has_solver(post, s)) by {
                if self.intents@[i].solver is Some {
                    let s = self.intents@[i].solver->0;
                    assert(has_solver(pre, s));
                    let k = solver_index(pre, s);
                    assert(post[k].solver_id == s);
                }
            }
        }
        Ok(())
    }

    /// When `create_intent` succeeds: a positive escrow, a fresh id, a
    /// window that closes strictly after `now` without overflowing the
    /// clock, and room in the intent counter.
    pub open spec fn can_create(
        self,
        intent_id: u64,
        ttl: u64,
        source_amount: u128,
        now: u64,
    ) -> bool {
        &&& source_amount > 0
        &&& !has_intent(self.intents@, intent_id)
        &&& ttl > 0
        &&& now + ttl <= u64::MAX
        &&& self.config.total_intents < u64::MAX
    }

    /// Creates an intent whose escrow the host has just funded with
    /// `source_amount` from `creator`.
    ///
    /// The new record holds exactly `source_amount` in escrow, sits in
    /// `Created` with no solver, and expires `ttl` after `now` (in the
    /// host's clock unit).
    pub fn create_intent(
        &mut self,
        intent_id: u64,
        creator: u64,
        destination_chain: Chain,
        destination_amount_commitment: [u8; 32],
        destination_token_hash: [u8; 32],
        recipient_hash: [u8; 32],
        is_shielded: bool,
        ttl: u64,
        source_amount: u128,
        now: u64,
    ) -> (r: Result<(), ErrorCode>)
        requires
            old(self).wf(),
        ensures
            final(self).wf(),
            r is Ok <==> old(self).can_create(intent_id, ttl, source_amount, now),
            r is Ok ==> {
                &&& final(self).intents@ == old(self).intents@.push(
                    spec_new_intent(
                        old(self).config,
                        intent_id,
                        creator,
                        destination_chain,
                        destination_amount_commitment,
                        destination_token_hash,
                        recipient_hash,
                        is_shielded,
                        ttl,
                        source_amount,
                        now,
                    ),
                )
                &&& final(self).config == (BridgeConfig {
                    total_intents: (old(self).config.total_intents + 1) as u64,
                    ..old(self).config
                })
                &&& final(self).solvers@ == old(self).solvers@
                &&& final(self).pending@ == old(self).pending@
            },
            r is Err ==> *final(self) == *old(self),
            source_amount == 0 ==> r == Err::<(), ErrorCode>(ErrorCode::ZeroDeposit),
            source_amount > 0 && has_intent(old(self).intents@, intent_id) ==> r == Err::<
                (),
                ErrorCode,
            >(ErrorCode::IntentAlreadyExists),
            source_amount > 0 && !has_intent(old(self).intents@, intent_id) && (ttl == 0 || now
                + ttl > u64::MAX) ==> r == Err::<(), ErrorCode>(ErrorCode::InvalidExpiry),
            source_amount > 0 && !has_intent(old(self).intents@, intent_id) && ttl > 0 && now + ttl
                <= u64::MAX && old(self).config.total_intents == u64::MAX ==> r == Err::<
                (),
                ErrorCode,
            >(ErrorCode::Overflow),
    {
        if source_amount == 0 {
            return Err(ErrorCode::ZeroDeposit);
        }
        if self.find_intent(intent_id).is_some() {
            return Err(ErrorCode::IntentAlreadyExists);
        }
        if ttl == 0 {
            return Err(ErrorCode::InvalidExpiry);
        }
        let expires_at = match now.checked_add(ttl) {
            Some(e) => e,
            None => {
                return Err(ErrorCode::InvalidExpiry);
            },
        };
        if self.config.total_intents == u64::MAX {
            return Err(ErrorCode::Overflow);
        }
        let intent = Intent {
            intent_id,
            creator,
            source_chain: self.config.source_chain,
            destination_chain,
            source_amount,
            destination_amount_commitment,
            destination_token_hash,
            recipient_hash,
            is_shielded,
            status: IntentStatus::Created,
            solver: None,
            created_at: now,
            expires_at,
            executed_at: None,
            destination_tx_hash: [0u8; 32],
            privacy_proof: None,
            escrow: source_amount,
        };
        self.intents.push(intent);
        self.config.total_intents = self.config.total_intents + 1;
        proof {
            let post = self.intents@;
            let pre = old(self).intents@;
            assert forall|i: int, j: int| 0 <= i < j < post.len() implies post[i].intent_id
                != post[j].intent_id by {
                if j < pre.len() {
                } else {
                    assert(!has_intent(pre, intent_id));
                }
            }
            assert forall|i: int|
                0 <= i < self.pending@.len() implies pending_refers_to_waiting_intent(
                #[trigger] self.pending@[i],
                post,
            ) by {
                let p = self.pending@[i];
                assert(pending_refers_to_waiting_intent(p, pre));
                let j = choose|j: int|
                    0 <= j < pre.len() && pre[j].intent_id == p.intent_id && pre[j].status
                        == IntentStatus::Matched && pre[j].is_shielded;
                assert(post[j] == pre[j]);
            }
        }
        Ok(())
    }

    /// When `match_intent` succeeds: the intent exists and is still
    /// unmatched, its window has not closed, and the solver exists, is
    /// active, and supports both endpoints.
    pub open spec fn can_match(self, intent_id: u64, solver_id: u64, now: u64) -> bool {
        &&& has_intent(self.intents@, intent_id)
        &&& lookup_intent(self.intents@, intent_id).status == IntentStatus::Created
        &&& now < lookup_intent(self.intents@, intent_id).expires_at
        &&& has_solver(self.solvers@, solver_id)
        &&& lookup_solver(self.solvers@, solver_id).is_active
        &&& spec_supports(
            lookup_solver(self.solvers@, solver_id).supported_chains,
            lookup_intent(self.intents@, intent_id).source_chain,
        )
        &&& spec_supports(
            lookup_solver(self.solvers@, solver_id).supported_chains,
            lookup_intent(self.intents@, intent_id).destination_chain,
        )
    }

    /// The matched intent: the one change `match_intent` makes.
    pub open spec fn spec_matched_intent(intent: Intent, solver_id: u64) -> Intent {
        Intent { status: IntentStatus::Matched, solver: Some(solver_id), ..intent }
    }

    /// Binds `solver_id` to the intent. First accepted call wins: the
    /// `Created` precondition means no already-bound intent can ever be
    /// re-bound, whatever the call ordering.
    pub fn match_intent(&mut self, intent_id: u64, solver_id: u64, now: u64) -> (r: Result<
        (),
        ErrorCode,
    >)
        requires
            old(self).wf(),
        ensures
            final(self).wf(),
            r is Ok <==> old(self).can_match(intent_id, solver_id, now),
            r is Ok ==> {
                &&& final(self).intents@ == old(self).intents@.update(
                    intent_index(old(self).intents@, intent_id),
                    Self::spec_matched_intent(
                        lookup_intent(old(self).intents@, intent_id),
                        solver_id,
                    ),
                )
                &&& final(self).solvers@ == old(self).solvers@
                &&& final(self).config == old(self).config
                &&& final(self).pending@ == old(self).pending@
            },
            r is Err ==> *final(self) == *old(self),
            !has_intent(old(self).intents@, intent_id) ==> r == Err::<(), ErrorCode>(
                ErrorCode::IntentNotFound,
            ),
            has_intent(old(self).intents@, intent_id) && lookup_intent(
                old(self).intents@,
                intent_id,
            ).status != IntentStatus::Created ==> r == Err::<(), ErrorCode>(
                ErrorCode::IntentAlreadyMatched,
            ),
            has_intent(old(self).intents@, intent_id) && lookup_intent(
                old(self).intents@,
                intent_id,
            ).status == IntentStatus::Created && now >= lookup_intent(
                old(self).intents@,
                intent_id,
            ).expires_at ==> r == Err::<(), ErrorCode>(ErrorCode::IntentExpired),
            has_intent(old(self).intents@, intent_id) && lookup_intent(
                old(self).intents@,
                intent_id,
            ).status == IntentStatus::Created && now < lookup_intent(
                old(self).intents@,
                intent_id,
            ).expires_at && !has_solver(old(self).solvers@, solver_id) ==> r == Err::<
                (),
                ErrorCode,
            >(ErrorCode::SolverNotFound),
            has_intent(old(self).intents@, intent_id) && lookup_intent(
                old(self).intents@,
                intent_id,
            ).status == IntentStatus::Created && now < lookup_intent(
                old(self).intents@,
                intent_id,
            ).expires_at && has_solver(old(self).solvers@, solver_id) && !lookup_solver(
                old(self).solvers@,
                solver_id,
            ).is_active ==> r == Err::<(), ErrorCode>(ErrorCode::SolverNotActive),
            has_intent(old(self).intents@, intent_id) && lookup_intent(
                old(self).intents@,
                intent_id,
            ).status == IntentStatus::Created && now < lookup_intent(
                old(self).intents@,
                intent_id,
            ).expires_at && has_solver(old(self).solvers@, solver_id) && lookup_solver(
                old(self).solvers@,
                solver_id,
            ).is_active && !(old(self).can_match(intent_id, solver_id, now)) ==> r == Err::<
                (),
                ErrorCode,
            >(ErrorCode::ChainNotSupported),
    {
        let idx = match self.find_intent(intent_id) {
            Some(i) => i,
            None => {
                return Err(ErrorCode::IntentNotFound);
            },
        };
        proof {
            lemma_unique_intent_index(self.intents@, intent_id, idx as int);
        }
        let intent = self.intents[idx];
        if intent.status != IntentStatus::Created {
            return Err(ErrorCode::IntentAlreadyMatched);
        }
        if now >= intent.expires_at {
            return Err(ErrorCode::IntentExpired);
        }
        let sidx = match self.find_solver(solver_id) {
            Some(i) => i,
            None => {
                return Err(ErrorCode::SolverNotFound);
            },
        };
        proof {
            lemma_unique_solver_index(self.solvers@, solver_id, sidx as int);
        }
        let solver = self.solvers[sidx];
        if !solver.is_active {
            return Err(ErrorCode::SolverNotActive);
        }
        if !supports_chain(solver.supported_chains, intent.source_chain) || !supports_chain(
            solver.supported_chains,
            intent.destination_chain,
        ) {
            return Err(ErrorCode::ChainNotSupported);
        }
        let mut updated = intent;
        updated.status = IntentStatus::Matched;
        updated.solver = Some(solver_id);
        proof {
            old(self).lemma_no_pending_unless_waiting(idx as int);
        }
        self.intents[idx] = updated;
        proof {
            self.lemma_wf_after_intent_update(*old(self), idx as int, updated);
        }
        Ok(())
    }

    /// When a direct `execute_intent` succeeds: the caller is the bound
    /// solver, the intent is `Matched`, and it is not shielded (a shielded
    /// intent must pass through the oracle round-trip instead).
    pub open spec fn can_execute(self, intent_id: u64, caller: u64, now: u64) -> bool {
        &&& has_intent(self.intents@, intent_id)
        &&& lookup_intent(self.intents@, intent_id).solver == Some(caller)
        &&& lookup_intent(self.intents@, intent_id).status == IntentStatus::Matched
        &&& !lookup_intent(self.intents@, intent_id).is_shielded
    }

    /// The executed intent: the changes `execute_intent` (or an accepted
    /// oracle verdict) makes.
    pub open spec fn spec_executed_intent(
        intent: Intent,
        destination_tx_hash: [u8; 32],
        privacy_proof: Option<[u8; 32]>,
        now: u64,
    ) -> Intent {
        Intent {
            status: IntentStatus::Executed,
            executed_at: Some(now),
            destination_tx_hash,
            privacy_proof,
            ..intent
        }
    }

    /// Records the solver's delivery on the destination ledger.
    ///
    /// Only for plain transfers: a shielded intent is rejected here and
    /// must submit its proof to the verification oracle (see
    /// [`Self::submit_shielded_execution`]).
    pub fn execute_intent(
        &mut self,
        intent_id: u64,
        caller: u64,
        destination_tx_hash: [u8; 32],
        privacy_proof: Option<[u8; 32]>,
        now: u64,
    ) -> (r: Result<(), ErrorCode>)
        requires
            old(self).wf(),
        ensures
            final(self).wf(),
            r is Ok <==> old(self).can_execute(intent_id, caller, now),
            r is Ok ==> {
                &&& final(self).intents@ == old(self).intents@.update(
                    intent_index(old(self).intents@, intent_id),
                    Self::spec_executed_intent(
                        lookup_intent(old(self).intents@, intent_id),
                        destination_tx_hash,
                        privacy_proof,
                        now,
                    ),
                )
                &&& final(self).solvers@ == old(self).solvers@
                &&& final(self).config == old(self).config
                &&& final(self).pending@ == old(self).pending@
            },
            r is Err ==> *final(self) == *old(self),
            !has_intent(old(self).intents@, intent_id) ==> r == Err::<(), ErrorCode>(
                ErrorCode::IntentNotFound,
            ),
            has_intent(old(self).intents@, intent_id) && lookup_intent(
                old(self).intents@,
                intent_id,
            ).solver != Some(caller) ==> r == Err::<(), ErrorCode>(ErrorCode::NotMatchedSolver),
            has_intent(old(self).intents@, intent_id) && lookup_intent(
                old(self).intents@,
                intent_id,
            ).solver == Some(caller) && lookup_intent(old(self).intents@, intent_id).status
                != IntentStatus::Matched ==> r == Err::<(), ErrorCode>(
                ErrorCode::InvalidIntentStatus,
            ),
            has_intent(old(self).intents@, intent_id) && lookup_intent(
                old(self).intents@,
                intent_id,
            ).solver == Some(caller) && lookup_intent(old(self).intents@, intent_id).status
                == IntentStatus::Matched && lookup_intent(
                old(self).intents@,
                intent_id,
            ).is_shielded ==> r == Err::<(), ErrorCode>(ErrorCode::VerificationRequired),
    {
        let idx = match self.find_intent(intent_id) {
            Some(i) => i,
            None => {
                return Err(ErrorCode::IntentNotFound);
            },
        };
        proof {
            lemma_unique_intent_index(self.intents@, intent_id, idx as int);
        }
        let intent = self.intents[idx];
        let bound_to_caller = match intent.solver {
            Some(s) => s == caller,
            None => false,
        };
        if !bound_to_caller {
            return Err(ErrorCode::NotMatchedSolver);
        }
        if intent.status != IntentStatus::Matched {
            return Err(ErrorCode::InvalidIntentStatus);
        }
        if intent.is_shielded {
            return Err(ErrorCode::VerificationRequired);
        }
        let mut updated = intent;
        updated.status = IntentStatus::Executed;
        updated.executed_at = Some(now);
        updated.destination_tx_hash = destination_tx_hash;
        updated.privacy_proof = privacy_proof;
        proof {
            old(self).lemma_no_pending_unless_waiting(idx as int);
        }
        self.intents[idx] = updated;
        proof {
            self.lemma_wf_after_intent_update(*old(self), idx as int, updated);
        }
        Ok(())
    }

    /// The settled intent: escrow fully paid out, terminal.
    pub open spec fn spec_settled_intent(intent: Intent) -> Intent {
        Intent { status: IntentStatus::Settled, escrow: 0, ..intent }
    }

    /// The bound solver's record after a successful settlement.
    pub open spec fn spec_solver_after_success(solver: Solver, amount: u128) -> Solver {
        Solver {
            total_intents_executed: (solver.total_intents_executed + 1) as u64,
            successful_intents: (solver.successful_intents + 1) as u64,
            total_volume: (solver.total_volume + amount) as u128,
            reputation_score: Solver::spec_score_after_success(solver.reputation_score),
            ..solver
        }
    }

    /// When `settle_intent` succeeds: the intent exists, was executed, and
    /// none of the fee split, the solver's counters, or the aggregate
    /// volume would overflow.
    pub open spec fn can_settle(self, intent_id: u64) -> bool {
        &&& has_intent(self.intents@, intent_id)
        &&& lookup_intent(self.intents@, intent_id).status == IntentStatus::Executed
        &&& {
            let intent = lookup_intent(self.intents@, intent_id);
            let solver = lookup_solver(self.solvers@, intent.solver->0);
            &&& fee_fits(intent.source_amount, self.config.protocol_fee_bps)
            &&& solver.total_intents_executed < u64::MAX
            &&& solver.successful_intents < u64::MAX
            &&& solver.total_volume + intent.source_amount <= u128::MAX
            &&& self.config.total_volume + intent.source_amount <= u128::MAX
        }
    }

    /// Settles an executed intent: anyone may call. The escrow splits into
    /// the solver's reward and the protocol fee — together they always
    /// return exactly the escrowed amount — and the host must perform the
    /// two transfers the returned outcome names. The solver's counters and
    /// incremental reputation move up, saturating at the ceiling.
    pub fn settle_intent(&mut self, intent_id: u64) -> (r: Result<SettlementOutcome, ErrorCode>)
        requires
            old(self).wf(),
        ensures
            final(self).wf(),
            r is Ok <==> old(self).can_settle(intent_id),
            r matches Ok(outcome) ==> {
                let intent = lookup_intent(old(self).intents@, intent_id);
                let solver = lookup_solver(old(self).solvers@, intent.solver->0);
                &&& outcome.solver_id == intent.solver->0
                &&& outcome.fee_vault == old(self).config.fee_vault
                &&& outcome.protocol_fee == spec_protocol_fee(
                    intent.source_amount,
                    old(self).config.protocol_fee_bps as int,
                )
                &&& outcome.solver_reward + outcome.protocol_fee == intent.source_amount
                &&& final(self).intents@ == old(self).intents@.update(
                    intent_index(old(self).intents@, intent_id),
                    Self::spec_settled_intent(intent),
                )
                &&& final(self).solvers@ == old(self).solvers@.update(
                    solver_index(old(self).solvers@, intent.solver->0),
                    Self::spec_solver_after_success(solver, intent.source_amount),
                )
                &&& final(self).config == (BridgeConfig {
                    total_volume: (old(self).config.total_volume + intent.source_amount) as u128,
                    ..old(self).config
                })
                &&& final(self).pending@ == old(self).pending@
            },
            r is Err ==> *final(self) == *old(self),
            !has_intent(old(self).intents@, intent_id) ==> r == Err::<
                SettlementOutcome,
                ErrorCode,
            >(ErrorCode::IntentNotFound),
            has_intent(old(self).intents@, intent_id) && lookup_intent(
                old(self).intents@,
                intent_id,
            ).status != IntentStatus::Executed ==> r == Err::<SettlementOutcome, ErrorCode>(
                ErrorCode::IntentNotExecuted,
            ),
            has_intent(old(self).intents@, intent_id) && lookup_intent(
                old(self).intents@,
                intent_id,
            ).status == IntentStatus::Executed && !old(self).can_settle(intent_id) ==> r == Err::<
                SettlementOutcome,
                ErrorCode,
            >(ErrorCode::Overflow),
    {
        let idx = match self.find_intent(intent_id) {
            Some(i) => i,
            None => {
                return Err(ErrorCode::IntentNotFound);
            },
        };
        proof {
            lemma_unique_intent_index(self.intents@, intent_id, idx as int);
        }
        let intent = self.intents[idx];
        if intent.status != IntentStatus::Executed {
            return Err(ErrorCode::IntentNotExecuted);
        }
        let solver_id = match intent.solver {
            Some(s) => s,
            None => {
                // An executed intent always carries its solver.
                proof {
                    assert(self.intents@[idx as int].wf());
                }
                return Err(ErrorCode::IntentNotFound);
            },
        };
        let sidx = match self.find_solver(solver_id) {
            Some(i) => i,
            None => {
                proof {
                    assert(self.intents@[idx as int].solver == Some(solver_id));
                    assert(has_solver(self.solvers@, solver_id));
                }
                return Err(ErrorCode::SolverNotFound);
            },
        };
        proof {
            lemma_unique_solver_index(self.solvers@, solver_id, sidx as int);
        }
        let solver = self.solvers[sidx];
        let split = match settlement_split(intent.source_amount, self.config.protocol_fee_bps) {
            Ok(d) => d,
            Err(_) => {
                return Err(ErrorCode::Overflow);
            },
        };
        if solver.total_intents_executed == u64::MAX || solver.successful_intents == u64::MAX {
            return Err(ErrorCode::Overflow);
        }
        let new_volume = match solver.total_volume.checked_add(intent.source_amount) {
            Some(v) => v,
            None => {
                return Err(ErrorCode::Overflow);
            },
        };
        let new_total_volume = match self.config.total_volume.checked_add(intent.source_amount) {
            Some(v) => v,
            None => {
                return Err(ErrorCode::Overflow);
            },
        };
        let mut updated_intent = intent;
        updated_intent.status = IntentStatus::Settled;
        updated_intent.escrow = 0;
        proof {
            old(self).lemma_no_pending_unless_waiting(idx as int);
        }
        self.intents[idx] = updated_intent;
        proof {
            self.lemma_wf_after_intent_update(*old(self), idx as int, updated_intent);
        }
        let ghost mid = *self;
        let mut updated_solver = solver;
        updated_solver.total_intents_executed = solver.total_intents_executed + 1;
        updated_solver.successful_intents = solver.successful_intents + 1;
        updated_solver.total_volume = new_volume;
        updated_solver.reputation_score = if solver.reputation_score >= MAX_REPUTATION {
            MAX_REPUTATION
        } else {
            solver.reputation_score + 1
        };
        self.solvers[sidx] = updated_solver;
        self.config.total_volume = new_total_volume;
        proof {
            self.lemma_wf_after_solver_update(mid, sidx as int, updated_solver);
        }
        Ok(
            SettlementOutcome {
                solver_id,
                solver_reward: split.solver_reward,
                fee_vault: self.config.fee_vault,
                protocol_fee: split.protocol_fee,
            },
        )
    }

    /// Finds the index of the in-flight round-trip for an intent, if any.
    fn find_pending_by_intent(&self, intent_id: u64) -> (r: Option<usize>)
        ensures
            match r {
                Some(i) => i < self.pending@.len() && self.pending@[i as int].intent_id
                    == intent_id,
                None => !has_pending_intent(self.pending@, intent_id),
            },
    {
        let mut i: usize = 0;
        while i < self.pending.len()
            invariant
                i <= self.pending@.len(),
                forall|j: int| 0 <= j < i ==> self.pending@[j].intent_id != intent_id,
            decreases self.pending@.len() - i,
        {
            if self.pending[i].intent_id == intent_id {
                return Some(i);
            }
            i = i + 1;
        }
        None
    }

    /// Finds the index of the in-flight round-trip with a correlation id.
    fn find_pending_by_request(&self, request_id: u64) -> (r: Option<usize>)
        ensures
            match r {
                Some(i) => i < self.pending@.len() && self.pending@[i as int].request_id
                    == request_id,
                None => !has_pending_request(self.pending@, request_id),
            },
    {
        let mut i: usize = 0;
        while i < self.pending.len()
            invariant
                i <= self.pending@.len(),
                forall|j: int| 0 <= j < i ==> self.pending@[j].request_id != request_id,
            decreases self.pending@.len() - i,
        {
            if self.pending[i].request_id == request_id {
                return Some(i);
            }
            i = i + 1;
        }
        None
    }

    /// The failed intent: escrow refunded, terminal.
    pub open spec fn spec_failed_intent(intent: Intent) -> Intent {
        Intent { status: IntentStatus::Failed, escrow: 0, ..intent }
    }

    /// The bound solver's record after a failed intent: the failure counts
    /// against it and the penalty saturates at zero.
    pub open spec fn spec_solver_after_failure(solver: Solver) -> Solver {
        Solver {
            total_intents_executed: (solver.total_intents_executed + 1) as u64,
            failed_intents: (solver.failed_intents + 1) as u64,
            reputation_score: Solver::spec_score_after_failure(solver.reputation_score),
            ..solver
        }
    }

    /// The statuses failure can be declared from.
    pub open spec fn fail_reachable(status: IntentStatus) -> bool {
        status == IntentStatus::Created || status == IntentStatus::Matched || status
            == IntentStatus::Executed
    }

    /// Who may fail an intent: the bound solver once one is bound, the
    /// creator before that.
    pub open spec fn fail_authorized(intent: Intent, caller: u64) -> bool {
        match intent.solver {
            Some(s) => caller == s,
            None => caller == intent.creator,
        }
    }

    /// When `fail_intent` succeeds: the intent exists in a state failure
    /// can reach (`Created`, `Matched` or `Executed`), the caller is
    /// authorized, and a bound solver's counters have room.
    pub open spec fn can_fail(self, intent_id: u64, caller: u64) -> bool {
        &&& has_intent(self.intents@, intent_id)
        &&& {
            let intent = lookup_intent(self.intents@, intent_id);
            &&& Self::fail_reachable(intent.status)
            &&& Self::fail_authorized(intent, caller)
            &&& (intent.solver matches Some(s) ==> {
                let solver = lookup_solver(self.solvers@, s);
                &&& solver.failed_intents < u64::MAX
                &&& solver.total_intents_executed < u64::MAX
            })
        }
    }

    /// Fails an intent and refunds its creator the full escrowed amount;
    /// the host must perform the returned refund transfer. A bound solver
    /// takes the reputation penalty; an oracle round-trip still in flight
    /// for the intent is cancelled. Terminal: no operation can reach
    /// `Executed` or `Settled` from here.
    pub fn fail_intent(&mut self, intent_id: u64, caller: u64) -> (r: Result<Refund, ErrorCode>)
        requires
            old(self).wf(),
        ensures
            final(self).wf(),
            r is Ok <==> old(self).can_fail(intent_id, caller),
            r matches Ok(refund) ==> {
                let intent = lookup_intent(old(self).intents@, intent_id);
                &&& refund == (Refund { creator: intent.creator, amount: intent.source_amount })
                &&& final(self).intents@ == old(self).intents@.update(
                    intent_index(old(self).intents@, intent_id),
                    Self::spec_failed_intent(intent),
                )
                &&& final(self).solvers@ == (match intent.solver {
                    Some(s) => old(self).solvers@.update(
                        solver_index(old(self).solvers@, s),
                        Self::spec_solver_after_failure(lookup_solver(old(self).solvers@, s)),
                    ),
                    None => old(self).solvers@,
                })
                &&& final(self).pending@ == (if has_pending_intent(old(self).pending@, intent_id) {
                    old(self).pending@.remove(
                        pending_intent_index(old(self).pending@, intent_id),
                    )
                } else {
                    old(self).pending@
                })
                &&& final(self).config == old(self).config
            },
            r is Err ==> *final(self) == *old(self),
            !has_intent(old(self).intents@, intent_id) ==> r == Err::<Refund, ErrorCode>(
                ErrorCode::IntentNotFound,
            ),
            has_intent(old(self).intents@, intent_id) && !Self::fail_reachable(
                lookup_intent(old(self).intents@, intent_id).status,
            ) ==> r == Err::<Refund, ErrorCode>(ErrorCode::InvalidIntentStatus),
            has_intent(old(self).intents@, intent_id) && Self::fail_reachable(
                lookup_intent(old(self).intents@, intent_id).status,
            ) && !Self::fail_authorized(
                lookup_intent(old(self).intents@, intent_id),
                caller,
            ) ==> (lookup_intent(old(self).intents@, intent_id).solver is Some ==> r == Err::<
                Refund,
                ErrorCode,
            >(ErrorCode::NotMatchedSolver)) && (lookup_intent(
                old(self).intents@,
                intent_id,
            ).solver is None ==> r == Err::<Refund, ErrorCode>(ErrorCode::Unauthorized)),
            has_intent(old(self).intents@, intent_id) && Self::fail_reachable(
                lookup_intent(old(self).intents@, intent_id).status,
            ) && Self::fail_authorized(lookup_intent(old(self).intents@, intent_id), caller)
                && !old(self).can_fail(intent_id, caller) ==> r == Err::<Refund, ErrorCode>(
                ErrorCode::Overflow,
            ),
    {
        let idx = match self.find_intent(intent_id) {
            Some(i) => i,
            None => {
                return Err(ErrorCode::IntentNotFound);
            },
        };
        proof {
            lemma_unique_intent_index(self.intents@, intent_id, idx as int);
        }
        let intent = self.intents[idx];
        let failable = match intent.status {
            IntentStatus::Created => true,
            IntentStatus::Matched => true,
            IntentStatus::Executed => true,
            _ => false,
        };
        if !failable {
            return Err(ErrorCode::InvalidIntentStatus);
        }
        match intent.solver {
            Some(s) => {
                if caller != s {
                    return Err(ErrorCode::NotMatchedSolver);
                }
            },
            None => {
                if caller != intent.creator {
                    return Err(ErrorCode::Unauthorized);
                }
            },
        }
        // Validate the bound solver's counters before any mutation: the
        // call is all-or-nothing.
        let bound_solver_index: Option<usize> = match intent.solver {
            Some(s) => {
                let sidx = match self.find_solver(s) {
                    Some(i) => i,
                    None => {
                        proof {
                            assert(self.intents@[idx as int].solver == Some(s));
                            assert(has_solver(self.solvers@, s));
                        }
                        return Err(ErrorCode::SolverNotFound);
                    },
                };
                proof {
                    lemma_unique_solver_index(self.solvers@, s, sidx as int);
                }
                let solver = self.solvers[sidx];
                if solver.failed_intents == u64::MAX || solver.total_intents_executed
                    == u64::MAX {
                    return Err(ErrorCode::Overflow);
                }
                Some(sidx)
            },
            None => None,
        };
        // Cancel any oracle round-trip still in flight for this intent.
        if let Some(pidx) = self.find_pending_by_intent(intent_id) {
            proof {
                let pend = self.pending@;
                assert(pending_intent_index(pend, intent_id) == pidx as int) by {
                    let w = pending_intent_index(pend, intent_id);
                    assert(0 <= w < pend.len() && pend[w].intent_id == intent_id);
                    if w != pidx as int {
                        if w < pidx as int {
                            assert(pend[w].intent_id != pend[pidx as int].intent_id);
                        } else {
                            assert(pend[pidx as int].intent_id != pend[w].intent_id);
                        }
                    }
                }
            }
            self.pending.remove(pidx);
            proof {
                self.lemma_wf_after_pending_remove(*old(self), pidx as int);
            }
        }
        let ghost mid0 = *self;
        let mut updated_intent = intent;
        updated_intent.status = IntentStatus::Failed;
        updated_intent.escrow = 0;
        self.intents[idx] = updated_intent;
        proof {
            self.lemma_wf_after_intent_update(mid0, idx as int, updated_intent);
        }
        let ghost mid1 = *self;
        if let Some(sidx) = bound_solver_index {
            let solver = self.solvers[sidx];
            let mut updated_solver = solver;
            updated_solver.failed_intents = solver.failed_intents + 1;
            updated_solver.total_intents_executed = solver.total_intents_executed + 1;
            updated_solver.reputation_score = if solver.reputation_score >= FAILURE_PENALTY {
                solver.reputation_score - FAILURE_PENALTY
            } else {
                0
            };
            self.solvers[sidx] = updated_solver;
            proof {
                self.lemma_wf_after_solver_update(mid1, sidx as int, updated_solver);
            }
        }
        Ok(Refund { creator: intent.creator, amount: intent.source_amount })
    }

    /// When `submit_shielded_execution` succeeds: the caller is the bound
    /// solver of a matched, shielded intent, and neither this intent nor
    /// this correlation id has a round-trip already in flight.
    pub open spec fn can_submit_verification(
        self,
        intent_id: u64,
        caller: u64,
        request_id: u64,
    ) -> bool {
        &&& has_intent(self.intents@, intent_id)
        &&& lookup_intent(self.intents@, intent_id).solver == Some(caller)
        &&& lookup_intent(self.intents@, intent_id).status == IntentStatus::Matched
        &&& lookup_intent(self.intents@, intent_id).is_shielded
        &&& !has_pending_intent(self.pending@, intent_id)
        &&& !has_pending_request(self.pending@, request_id)
    }

    /// Submits a shielded intent's delivery claim to the verification
    /// oracle.
    ///
    /// The intent stays `Matched` — its waiting sub-state is the recorded
    /// round-trip, which rejects any second submission — until the oracle's
    /// verdict arrives under the same correlation id (see
    /// [`Self::deliver_verification`]).
    pub fn submit_shielded_execution(
        &mut self,
        intent_id: u64,
        caller: u64,
        request_id: u64,
        destination_tx_hash: [u8; 32],
        now: u64,
    ) -> (r: Result<(), ErrorCode>)
        requires
            old(self).wf(),
        ensures
            final(self).wf(),
            r is Ok <==> old(self).can_submit_verification(intent_id, caller, request_id),
            r is Ok ==> {
                &&& final(self).pending@ == old(self).pending@.push(
                    PendingVerification {
                        request_id,
                        intent_id,
                        destination_tx_hash,
                        submitted_at: now,
                    },
                )
                &&& final(self).intents@ == old(self).intents@
                &&& final(self).solvers@ == old(self).solvers@
                &&& final(self).config == old(self).config
            },
            r is Err ==> *final(self) == *old(self),
            !has_intent(old(self).intents@, intent_id) ==> r == Err::<(), ErrorCode>(
                ErrorCode::IntentNotFound,
            ),
            has_intent(old(self).intents@, intent_id) && lookup_intent(
                old(self).intents@,
                intent_id,
            ).solver != Some(caller) ==> r == Err::<(), ErrorCode>(ErrorCode::NotMatchedSolver),
            has_intent(old(self).intents@, intent_id) && lookup_intent(
                old(self).intents@,
                intent_id,
            ).solver == Some(caller) && (lookup_intent(old(self).intents@, intent_id).status
                != IntentStatus::Matched || !lookup_intent(
                old(self).intents@,
                intent_id,
            ).is_shielded) ==> r == Err::<(), ErrorCode>(ErrorCode::InvalidIntentStatus),
            has_intent(old(self).intents@, intent_id) && lookup_intent(
                old(self).intents@,
                intent_id,
            ).solver == Some(caller) && lookup_intent(old(self).intents@, intent_id).status
                == IntentStatus::Matched && lookup_intent(old(self).intents@, intent_id).is_shielded
                && (has_pending_intent(old(self).pending@, intent_id) || has_pending_request(
                old(self).pending@,
                request_id,
            )) ==> r == Err::<(), ErrorCode>(ErrorCode::VerificationPending),
    {
        let idx = match self.find_intent(intent_id) {
            Some(i) => i,
            None => {
                return Err(ErrorCode::IntentNotFound);
            },
        };
        proof {
            lemma_unique_intent_index(self.intents@, intent_id, idx as int);
        }
        let intent = self.intents[idx];
        let bound_to_caller = match intent.solver {
            Some(s) => s == caller,
            None => false,
        };
        if !bound_to_caller {
            return Err(ErrorCode::NotMatchedSolver);
        }
        if intent.status != IntentStatus::Matched || !intent.is_shielded {
            return Err(ErrorCode::InvalidIntentStatus);
        }
        if self.find_pending_by_intent(intent_id).is_some() || self.find_pending_by_request(
            request_id,
        ).is_some() {
            return Err(ErrorCode::VerificationPending);
        }
        let record = PendingVerification { request_id, intent_id, destination_tx_hash, submitted_at: now };
        self.pending.push(record);
        proof {
            let post = self.pending@;
            let pre = old(self).pending@;
            assert forall|i: int, j: int| 0 <= i < j < post.len() implies post[i].request_id
                != post[j].request_id && post[i].intent_id != post[j].intent_id by {
                if j < pre.len() {
                } else {
                    assert(post[j] == record);
                    assert(!has_pending_intent(pre, intent_id));
                    assert(!has_pending_request(pre, request_id));
                }
            }
            assert forall|i: int|
                0 <= i < post.len() implies pending_refers_to_waiting_intent(
                #[trigger] post[i],
                self.intents@,
            ) by {
                if i < pre.len() {
                    assert(pending_refers_to_waiting_intent(pre[i], self.intents@));
                } else {
                    assert(post[i] == record);
                    assert(self.intents@[idx as int].intent_id == intent_id
                        && self.intents@[idx as int].status == IntentStatus::Matched
                        && self.intents@[idx as int].is_shielded);
                }
            }
        }
        Ok(())
    }

    /// When `deliver_verification` is accepted: a round-trip with this
    /// correlation id is in flight — a verdict that matches nothing (never
    /// submitted, already resolved, or cancelled by `fail_intent`) is
    /// rejected, which is what makes deliveries idempotent — and, for a
    /// failing verdict, the bound solver's failure counters have room.
    pub open spec fn can_deliver_verification(self, request_id: u64, range_valid: bool) -> bool {
        &&& has_pending_request(self.pending@, request_id)
        &&& (!range_valid ==> {
            let pending = lookup_pending(self.pending@, request_id);
            let intent = lookup_intent(self.intents@, pending.intent_id);
            let solver = lookup_solver(self.solvers@, intent.solver->0);
            &&& solver.failed_intents < u64::MAX
            &&& solver.total_intents_executed < u64::MAX
        })
    }

    /// Delivers the oracle's verdict for a pending round-trip, resolving it
    /// exactly once.
    ///
    /// A passing range check executes the intent with the delivery the
    /// solver claimed at submission and the oracle's commitment as its
    /// privacy proof. A failing one is a hard failure, exactly as if the
    /// bound solver had declared it: the intent fails, the host must refund
    /// the creator, and the solver takes the failure count and reputation
    /// penalty; it is not retried automatically.
    pub fn deliver_verification(
        &mut self,
        request_id: u64,
        range_valid: bool,
        commitment: [u8; 32],
        now: u64,
    ) -> (r: Result<VerificationOutcome, ErrorCode>)
        requires
            old(self).wf(),
        ensures
            final(self).wf(),
            r is Ok <==> old(self).can_deliver_verification(request_id, range_valid),
            r is Err ==> *final(self) == *old(self),
            !has_pending_request(old(self).pending@, request_id) ==> r == Err::<
                VerificationOutcome,
                ErrorCode,
            >(ErrorCode::UnknownVerification),
            has_pending_request(old(self).pending@, request_id) && !old(
                self,
            ).can_deliver_verification(request_id, range_valid) ==> r == Err::<
                VerificationOutcome,
                ErrorCode,
            >(ErrorCode::Overflow),
            r is Ok ==> {
                let pending = lookup_pending(old(self).pending@, request_id);
                let intent = lookup_intent(old(self).intents@, pending.intent_id);
                &&& final(self).pending@ == old(self).pending@.remove(
                    pending_request_index(old(self).pending@, request_id),
                )
                &&& final(self).config == old(self).config
                &&& (range_valid ==> r == Ok::<VerificationOutcome, ErrorCode>(
                    VerificationOutcome::Accepted,
                ) && final(self).intents@ == old(self).intents@.update(
                    intent_index(old(self).intents@, pending.intent_id),
                    Self::spec_executed_intent(
                        intent,
                        pending.destination_tx_hash,
                        Some(commitment),
                        now,
                    ),
                ) && final(self).solvers@ == old(self).solvers@)
                &&& (!range_valid ==> r == Ok::<VerificationOutcome, ErrorCode>(
                    VerificationOutcome::Rejected(
                        Refund { creator: intent.creator, amount: intent.source_amount },
                    ),
                ) && final(self).intents@ == old(self).intents@.update(
                    intent_index(old(self).intents@, pending.intent_id),
                    Self::spec_failed_intent(intent),
                ) && final(self).solvers@ == old(self).solvers@.update(
                    solver_index(old(self).solvers@, intent.solver->0),
                    Self::spec_solver_after_failure(
                        lookup_solver(old(self).solvers@, intent.solver->0),
                    ),
                ))
            },
    {
        let pidx = match self.find_pending_by_request(request_id) {
            Some(i) => i,
            None => {
                return Err(ErrorCode::UnknownVerification);
            },
        };
        let pending = self.pending[pidx];
        proof {
            let pend = self.pending@;
            assert(pending_request_index(pend, request_id) == pidx as int) by {
                let w = pending_request_index(pend, request_id);
                assert(0 <= w < pend.len() && pend[w].request_id == request_id);
                if w != pidx as int {
                    if w < pidx as int {
                        assert(pend[w].request_id != pend[pidx as int].request_id);
                    } else {
                        assert(pend[pidx as int].request_id != pend[w].request_id);
                    }
                }
            }
            assert(pending_refers_to_waiting_intent(pend[pidx as int], self.intents@));
        }
        let idx = match self.find_intent(pending.intent_id) {
            Some(i) => i,
            None => {
                proof {
                    let j = choose|j: int|
                        0 <= j < self.intents@.len() && self.intents@[j].intent_id
                            == pending.intent_id && self.intents@[j].status
                            == IntentStatus::Matched && self.intents@[j].is_shielded;
                    assert(has_intent(self.intents@, pending.intent_id));
                }
                return Err(ErrorCode::IntentNotFound);
            },
        };
        proof {
            lemma_unique_intent_index(self.intents@, pending.intent_id, idx as int);
            let j = choose|j: int|
                0 <= j < self.intents@.len() && self.intents@[j].intent_id == pending.intent_id
                    && self.intents@[j].status == IntentStatus::Matched
                    && self.intents@[j].is_shielded;
            lemma_unique_intent_index(self.intents@, pending.intent_id, j);
        }
        let intent = self.intents[idx];
        if range_valid {
            self.pending.remove(pidx);
            proof {
                self.lemma_wf_after_pending_remove(*old(self), pidx as int);
            }
            let ghost mid = *self;
            let mut updated = intent;
            updated.status = IntentStatus::Executed;
            updated.executed_at = Some(now);
            updated.destination_tx_hash = pending.destination_tx_hash;
            updated.privacy_proof = Some(commitment);
            self.intents[idx] = updated;
            proof {
                self.lemma_wf_after_intent_update(mid, idx as int, updated);
            }
            Ok(VerificationOutcome::Accepted)
        } else {
            // The failure counts against the bound solver; validate its
            // counters before any mutation, so the call stays
            // all-or-nothing.
            let solver_id = match intent.solver {
                Some(s) => s,
                None => {
                    // A matched intent always carries its solver.
                    proof {
                        assert(self.intents@[idx as int].wf());
                    }
                    return Err(ErrorCode::NotMatchedSolver);
                },
            };
            let sidx = match self.find_solver(solver_id) {
                Some(i) => i,
                None => {
                    proof {
                        assert(self.intents@[idx as int].solver == Some(solver_id));
                        assert(has_solver(self.solvers@, solver_id));
                    }
                    return Err(ErrorCode::SolverNotFound);
                },
            };
            proof {
                lemma_unique_solver_index(self.solvers@, solver_id, sidx as int);
            }
            let solver = self.solvers[sidx];
            if solver.failed_intents == u64::MAX || solver.total_intents_executed == u64::MAX {
                return Err(ErrorCode::Overflow);
            }
            self.pending.remove(pidx);
            proof {
                self.lemma_wf_after_pending_remove(*old(self), pidx as int);
            }
            let ghost mid = *self;
            let mut updated = intent;
            updated.status = IntentStatus::Failed;
            updated.escrow = 0;
            self.intents[idx] = updated;
            proof {
                self.lemma_wf_after_intent_update(mid, idx as int, updated);
            }
            let ghost mid2 = *self;
            let mut updated_solver = solver;
            updated_solver.failed_intents = solver.failed_intents + 1;
            updated_solver.total_intents_executed = solver.total_intents_executed + 1;
            updated_solver.reputation_score = if solver.reputation_score >= FAILURE_PENALTY {
                solver.reputation_score - FAILURE_PENALTY
            } else {
                0
            };
            self.solvers[sidx] = updated_solver;
            proof {
                self.lemma_wf_after_solver_update(mid2, sidx as int, updated_solver);
            }
            Ok(
                VerificationOutcome::Rejected(
                    Refund { creator: intent.creator, amount: intent.source_amount },
                ),
            )
        }
    }

    /// Sets the protocol fee. Owner only; the ceiling of 1000 basis points
    /// cannot be raised.
    pub fn set_protocol_fee(&mut self, caller: u64, fee_bps: u16) -> (r: Result<(), ErrorCode>)
        requires
            old(self).wf(),
        ensures
            final(self).wf(),
            r is Ok <==> caller == old(self).config.owner && fee_bps <= MAX_FEE_BPS,
            caller != old(self).config.owner ==> r == Err::<(), ErrorCode>(ErrorCode::Unauthorized),
            caller == old(self).config.owner && fee_bps > MAX_FEE_BPS ==> r == Err::<
                (),
                ErrorCode,
            >(ErrorCode::FeeTooHigh),
            r is Ok ==> *final(self) == (SilenceBridgeRegistry {
                config: BridgeConfig { protocol_fee_bps: fee_bps, ..old(self).config },
                ..*old(self)
            }),
            r is Err ==> *final(self) == *old(self),
    {
        if caller != self.config.owner {
            return Err(ErrorCode::Unauthorized);
        }
        if fee_bps > MAX_FEE_BPS {
            return Err(ErrorCode::FeeTooHigh);
        }
        self.config.protocol_fee_bps = fee_bps;
        Ok(())
    }

    /// The deactivated solver record.
    pub open spec fn spec_deactivated_solver(solver: Solver) -> Solver {
        Solver { is_active: false, ..solver }
    }

    /// Deactivates a solver (a soft delete: the record and its history
    /// stay). Owner only, and idempotent: an already-inactive solver is
    /// accepted and nothing changes, so the active-solver counter — which
    /// always equals the number of active records — falls exactly once per
    /// solver.
    pub fn deactivate_solver(&mut self, caller: u64, solver_id: u64) -> (r: Result<(), ErrorCode>)
        requires
            old(self).wf(),
        ensures
            final(self).wf(),
            r is Ok <==> caller == old(self).config.owner && has_solver(
                old(self).solvers@,
                solver_id,
            ),
            caller != old(self).config.owner ==> r == Err::<(), ErrorCode>(ErrorCode::Unauthorized),
            caller == old(self).config.owner && !has_solver(old(self).solvers@, solver_id) ==> r
                == Err::<(), ErrorCode>(ErrorCode::SolverNotFound),
            r is Ok && lookup_solver(old(self).solvers@, solver_id).is_active ==> {
                &&& final(self).solvers@ == old(self).solvers@.update(
                    solver_index(old(self).solvers@, solver_id),
                    Self::spec_deactivated_solver(lookup_solver(old(self).solvers@, solver_id)),
                )
                &&& final(self).config == (BridgeConfig {
                    active_solvers: (old(self).config.active_solvers - 1) as u32,
                    ..old(self).config
                })
                &&& final(self).intents@ == old(self).intents@
                &&& final(self).pending@ == old(self).pending@
            },
            r is Ok && !lookup_solver(old(self).solvers@, solver_id).is_active ==> *final(self)
                == *old(self),
            r is Err ==> *final(self) == *old(self),
    {
        if caller != self.config.owner {
            return Err(ErrorCode::Unauthorized);
        }
        let sidx = match self.find_solver(solver_id) {
            Some(i) => i,
            None => {
                return Err(ErrorCode::SolverNotFound);
            },
        };
        proof {
            lemma_unique_solver_index(self.solvers@, solver_id, sidx as int);
        }
        let solver = self.solvers[sidx];
        if !solver.is_active {
            return Ok(());
        }
        let mut updated = solver;
        updated.is_active = false;
        proof {
            lemma_count_active_update(self.solvers@, sidx as int, updated);
            lemma_count_active_bounds(self.solvers@.update(sidx as int, updated));
        }
        self.solvers[sidx] = updated;
        self.config.active_solvers = self.config.active_solvers - 1;
        proof {
            self.lemma_wf_after_solver_update(*old(self), sidx as int, updated);
        }
        Ok(())
    }

    /// Looks an intent up by id.
    pub fn get_intent(&self, intent_id: u64) -> (r: Option<Intent>)
        requires
            self.wf(),
        ensures
            match r {
                Some(intent) => has_intent(self.intents@, intent_id) && intent == lookup_intent(
                    self.intents@,
                    intent_id,
                ),
                None => !has_intent(self.intents@, intent_id),
            },
    {
        match self.find_intent(intent_id) {
            Some(i) => {
                proof {
                    lemma_unique_intent_index(self.intents@, intent_id, i as int);
                }
                Some(self.intents[i])
            },
            None => None,
        }
    }

    /// Looks a solver up by id.
    pub fn get_solver(&self, solver_id: u64) -> (r: Option<Solver>)
        requires
            self.wf(),
        ensures
            match r {
                Some(solver) => has_solver(self.solvers@, solver_id) && solver == lookup_solver(
                    self.solvers@,
                    solver_id,
                ),
                None => !has_solver(self.solvers@, solver_id),
            },
    {
        match self.find_solver(solver_id) {
            Some(i) => {
                proof {
                    lemma_unique_solver_index(self.solvers@, solver_id, i as int);
                }
                Some(self.solvers[i])
            },
            None => None,
        }
    }

    /// The aggregate counters, as one value a host can render.
    pub fn get_stats(&self) -> (r: BridgeStats)
        ensures
            r == (BridgeStats {
                total_intents: self.config.total_intents,
                total_solvers: self.solvers@.len() as usize,
                active_solvers: self.config.active_solvers,
                total_volume: self.config.total_volume,
                protocol_fee_bps: self.config.protocol_fee_bps,
            }),
    {
        BridgeStats {
            total_intents: self.config.total_intents,
            total_solvers: self.solvers.len(),
            active_solvers: self.config.active_solvers,
            total_volume: self.config.total_volume,
            protocol_fee_bps: self.config.protocol_fee_bps,
        }
    }

    /// A page of active solvers: those among the `limit` registered records
    /// from `from_index` on that are still active, in registration order.
    pub fn get_active_solvers(&self, from_index: u64, limit: u64) -> (r: Vec<Solver>)
        ensures
            r@ == active_solvers_in(
                self.solvers@,
                if from_index <= self.solvers@.len() {
                    from_index as int
                } else {
                    self.solvers@.len() as int
                },
                if from_index + limit <= self.solvers@.len() {
                    (from_index + limit) as int
                } else {
                    self.solvers@.len() as int
                },
            ),
    {
        let len = self.solvers.len();
        let start: usize = if from_index < len as u64 {
            from_index as usize
        } else {
            len
        };
        let remaining: usize = len - start;
        let take: usize = if limit < remaining as u64 {
            limit as usize
        } else {
            remaining
        };
        let end: usize = start + take;
        let mut result: Vec<Solver> = Vec::new();
        let mut i: usize = start;
        while i < end
            invariant
                start <= i <= end <= self.solvers@.len(),
                result@ == active_solvers_in(self.solvers@, start as int, i as int),
            decreases end - i,
        {
            let solver = self.solvers[i];
            if solver.is_active {
                result.push(solver);
            }
            i = i + 1;
        }
        result
    }

    /// Every active solver whose capability bitmap covers both endpoints,
    /// in registration order.
    pub fn find_solvers_for_chains(&self, source_chain: Chain, destination_chain: Chain) -> (r:
        Vec<Solver>)
        ensures
            r@ == capable_solvers_in(
                self.solvers@,
                self.solvers@.len() as int,
                source_chain,
                destination_chain,
            ),
    {
        let mut result: Vec<Solver> = Vec::new();
        let mut i: usize = 0;
        while i < self.solvers.len()
            invariant
                i <= self.solvers@.len(),
                result@ == capable_solvers_in(
                    self.solvers@,
                    i as int,
                    source_chain,
                    destination_chain,
                ),
            decreases self.solvers@.len() - i,
        {
            let solver = self.solvers[i];
            if solver.is_active && supports_chain(solver.supported_chains, source_chain)
                && supports_chain(solver.supported_chains, destination_chain) {
                result.push(solver);
            }
            i = i + 1;
        }
        result
    }

    /// Every intent created by `creator`, in creation order.
    pub fn get_intents_by_creator(&self, creator: u64) -> (r: Vec<Intent>)
        ensures
            r@ == intents_of_creator(self.intents@, self.intents@.len() as int, creator),
    {
        let mut result: Vec<Intent> = Vec::new();
        let mut i: usize = 0;
        while i < self.intents.len()
            invariant
                i <= self.intents@.len(),
                result@ == intents_of_creator(self.intents@, i as int, creator),
            decreases self.intents@.len() - i,
        {
            let intent = self.intents[i];
            if intent.creator == creator {
                result.push(intent);
            }
            i = i + 1;
        }
        result
    }

    /// Updating one intent record preserves the engine invariant, as long
    /// as the record keeps its id and well-formedness, keeps an already-set
    /// solver, and does not leave the waiting sub-state a pending
    /// round-trip relies on.
    proof fn lemma_wf_after_intent_update(self, pre: Self, idx: int, updated: Intent)
        requires
            pre.wf(),
            0 <= idx < pre.intents@.len(),
            updated.intent_id == pre.intents@[idx].intent_id,
            updated.wf(),
            updated.solver matches Some(s) ==> has_solver(pre.solvers@, s),
            has_pending_intent(pre.pending@, updated.intent_id) ==> updated.status
                == IntentStatus::Matched && updated.is_shielded,
            self.intents@ == pre.intents@.update(idx, updated),
            self.solvers@ == pre.solvers@,
            self.config.protocol_fee_bps == pre.config.protocol_fee_bps,
            self.config.total_intents == pre.config.total_intents,
            self.config.active_solvers == pre.config.active_solvers,
            self.pending@ == pre.pending@,
        ensures
            self.wf(),
    {
        let post = self.intents@;
        let prei = pre.intents@;
        assert forall|i: int, j: int| 0 <= i < j < post.len() implies post[i].intent_id
            != post[j].intent_id by {
            assert(prei[i].intent_id != prei[j].intent_id);
        }
        assert forall|i: int| 0 <= i < post.len() implies (#[trigger] post[i]).wf() by {
            if i != idx {
                assert(post[i] == prei[i]);
            }
        }
        assert forall|i: int|
            0 <= i < post.len() implies ((#[trigger] post[i]).solver matches Some(s) ==> has_solver(
            self.solvers@,
            s,
        )) by {
            if i != idx {
                assert(post[i] == prei[i]);
            }
        }
        assert forall|i: int|
            0 <= i < self.pending@.len() implies pending_refers_to_waiting_intent(
            #[trigger] self.pending@[i],
            post,
        ) by {
            let p = self.pending@[i];
            assert(pending_refers_to_waiting_intent(p, prei));
            let j = choose|j: int|
                0 <= j < prei.len() && prei[j].intent_id == p.intent_id && prei[j].status
                    == IntentStatus::Matched && prei[j].is_shielded;
            if j == idx {
                assert(has_pending_intent(pre.pending@, updated.intent_id));
                assert(post[j].intent_id == p.intent_id && post[j].status == IntentStatus::Matched
                    && post[j].is_shielded);
            } else {
                assert(post[j] == prei[j]);
            }
        }
    }

    /// Updating one solver record preserves the engine invariant, as long
    /// as the record keeps its id and well-formedness and the active
    /// counter absorbs any change of the record's activity flag.
    proof fn lemma_wf_after_solver_update(self, pre: Self, sidx: int, updated: Solver)
        requires
            pre.wf(),
            0 <= sidx < pre.solvers@.len(),
            updated.solver_id == pre.solvers@[sidx].solver_id,
            updated.wf(),
            self.solvers@ == pre.solvers@.update(sidx, updated),
            self.intents@ == pre.intents@,
            self.config.protocol_fee_bps == pre.config.protocol_fee_bps,
            self.config.total_intents == pre.config.total_intents,
            self.config.active_solvers as int == pre.config.active_solvers + (if updated.is_active {
                1int
            } else {
                0int
            }) - (if pre.solvers@[sidx].is_active {
                1int
            } else {
                0int
            }),
            self.pending@ == pre.pending@,
        ensures
            self.wf(),
    {
        let post = self.solvers@;
        let pres = pre.solvers@;
        lemma_count_active_update(pres, sidx, updated);
        assert forall|i: int, j: int| 0 <= i < j < post.len() implies post[i].solver_id
            != post[j].solver_id by {
            assert(pres[i].solver_id != pres[j].solver_id);
        }
        assert forall|i: int| 0 <= i < post.len() implies (#[trigger] post[i]).wf() by {
            if i != sidx {
                assert(post[i] == pres[i]);
            }
        }
        assert forall|i: int|
            0 <= i < self.intents@.len() implies ((#[trigger] self.intents@[i]).solver matches Some(
            s,
        ) ==> has_solver(post, s)) by {
            if self.intents@[i].solver is Some {
                let s = self.intents@[i].solver->0;
                assert(has_solver(pres, s));
                let k = solver_index(pres, s);
                if k == sidx {
                    assert(post[k].solver_id == s);
                } else {
                    assert(post[k] == pres[k]);
                }
            }
        }
    }

    /// Removing one pending round-trip preserves the engine invariant, and
    /// with it no round-trip for that record's intent remains in flight.
    proof fn lemma_wf_after_pending_remove(self, pre: Self, pidx: int)
        requires
            pre.wf(),
            0 <= pidx < pre.pending@.len(),
            self.pending@ == pre.pending@.remove(pidx),
            self.intents@ == pre.intents@,
            self.solvers@ == pre.solvers@,
            self.config == pre.config,
        ensures
            self.wf(),
            !has_pending_intent(self.pending@, pre.pending@[pidx].intent_id),
            !has_pending_request(self.pending@, pre.pending@[pidx].request_id),
    {
        let post = self.pending@;
        let prep = pre.pending@;
        assert forall|i: int, j: int| 0 <= i < j < post.len() implies post[i].request_id
            != post[j].request_id && post[i].intent_id != post[j].intent_id by {
            let oi: int = if i < pidx {
                i
            } else {
                i + 1
            };
            let oj: int = if j < pidx {
                j
            } else {
                j + 1
            };
            assert(post[i] == prep[oi] && post[j] == prep[oj]);
            assert(prep[oi].request_id != prep[oj].request_id && prep[oi].intent_id
                != prep[oj].intent_id);
        }
        assert forall|i: int|
            0 <= i < post.len() implies pending_refers_to_waiting_intent(
            #[trigger] post[i],
            self.intents@,
        ) by {
            let oi: int = if i < pidx {
                i
            } else {
                i + 1
            };
            assert(post[i] == prep[oi]);
            assert(pending_refers_to_waiting_intent(prep[oi], pre.intents@));
        }
        assert forall|i: int| 0 <= i < post.len() implies post[i].intent_id
            != prep[pidx].intent_id && post[i].request_id != prep[pidx].request_id by {
            let oi: int = if i < pidx {
                i
            } else {
                i + 1
            };
            assert(post[i] == prep[oi]);
            if oi < pidx {
                assert(prep[oi].intent_id != prep[pidx].intent_id);
            } else {
                assert(prep[pidx].intent_id != prep[oi].intent_id);
            }
        }
    }

    /// A pending round-trip can only exist for an intent sitting in its
    /// waiting sub-state: `Matched` and shielded. Any other record has no
    /// round-trip in flight.
    proof fn lemma_no_pending_unless_waiting(self, idx: int)
        requires
            self.wf(),
            0 <= idx < self.intents@.len(),
            !(self.intents@[idx].status == IntentStatus::Matched
                && self.intents@[idx].is_shielded),
        ensures
            !has_pending_intent(self.pending@, self.intents@[idx].intent_id),
    {
        let id = self.intents@[idx].intent_id;
        if has_pending_intent(self.pending@, id) {
            let i = choose|i: int| 0 <= i < self.pending@.len() && self.pending@[i].intent_id == id;
            assert(pending_refers_to_waiting_intent(self.pending@[i], self.intents@));
            let j = choose|j: int|
                0 <= j < self.intents@.len() && self.intents@[j].intent_id
                    == self.pending@[i].intent_id && self.intents@[j].status
                    == IntentStatus::Matched && self.intents@[j].is_shielded;
            if j != idx {
                if j < idx {
                    assert(self.intents@[j].intent_id != self.intents@[idx].intent_id);
                } else {
                    assert(self.intents@[idx].intent_id != self.intents@[j].intent_id);
                }
            }
        }
    }
}

/// An intent is bound to at most one solver, whatever the call ordering.
///
/// `match_intent` is the only operation that sets a solver, and it accepts
/// only an intent still in `Created` — which, by the engine invariant,
/// never carries a solver. So once any solver is recorded, every further
/// match attempt is rejected, whoever calls and whenever.
pub proof fn lemma_match_binds_at_most_once(
    registry: SilenceBridgeRegistry,
    intent_id: u64,
    other_solver: u64,
    any_time: u64,
)
    requires
        registry.wf(),
        has_intent(registry.intents@, intent_id),
        lookup_intent(registry.intents@, intent_id).solver is Some,
    ensures
        !registry.can_match(intent_id, other_solver, any_time),
{
    let idx = intent_index(registry.intents@, intent_id);
    assert(registry.intents@[idx].wf());
}

/// A failed intent is terminal: no operation can bind, execute, submit,
/// settle, or fail it again, and no oracle round-trip for it remains in
/// flight — `Executed` and `Settled` are unreachable from `Failed`.
pub proof fn lemma_failed_intent_is_terminal(
    registry: SilenceBridgeRegistry,
    intent_id: u64,
    anyone: u64,
    any_request: u64,
    any_time: u64,
)
    requires
        registry.wf(),
        has_intent(registry.intents@, intent_id),
        lookup_intent(registry.intents@, intent_id).status == IntentStatus::Failed,
    ensures
        !registry.can_match(intent_id, anyone, any_time),
        !registry.can_execute(intent_id, anyone, any_time),
        !registry.can_submit_verification(intent_id, anyone, any_request),
        !registry.can_settle(intent_id),
        !registry.can_fail(intent_id, anyone),
        !has_pending_intent(registry.pending@, intent_id),
{
    let idx = intent_index(registry.intents@, intent_id);
    registry.lemma_no_pending_unless_waiting(idx);
}

/// A settled intent is just as terminal as a failed one.
pub proof fn lemma_settled_intent_is_terminal(
    registry: SilenceBridgeRegistry,
    intent_id: u64,
    anyone: u64,
    any_request: u64,
    any_time: u64,
)
    requires
        registry.wf(),
        has_intent(registry.intents@, intent_id),
        lookup_intent(registry.intents@, intent_id).status == IntentStatus::Settled,
    ensures
        !registry.can_match(intent_id, anyone, any_time),
        !registry.can_execute(intent_id, anyone, any_time),
        !registry.can_submit_verification(intent_id, anyone, any_request),
        !registry.can_settle(intent_id),
        !registry.can_fail(intent_id, anyone),
        !has_pending_intent(registry.pending@, intent_id),
{
    let idx = intent_index(registry.intents@, intent_id);
    registry.lemma_no_pending_unless_waiting(idx);
}

/// A recorded solver binding is immutable: matching is the only effect
/// that writes the `solver` field, and only from `None`. Execution,
/// settlement and failure all carry the binding through unchanged, so the
/// field moves `None -> Some(x)` exactly once in an intent's lifetime.
pub proof fn lemma_binding_set_exactly_once(
    intent: Intent,
    solver_id: u64,
    destination_tx_hash: [u8; 32],
    privacy_proof: Option<[u8; 32]>,
    now: u64,
)
    ensures
        SilenceBridgeRegistry::spec_matched_intent(intent, solver_id).solver == Some(solver_id),
        SilenceBridgeRegistry::spec_executed_intent(
            intent,
            destination_tx_hash,
            privacy_proof,
            now,
        ).solver == intent.solver,
        SilenceBridgeRegistry::spec_settled_intent(intent).solver == intent.solver,
        SilenceBridgeRegistry::spec_failed_intent(intent).solver == intent.solver,
{
}

/// Every solver's reputation stays within 0..=1000 in every state the
/// engine can reach: the bound is part of the invariant every operation
/// requires and re-establishes, and both incremental adjustments preserve
/// it (see [`lemma_score_adjustments_stay_bounded`]).
pub proof fn lemma_reputation_bounded(registry: SilenceBridgeRegistry)
    requires
        registry.wf(),
    ensures
        forall|i: int|
            0 <= i < registry.solvers@.len() ==> (#[trigger] registry.solvers@[i]).reputation_score
                <= MAX_REPUTATION,
{
}

/// The two incremental reputation moves never leave 0..=1000: the reward
/// saturates at the ceiling and the penalty saturates at zero.
pub proof fn lemma_score_adjustments_stay_bounded(score: u32)
    requires
        score <= MAX_REPUTATION,
    ensures
        Solver::spec_score_after_success(score) <= MAX_REPUTATION,
        Solver::spec_score_after_failure(score) <= MAX_REPUTATION,
{
}

/// When intent ids are unique, any index holding `intent_id` is the one the
/// spec-level lookup names.
pub proof fn lemma_unique_intent_index(s: Seq<Intent>, intent_id: u64, j: int)
    requires
        unique_intent_ids(s),
        0 <= j < s.len(),
        s[j].intent_id == intent_id,
    ensures
        has_intent(s, intent_id),
        intent_index(s, intent_id) == j,
        lookup_intent(s, intent_id) == s[j],
{
    assert(has_intent(s, intent_id));
    let k = intent_index(s, intent_id);
    assert(0 <= k < s.len() && s[k].intent_id == intent_id);
    if k != j {
        if k < j {
            assert(s[k].intent_id != s[j].intent_id);
        } else {
            assert(s[j].intent_id != s[k].intent_id);
        }
    }
}

/// When solver ids are unique, any index holding `solver_id` is the one the
/// spec-level lookup names.
pub proof fn lemma_unique_solver_index(s: Seq<Solver>, solver_id: u64, j: int)
    requires
        unique_solver_ids(s),
        0 <= j < s.len(),
        s[j].solver_id == solver_id,
    ensures
        has_solver(s, solver_id),
        solver_index(s, solver_id) == j,
        lookup_solver(s, solver_id) == s[j],
{
    assert(has_solver(s, solver_id));
    let k = solver_index(s, solver_id);
    assert(0 <= k < s.len() && s[k].solver_id == solver_id);
    if k != j {
        if k < j {
            assert(s[k].solver_id != s[j].solver_id);
        } else {
            assert(s[j].solver_id != s[k].solver_id);
        }
    }
}

} // verus!

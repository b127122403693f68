//! The settlement calculator: the single source of truth for every fee
//! computation in the system.
//!
//! Given an escrowed amount and a protocol fee in basis points, the split is
//! `protocol_fee = floor(amount * fee_bps / 10000)` and
//! `solver_reward = amount - protocol_fee`. The multiply comes before the
//! divide so no precision is lost, and a multiplication that would overflow
//! is rejected rather than wrapped.

use vstd::prelude::*;

use crate::errors::ErrorCode;

verus! {

/// One basis point is 1/100 of a percent.
pub const BPS_DENOMINATOR: u64 = 10000;

/// Hard ceiling on the protocol fee: 1000 basis points, i.e. 10%.
pub const MAX_FEE_BPS: u16 = 1000;

/// How a settled intent's escrow splits between the solver and the
/// protocol's fee vault.
#[derive(Clone, Copy, Debug, PartialEq, Eq, Structural)]
pub struct SettlementDistribution {
    /// Paid to the bound solver.
    pub solver_reward: u128,
    /// Paid to the protocol fee vault.
    pub protocol_fee: u128,
}

/// The protocol fee owed on `amount` at `fee_bps` basis points.
pub open spec fn spec_protocol_fee(amount: u128, fee_bps: int) -> int {
    (amount * fee_bps) / (BPS_DENOMINATOR as int)
}

/// Whether the fee multiplication fits in 128 bits.
pub open spec fn fee_fits(amount: u128, fee_bps: u16) -> bool {
    amount * fee_bps <= u128::MAX
}

/// Splits `amount` into the solver's reward and the protocol fee.
///
/// Rejects (with no other effect) exactly the calls whose
/// multiply-then-divide would overflow 128-bit arithmetic; on success the
/// two parts always add back up to `amount`.
pub fn settlement_split(amount: u128, fee_bps: u16) -> (r: Result<
    SettlementDistribution,
    ErrorCode,
>)
    requires
        fee_bps <= MAX_FEE_BPS,
    ensures
        r is Ok <==> fee_fits(amount, fee_bps),
        !fee_fits(amount, fee_bps) ==> r == Err::<SettlementDistribution, ErrorCode>(
            ErrorCode::Overflow,
        ),
        r matches Ok(d) ==> {
            &&& d.protocol_fee == spec_protocol_fee(amount, fee_bps as int)
            &&& d.solver_reward + d.protocol_fee == amount
        },
{
    match amount.checked_mul(fee_bps as u128) {
        Some(scaled) => {
            let protocol_fee = scaled / (BPS_DENOMINATOR as u128);
            proof {
                lemma_fee_at_most_amount(amount, fee_bps);
            }
            Ok(SettlementDistribution { solver_reward: amount - protocol_fee, protocol_fee })
        },
        None => Err(ErrorCode::Overflow),
    }
}

/// The fee never exceeds the amount it is levied on, because the fee rate
/// stays below the basis-point denominator.
pub proof fn lemma_fee_at_most_amount(amount: u128, fee_bps: u16)
    requires
        fee_bps <= MAX_FEE_BPS,
    ensures
        0 <= spec_protocol_fee(amount, fee_bps as int) <= amount,
{
    assert(amount * fee_bps <= amount * MAX_FEE_BPS) by (nonlinear_arith)
        requires
            fee_bps <= MAX_FEE_BPS,
    ;
    assert(amount * MAX_FEE_BPS < amount * BPS_DENOMINATOR + BPS_DENOMINATOR) by (nonlinear_arith);
    assert((amount * fee_bps) / (BPS_DENOMINATOR as int) <= amount) by (nonlinear_arith)
        requires
            amount * fee_bps < (amount + 1) * BPS_DENOMINATOR,
    ;
    assert(amount * fee_bps >= 0) by (nonlinear_arith);
}

} // verus!

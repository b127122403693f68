//! The closed set of ledgers the bridge can span, and solver capability
//! bitmaps over it.

use vstd::prelude::*;

verus! {

/// A ledger the bridge can move value between.
#[derive(Clone, Copy, Debug, PartialEq, Eq, Structural)]
pub enum Chain {
    Solana,
    Near,
    Zcash,
}

/// The bit a chain occupies in a solver's capability bitmap.
pub open spec fn spec_chain_bit(chain: Chain) -> u8 {
    match chain {
        Chain::Solana => 0x01,
        Chain::Near => 0x02,
        Chain::Zcash => 0x04,
    }
}

/// Returns the capability bit for `chain`.
pub fn chain_bit(chain: Chain) -> (r: u8)
    ensures
        r == spec_chain_bit(chain),
{
    match chain {
        Chain::Solana => 0x01,
        Chain::Near => 0x02,
        Chain::Zcash => 0x04,
    }
}

/// Whether a capability bitmap includes `chain`.
pub open spec fn spec_supports(chains: u8, chain: Chain) -> bool {
    chains & spec_chain_bit(chain) != 0
}

/// Tests whether the capability bitmap `chains` includes `chain`.
pub fn supports_chain(chains: u8, chain: Chain) -> (r: bool)
    ensures
        r == spec_supports(chains, chain),
{
    chains & chain_bit(chain) != 0
}

} // verus!

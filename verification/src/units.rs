//! Token amounts.

use vstd::prelude::*;

verus! {

/// A single token is 10^12 of the smallest unit the chain counts in.
pub const DECIMALS: u128 = 1_000_000_000_000;

/// What a configured amount of whole tokens is worth in the chain's smallest unit.
pub open spec fn spec_real_amount(scaled: u64) -> nat {
    (scaled as nat) * 1_000_000_000_000
}

/// Converts a configured amount of whole tokens into the chain's smallest unit.
pub fn real_amount(scaled: &u64) -> (amount: u128)
    ensures
        amount == spec_real_amount(*scaled),
{
    assert((*scaled as nat) * 1_000_000_000_000 <= 0xffff_ffff_ffff_ffff * 1_000_000_000_000)
        by (nonlinear_arith)
        requires
            *scaled <= 0xffff_ffff_ffff_ffff,
    ;
    (*scaled as u128) * DECIMALS
}

} // verus!

//! Token amounts in wei, the 256-bit unit that chain transactions take.

use vstd::prelude::*;
use alloy_core::primitives::{Uint, U256};

verus! {

#[verifier::external_type_specification]
#[verifier::external_body]
pub struct ExUint<const BITS: usize, const LIMBS: usize>(Uint<BITS, LIMBS>);

/// Wei in one whole token.
pub const WEI_PER_TOKEN: u128 = 1_000_000_000_000_000_000;

/// Wei added to a transfer to cover its gas.
pub const GAS_ALLOWANCE_WEI: u128 = 10_000_000_000_000_000;

/// The 256-bit integer of the given value.
pub uninterp spec fn u256_of(v: u128) -> U256;

/// Relies on `Uint::from`: every `u128` fits in 256 bits, so the conversion
/// does not panic, and its result depends on the value alone.
#[verifier::external_body]
fn u256_from_u128(v: u128) -> (r: U256)
    ensures
        r == u256_of(v),
{
    U256::from(v)
}

/// The wei in `amount` whole tokens.
pub open spec fn wei_of(amount: u64) -> int {
    amount * WEI_PER_TOKEN
}

proof fn lemma_wei_fits(amount: u64)
    ensures
        wei_of(amount) + GAS_ALLOWANCE_WEI <= u128::MAX,
        wei_of(amount) >= 0,
{
    assert(amount * WEI_PER_TOKEN <= u64::MAX * WEI_PER_TOKEN) by (nonlinear_arith)
        requires amount <= u64::MAX;
}

/// `amount` whole tokens in wei.
pub fn to_wei(amount: u64) -> (r: U256)
    ensures
        r == u256_of(wei_of(amount) as u128),
{
    proof {
        lemma_wei_fits(amount);
    }
    u256_from_u128(amount as u128 * WEI_PER_TOKEN)
}

/// `amount` whole tokens in wei, with the gas allowance added.
pub fn to_wei_with_gas(amount: u64) -> (r: U256)
    ensures
        r == u256_of((wei_of(amount) + GAS_ALLOWANCE_WEI) as u128),
{
    proof {
        lemma_wei_fits(amount);
    }
    u256_from_u128(amount as u128 * WEI_PER_TOKEN + GAS_ALLOWANCE_WEI)
}

} // verus!

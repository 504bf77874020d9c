use vstd::prelude::*;
use crate::checked::Int;
use crate::error::CctprError;
use crate::utils::spec_int_to_u64;
use crate::utils::int_to_u64;

verus! {

/// Smallest native units per one SOL.
pub const LAMPORTS_PER_SOL: u64 = 1_000_000_000;

/// The price oracle's root account: the owner role and the local chain's
/// native-token price in USD micro-units per SOL.
#[derive(Clone, Copy, Debug, PartialEq, Eq)]
pub struct PriceOracleConfigState {
    pub owner: [u8; 32],
    pub pending_owner: Option<[u8; 32]>,
    /// The SOL price in USD micro-units per SOL.
    pub sol_price: u64,
}

impl PriceOracleConfigState {
    /// `mul_div(micro_usd, lamports/SOL, micro_usd/SOL)`, multiplied in a
    /// wide intermediate so that only a quotient beyond `u64::MAX` is an
    /// `Overflow`.  A zero-initialized price fails with `DivisionByZero`,
    /// whatever the amount — never with a zero result.
    pub open spec fn spec_micro_usd_to_sol(self, micro_usd: u64) -> Result<u64, CctprError> {
        spec_int_to_u64(Int::Val(micro_usd).spec_mul_div(LAMPORTS_PER_SOL, self.sol_price))
    }

    pub fn micro_usd_to_sol(&self, micro_usd: u64) -> (r: Result<u64, CctprError>)
        ensures
            r == self.spec_micro_usd_to_sol(micro_usd),
    {
        int_to_u64(Int::Val(micro_usd).mul_div(LAMPORTS_PER_SOL, self.sol_price))
    }

    /// `mul_div(lamports, micro_usd/SOL, lamports/SOL)`; the divisor is a
    /// nonzero constant, so the only failure is a quotient beyond
    /// `u64::MAX`.
    pub open spec fn spec_sol_to_micro_usd(self, lamports: u64) -> Result<u64, CctprError> {
        spec_int_to_u64(Int::Val(lamports).spec_mul_div(self.sol_price, LAMPORTS_PER_SOL))
    }

    pub fn sol_to_micro_usd(&self, lamports: u64) -> (r: Result<u64, CctprError>)
        ensures
            r == self.spec_sol_to_micro_usd(lamports),
    {
        int_to_u64(Int::Val(lamports).mul_div(self.sol_price, LAMPORTS_PER_SOL))
    }

    /// Privileged update of the local native-token price; nothing else of
    /// the configuration changes.
    pub fn update_sol_price(&mut self, new_sol_price: u64)
        ensures
            *final(self) == (PriceOracleConfigState { sol_price: new_sol_price, ..*old(self) }),
    {
        self.sol_price = new_sol_price;
    }
}

} // verus!

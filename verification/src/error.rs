use vstd::prelude::*;

verus! {

/// Failure taxonomy of the fee engine.  Every failure is terminal for the
/// enclosing operation: nothing is charged and no routing decision is made.
#[derive(Clone, Copy, Debug, PartialEq, Eq, Structural)]
pub enum CctprError {
    /// A required price entry is missing, a take-fee-from-input request is
    /// inconsistent, a routing precondition is violated, or a gasless
    /// overlay is combined with a non-USDC charge.
    InvalidTransferArgs,
    /// The off-chain quote's expiration time is not in the future.
    QuoteExpired,
    /// The gasless permission's expiration time is not in the future.
    GaslessPermissionExpired,
    /// The off-chain quote's signature does not recover to the trusted signer.
    OffchainQuoterSignatureInvalid,
    /// The computed fee exceeds the caller-supplied maximum.
    ExceedsMaxFee,
    /// A checked arithmetic step overflowed.
    Overflow,
    /// A checked arithmetic step divided by zero.
    DivisionByZero,
    /// A chain identifier does not belong to the platform it was registered for.
    InvalidChainId,
}

} // verus!

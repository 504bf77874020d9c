use vstd::prelude::*;
use crate::checked::Int;
use crate::error::CctprError;

verus! {

/// Protocol-level chain identifier of the local (Solana) chain.
pub const SOLANA_CHAIN_ID: u16 = 1;

/// Protocol-level chain identifier of Ethereum.
pub const ETHEREUM_CHAIN_ID: u16 = 2;

/// Protocol-level chain identifier of Sui.
pub const SUI_CHAIN_ID: u16 = 21;

/// Execution platform of a destination chain, which selects the cost model
/// that prices a transaction on it.
#[derive(Clone, Copy, Debug, PartialEq, Eq, Structural)]
pub enum Platform {
    Sol,
    Evm,
    Sui,
}

impl Platform {
    /// Platform implied by a chain identifier: `0` is unassigned, the local
    /// chain and Sui have fixed identifiers, and every other identifier
    /// belongs to an EVM chain.
    pub open spec fn spec_from_chain_id(chain_id: u16) -> Option<Platform> {
        if chain_id == 0 {
            None
        } else if chain_id == SOLANA_CHAIN_ID {
            Some(Platform::Sol)
        } else if chain_id == SUI_CHAIN_ID {
            Some(Platform::Sui)
        } else {
            Some(Platform::Evm)
        }
    }

    pub fn from_chain_id(chain_id: u16) -> (r: Option<Platform>)
        ensures
            r == Platform::spec_from_chain_id(chain_id),
    {
        if chain_id == 0 {
            None
        } else if chain_id == SOLANA_CHAIN_ID {
            Some(Platform::Sol)
        } else if chain_id == SUI_CHAIN_ID {
            Some(Platform::Sui)
        } else {
            Some(Platform::Evm)
        }
    }
}

/// Conversion of a finished pipeline value into the failure taxonomy:
/// each poison maps to its own distinct error, never to a default value.
pub open spec fn spec_int_to_u64(val: Int) -> Result<u64, CctprError> {
    match val {
        Int::Val(v) => Ok(v),
        Int::Overflow => Err(CctprError::Overflow),
        Int::DivisionByZero => Err(CctprError::DivisionByZero),
    }
}

pub fn int_to_u64(val: Int) -> (r: Result<u64, CctprError>)
    ensures
        r == spec_int_to_u64(val),
{
    match val {
        Int::Val(v) => Ok(v),
        Int::Overflow => Err(CctprError::Overflow),
        Int::DivisionByZero => Err(CctprError::DivisionByZero),
    }
}

} // verus!

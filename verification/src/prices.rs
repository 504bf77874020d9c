use vstd::prelude::*;
use crate::checked::Int;
use crate::config::PriceOracleConfigState;
use crate::encoding::spec_le2;
use crate::encoding::spec_le4;
use crate::encoding::spec_le8;
use crate::encoding::spec_le2_val;
use crate::encoding::spec_le4_val;
use crate::encoding::spec_le8_val;
use crate::encoding::lemma_le2_roundtrip;
use crate::encoding::lemma_le4_roundtrip;
use crate::encoding::lemma_le8_roundtrip;
use crate::encoding::push_le2;
use crate::encoding::push_le4;
use crate::encoding::push_le8;
use crate::encoding::read_le2;
use crate::encoding::read_le4;
use crate::encoding::read_le8;
use crate::error::CctprError;
use crate::utils::Platform;
use crate::utils::int_to_u64;
use crate::utils::spec_int_to_u64;

verus! {

/// Floor on the priced cost of any Sui transaction, in MIST.
pub const SUI_MIN_TRANSACTION_COST_MIST: u64 = 2_000;

/// Micro-units of a gas token per one gas token.
pub const MICRO_GAS_TOKEN_PER_GAS_TOKEN: u64 = 1_000_000;

/// Mwei per one micro-ETH.
pub const MWEI_PER_MICRO_ETH: u64 = 1_000_000;

/// Mwei per one ETH.
pub const MWEI_PER_ETH: u64 = 1_000_000_000_000;

/// MIST per one SUI.
pub const MIST_PER_SUI: u64 = 1_000_000_000;

/// Platform-specific cost parameters of a registered destination chain,
/// in micro-units of its gas token.
///
/// An `Uninitialized` payload (zero-filled in storage) belongs to an entry
/// whose chain identifier maps to no platform; the fee formulas must never
/// read it as `Evm` or `Sui`.
#[derive(Clone, Copy, Debug, PartialEq, Eq, Structural)]
pub enum PricesStatePlatform {
    Uninitialized,
    Evm {
        /// Gas price / base fee of a transaction, in Mwei per gas.
        gas_price: u32,
        /// Cost of including a transaction byte, in Mwei per byte.
        price_per_tx_byte: u32,
    },
    Sui {
        /// Cost of one computation unit, in MIST.
        computation_unit_price: u32,
        /// Cost of one stored byte, in MIST.
        byte_price: u32,
        /// Percentage of the storage cost rebated for deleted bytes.
        rebate_ratio: u8,
    },
}

/// Price entry of one destination chain: its identifier, its gas token's
/// price in USD micro-units per token, and the platform cost parameters.
#[derive(Clone, Copy, Debug, PartialEq, Eq, Structural)]
pub struct PricesState {
    /// Identifier of the chain this entry prices; `0` means unassigned.
    pub chain_id: u16,
    /// The gas token price in USD micro-units per token.
    pub gas_token_price: u64,
    /// The platform cost parameters, in micro-units of the gas token.
    pub prices: PricesStatePlatform,
}

/// Execution parameters of the relayed call on the candidate destination
/// chains.  Parameters of an unused platform are simply zero.
#[derive(Clone, Copy, Debug, PartialEq, Eq, Structural)]
pub struct TargetChainsConfig {
    /// Gas used by the target contract on an EVM chain.
    pub evm_transaction_gas: u32,
    /// Transaction size in bytes on an EVM chain.
    pub evm_transaction_size: u32,
    /// Computation units used by the target contract on Sui.
    pub sui_computation_units: u32,
    /// Bytes stored by the target contract on Sui.
    pub sui_stored_bytes: u32,
    /// Bytes deleted by the target contract on Sui.
    pub sui_deleted_bytes: u32,
}

impl PricesState {
    /// The platform payload has been filled in.
    pub open spec fn spec_initialized(self) -> bool {
        !(self.prices is Uninitialized)
    }

    /// The platform payload matches the platform implied by the chain
    /// identifier.
    pub open spec fn wf(self) -> bool {
        match self.prices {
            PricesStatePlatform::Uninitialized => Platform::spec_from_chain_id(
                self.chain_id,
            ) is None,
            PricesStatePlatform::Evm { .. } => Platform::spec_from_chain_id(self.chain_id)
                == Some(Platform::Evm),
            PricesStatePlatform::Sui { .. } => Platform::spec_from_chain_id(self.chain_id)
                == Some(Platform::Sui),
        }
    }

    /// `mul_div(micro_usd/token, micro_gas_token, micro_token/token)`,
    /// multiplied in a wide intermediate: the divisor is a nonzero
    /// constant, so the only failure is a quotient beyond `u64::MAX`.
    pub open spec fn spec_micro_gas_token_to_micro_usd(self, micro_gas_token: u32) -> Result<
        u64,
        CctprError,
    > {
        spec_int_to_u64(
            Int::Val(self.gas_token_price).spec_mul_div(
                micro_gas_token as u64,
                MICRO_GAS_TOKEN_PER_GAS_TOKEN,
            ),
        )
    }

    pub fn micro_gas_token_to_micro_usd(&self, micro_gas_token: u32) -> (r: Result<
        u64,
        CctprError,
    >)
        ensures
            r == self.spec_micro_gas_token_to_micro_usd(micro_gas_token),
    {
        int_to_u64(
            Int::Val(self.gas_token_price).mul_div(
                micro_gas_token as u64,
                MICRO_GAS_TOKEN_PER_GAS_TOKEN,
            ),
        )
    }

    /// The total fee of running the target contract, in USD micro-units,
    /// as a pipeline value.
    ///
    /// - EVM: `gas * gas_price + size * price_per_tx_byte` at 32-bit
    ///   width, plus the flat token fee converted to Mwei at 64-bit width,
    ///   then `mul_div` by the gas token price over Mwei-per-token.
    /// - Sui: stored bytes less the rebated share of deleted bytes
    ///   (floored at zero), priced per byte, plus the computation cost (at
    ///   32-bit width) and the flat token fee in MIST; the sum is floored
    ///   at the minimum transaction cost, then `mul_div` by the gas token
    ///   price over MIST-per-SUI converts it to USD micro-units.
    ///
    /// The flat USD micro-unit fee is added last, on either path.
    pub open spec fn spec_total_fee_micro_usd(
        self,
        config: TargetChainsConfig,
        flat_fee_micro_token: u32,
        flat_fee_micro_usd: u32,
    ) -> Int {
        let platform_fee = match self.prices {
            PricesStatePlatform::Evm { gas_price, price_per_tx_byte } => Int::spec_mul_u32(
                config.evm_transaction_gas,
                gas_price,
            ).spec_add_int_u32(
                Int::spec_mul_u32(config.evm_transaction_size, price_per_tx_byte),
            ).spec_add_int(
                Int::Val(flat_fee_micro_token as u64).spec_mul(MWEI_PER_MICRO_ETH),
            ).spec_mul_div(self.gas_token_price, MWEI_PER_ETH),
            PricesStatePlatform::Sui { computation_unit_price, byte_price, rebate_ratio } => {
                let rebate = config.sui_deleted_bytes * rebate_ratio / 100;
                let stored = config.sui_stored_bytes as int;
                let bytes_ratio = if rebate > stored {
                    Int::Val(0)
                } else {
                    Int::Val(stored as u64).spec_sub_int(Int::Val(rebate as u64))
                };
                let computation_fee = Int::spec_mul_u32(
                    config.sui_computation_units,
                    computation_unit_price,
                );
                let storage_fee = bytes_ratio.spec_mul(byte_price as u64);
                computation_fee.spec_add_int(storage_fee).spec_add(
                    (flat_fee_micro_token * 1000) as u64,
                ).spec_at_least(SUI_MIN_TRANSACTION_COST_MIST).spec_mul_div(
                    self.gas_token_price,
                    MIST_PER_SUI,
                )
            },
            PricesStatePlatform::Uninitialized => arbitrary(),
        };
        platform_fee.spec_add(flat_fee_micro_usd as u64)
    }

    fn internal_calc_total_fee_micro_usd(
        &self,
        config: &TargetChainsConfig,
        flat_fee_micro_token: u32,
        flat_fee_micro_usd: u32,
    ) -> (r: Int)
        requires
            self.spec_initialized(),
        ensures
            r == self.spec_total_fee_micro_usd(*config, flat_fee_micro_token, flat_fee_micro_usd),
    {
        let flat_token: u64 = flat_fee_micro_token as u64;
        let platform_fee = match self.prices {
            PricesStatePlatform::Evm { gas_price, price_per_tx_byte } => Int::mul_u32(
                config.evm_transaction_gas,
                gas_price,
            ).add_int_u32(Int::mul_u32(config.evm_transaction_size, price_per_tx_byte)).add_int(
                Int::Val(flat_token).mul(MWEI_PER_MICRO_ETH),
            ).mul_div(self.gas_token_price, MWEI_PER_ETH),
            PricesStatePlatform::Sui { computation_unit_price, byte_price, rebate_ratio } => {
                proof {
                    assert((config.sui_deleted_bytes as int) * (rebate_ratio as int) <= 0xFFFFFFFF
                        * 0xFF) by (nonlinear_arith)
                        requires
                            config.sui_deleted_bytes <= 0xFFFFFFFFu32,
                            rebate_ratio <= 0xFFu8,
                    ;
                }
                let rebate: u64 = (config.sui_deleted_bytes as u64) * (rebate_ratio as u64) / 100;
                let stored: u64 = config.sui_stored_bytes as u64;
                let bytes_ratio = if rebate > stored {
                    Int::Val(0)
                } else {
                    Int::Val(stored).sub_int(Int::Val(rebate))
                };
                let computation_fee = Int::mul_u32(
                    config.sui_computation_units,
                    computation_unit_price,
                );
                let storage_fee = bytes_ratio.mul(byte_price as u64);
                computation_fee.add_int(storage_fee).add(flat_token * 1000).at_least(
                    SUI_MIN_TRANSACTION_COST_MIST,
                ).mul_div(self.gas_token_price, MIST_PER_SUI)
            },
            PricesStatePlatform::Uninitialized => {
                proof {
                    assert(false);
                }
                Int::Overflow
            },
        };
        platform_fee.add(flat_fee_micro_usd as u64)
    }

    /// The total fee of running the target contract, in USD micro-units,
    /// with a poisoned pipeline surfaced as its own error.
    pub open spec fn spec_calc_total_fee_micro_usd(
        self,
        config: TargetChainsConfig,
        flat_fee_micro_token: u32,
        flat_fee_micro_usd: u32,
    ) -> Result<u64, CctprError> {
        spec_int_to_u64(
            self.spec_total_fee_micro_usd(config, flat_fee_micro_token, flat_fee_micro_usd),
        )
    }

    pub fn calc_total_fee_micro_usd(
        &self,
        config: &TargetChainsConfig,
        flat_fee_micro_token: u32,
        flat_fee_micro_usd: u32,
    ) -> (r: Result<u64, CctprError>)
        requires
            self.spec_initialized(),
        ensures
            r == self.spec_calc_total_fee_micro_usd(
                *config,
                flat_fee_micro_token,
                flat_fee_micro_usd,
            ),
    {
        int_to_u64(
            self.internal_calc_total_fee_micro_usd(config, flat_fee_micro_token, flat_fee_micro_usd),
        )
    }

    /// The total fee of running the target contract, converted to the
    /// local chain's smallest native unit through the oracle's SOL price.
    pub open spec fn spec_calculate_total_fee(
        self,
        oracle_config: PriceOracleConfigState,
        config: TargetChainsConfig,
        flat_fee_micro_token: u32,
        flat_fee_micro_usd: u32,
    ) -> Result<u64, CctprError> {
        match spec_int_to_u64(
            self.spec_total_fee_micro_usd(config, flat_fee_micro_token, flat_fee_micro_usd),
        ) {
            Ok(total_micro_usd) => oracle_config.spec_micro_usd_to_sol(total_micro_usd),
            Err(e) => Err(e),
        }
    }

    pub fn calculate_total_fee(
        &self,
        oracle_config: &PriceOracleConfigState,
        config: &TargetChainsConfig,
        flat_fee_micro_token: u32,
        flat_fee_micro_usd: u32,
    ) -> (r: Result<u64, CctprError>)
        requires
            self.spec_initialized(),
        ensures
            r == self.spec_calculate_total_fee(
                *oracle_config,
                *config,
                flat_fee_micro_token,
                flat_fee_micro_usd,
            ),
    {
        match int_to_u64(
            self.internal_calc_total_fee_micro_usd(config, flat_fee_micro_token, flat_fee_micro_usd),
        ) {
            Ok(total_micro_usd) => oracle_config.micro_usd_to_sol(total_micro_usd),
            Err(e) => Err(e),
        }
    }

    /// Registers an EVM chain's prices; any chain identifier that does not
    /// map to the EVM platform is rejected.
    pub fn register_evm_prices(
        chain_id: u16,
        gas_token_price: u64,
        gas_price: u32,
        price_per_tx_byte: u32,
    ) -> (r: Result<PricesState, CctprError>)
        ensures
            (r is Ok) == (Platform::spec_from_chain_id(chain_id) == Some(Platform::Evm)),
            r matches Ok(s) ==> s == (PricesState {
                chain_id,
                gas_token_price,
                prices: PricesStatePlatform::Evm { gas_price, price_per_tx_byte },
            }) && s.wf(),
            r matches Err(e) ==> e == CctprError::InvalidChainId,
    {
        match Platform::from_chain_id(chain_id) {
            Some(Platform::Evm) => Ok(
                PricesState {
                    chain_id,
                    gas_token_price,
                    prices: PricesStatePlatform::Evm { gas_price, price_per_tx_byte },
                },
            ),
            _ => Err(CctprError::InvalidChainId),
        }
    }

    /// Registers a Sui chain's prices; any chain identifier that does not
    /// map to the Sui platform is rejected.
    pub fn register_sui_prices(
        chain_id: u16,
        gas_token_price: u64,
        computation_unit_price: u32,
        byte_price: u32,
        rebate_ratio: u8,
    ) -> (r: Result<PricesState, CctprError>)
        ensures
            (r is Ok) == (Platform::spec_from_chain_id(chain_id) == Some(Platform::Sui)),
            r matches Ok(s) ==> s == (PricesState {
                chain_id,
                gas_token_price,
                prices: PricesStatePlatform::Sui {
                    computation_unit_price,
                    byte_price,
                    rebate_ratio,
                },
            }) && s.wf(),
            r matches Err(e) ==> e == CctprError::InvalidChainId,
    {
        match Platform::from_chain_id(chain_id) {
            Some(Platform::Sui) => Ok(
                PricesState {
                    chain_id,
                    gas_token_price,
                    prices: PricesStatePlatform::Sui {
                        computation_unit_price,
                        byte_price,
                        rebate_ratio,
                    },
                },
            ),
            _ => Err(CctprError::InvalidChainId),
        }
    }

    /// Privileged update of an EVM entry; entries of any other platform
    /// are rejected unchanged.
    pub fn update_evm_prices(
        &mut self,
        new_gas_token_price: u64,
        new_gas_price: u32,
        new_price_per_tx_byte: u32,
    ) -> (r: Result<(), CctprError>)
        ensures
            (r is Ok) == (old(self).prices matches PricesStatePlatform::Evm { .. }),
            r is Ok ==> *final(self) == (PricesState {
                chain_id: old(self).chain_id,
                gas_token_price: new_gas_token_price,
                prices: PricesStatePlatform::Evm {
                    gas_price: new_gas_price,
                    price_per_tx_byte: new_price_per_tx_byte,
                },
            }),
            r matches Err(e) ==> e == CctprError::InvalidChainId && *final(self) == *old(self),
            old(self).wf() ==> final(self).wf(),
    {
        match self.prices {
            PricesStatePlatform::Evm { .. } => {
                self.gas_token_price = new_gas_token_price;
                self.prices = PricesStatePlatform::Evm {
                    gas_price: new_gas_price,
                    price_per_tx_byte: new_price_per_tx_byte,
                };
                Ok(())
            },
            _ => Err(CctprError::InvalidChainId),
        }
    }

    /// Privileged update of a Sui entry's gas token price and computation
    /// unit price; the byte price and rebate ratio are kept.
    pub fn update_sui_prices(
        &mut self,
        new_computation_unit_price: u32,
        new_gas_token_price: u64,
    ) -> (r: Result<(), CctprError>)
        ensures
            (r is Ok) == (old(self).prices matches PricesStatePlatform::Sui { .. }),
            r is Ok ==> *final(self) == (PricesState {
                chain_id: old(self).chain_id,
                gas_token_price: new_gas_token_price,
                prices: PricesStatePlatform::Sui {
                    computation_unit_price: new_computation_unit_price,
                    byte_price: old(self).prices->Sui_byte_price,
                    rebate_ratio: old(self).prices->Sui_rebate_ratio,
                },
            }),
            r matches Err(e) ==> e == CctprError::InvalidChainId && *final(self) == *old(self),
            old(self).wf() ==> final(self).wf(),
    {
        match self.prices {
            PricesStatePlatform::Sui { byte_price, rebate_ratio, .. } => {
                self.gas_token_price = new_gas_token_price;
                self.prices = PricesStatePlatform::Sui {
                    computation_unit_price: new_computation_unit_price,
                    byte_price,
                    rebate_ratio,
                };
                Ok(())
            },
            _ => Err(CctprError::InvalidChainId),
        }
    }

    /// Privileged update of a Sui entry's byte price alone.
    pub fn update_sui_byte_price(&mut self, new_byte_price: u32) -> (r: Result<(), CctprError>)
        ensures
            (r is Ok) == (old(self).prices matches PricesStatePlatform::Sui { .. }),
            r is Ok ==> *final(self) == (PricesState {
                chain_id: old(self).chain_id,
                gas_token_price: old(self).gas_token_price,
                prices: PricesStatePlatform::Sui {
                    computation_unit_price: old(self).prices->Sui_computation_unit_price,
                    byte_price: new_byte_price,
                    rebate_ratio: old(self).prices->Sui_rebate_ratio,
                },
            }),
            r matches Err(e) ==> e == CctprError::InvalidChainId && *final(self) == *old(self),
            old(self).wf() ==> final(self).wf(),
    {
        match self.prices {
            PricesStatePlatform::Sui { computation_unit_price, rebate_ratio, .. } => {
                self.prices = PricesStatePlatform::Sui {
                    computation_unit_price,
                    byte_price: new_byte_price,
                    rebate_ratio,
                };
                Ok(())
            },
            _ => Err(CctprError::InvalidChainId),
        }
    }

    /// Privileged update of a Sui entry's rebate ratio alone.
    pub fn update_sui_rebate_ratio(&mut self, new_rebate_ratio: u8) -> (r: Result<(), CctprError>)
        ensures
            (r is Ok) == (old(self).prices matches PricesStatePlatform::Sui { .. }),
            r is Ok ==> *final(self) == (PricesState {
                chain_id: old(self).chain_id,
                gas_token_price: old(self).gas_token_price,
                prices: PricesStatePlatform::Sui {
                    computation_unit_price: old(self).prices->Sui_computation_unit_price,
                    byte_price: old(self).prices->Sui_byte_price,
                    rebate_ratio: new_rebate_ratio,
                },
            }),
            r matches Err(e) ==> e == CctprError::InvalidChainId && *final(self) == *old(self),
            old(self).wf() ==> final(self).wf(),
    {
        match self.prices {
            PricesStatePlatform::Sui { computation_unit_price, byte_price, .. } => {
                self.prices = PricesStatePlatform::Sui {
                    computation_unit_price,
                    byte_price,
                    rebate_ratio: new_rebate_ratio,
                };
                Ok(())
            },
            _ => Err(CctprError::InvalidChainId),
        }
    }
}

/// Discriminator that prefixes a stored price entry, identifying the
/// account type.
pub open spec fn spec_prices_discriminator() -> Seq<u8> {
    seq![0x37u8, 0x89u8, 0x31u8, 0xBBu8, 0x0Fu8, 0x63u8, 0x01u8, 0x1Eu8]
}

impl PricesState {
    /// Storage image of the entry: chain identifier and gas token price in
    /// little-endian, followed by the platform payload (16 zero bytes for
    /// an unassigned entry).
    pub open spec fn spec_serialized(self) -> Seq<u8> {
        spec_le2(self.chain_id) + spec_le8(self.gas_token_price) + match self.prices {
            PricesStatePlatform::Uninitialized => Seq::new(16, |i: int| 0u8),
            PricesStatePlatform::Evm { gas_price, price_per_tx_byte } => spec_le4(gas_price)
                + spec_le4(price_per_tx_byte),
            PricesStatePlatform::Sui { computation_unit_price, byte_price, rebate_ratio } =>
                spec_le4(computation_unit_price) + spec_le4(byte_price) + seq![rebate_ratio],
        }
    }

    pub fn serialize(&self) -> (r: Vec<u8>)
        ensures
            r@ == self.spec_serialized(),
    {
        let mut out: Vec<u8> = Vec::new();
        push_le2(&mut out, self.chain_id);
        push_le8(&mut out, self.gas_token_price);
        let ghost header = out@;
        match self.prices {
            PricesStatePlatform::Uninitialized => {
                let mut k: usize = 0;
                while k < 16
                    invariant
                        k <= 16,
                        out@ == header + Seq::new(k as nat, |i: int| 0u8),
                    decreases 16 - k,
                {
                    out.push(0u8);
                    k += 1;
                    proof {
                        assert(header + Seq::new(k as nat, |i: int| 0u8) =~= (header + Seq::new(
                            (k - 1) as nat,
                            |i: int| 0u8,
                        )).push(0u8));
                    }
                }
            },
            PricesStatePlatform::Evm { gas_price, price_per_tx_byte } => {
                push_le4(&mut out, gas_price);
                push_le4(&mut out, price_per_tx_byte);
            },
            PricesStatePlatform::Sui { computation_unit_price, byte_price, rebate_ratio } => {
                push_le4(&mut out, computation_unit_price);
                push_le4(&mut out, byte_price);
                out.push(rebate_ratio);
            },
        }
        proof {
            assert(out@ =~= self.spec_serialized());
        }
        out
    }

    /// Storage image with the account discriminator in front.
    pub fn try_serialize(&self) -> (r: Vec<u8>)
        ensures
            r@ == spec_prices_discriminator() + self.spec_serialized(),
    {
        let mut out: Vec<u8> = Vec::new();
        out.push(0x37u8);
        out.push(0x89u8);
        out.push(0x31u8);
        out.push(0xBBu8);
        out.push(0x0Fu8);
        out.push(0x63u8);
        out.push(0x01u8);
        out.push(0x1Eu8);
        let mut body = self.serialize();
        out.append(&mut body);
        proof {
            assert(out@ =~= spec_prices_discriminator() + self.spec_serialized());
        }
        out
    }

    /// Entry read back from a storage image without its discriminator.
    /// The platform payload is decoded according to the platform implied
    /// by the chain identifier; the local chain cannot be stored as a
    /// foreign entry, and bytes beyond the payload are ignored.
    pub open spec fn spec_deserialized(bytes: Seq<u8>) -> Option<PricesState> {
        if bytes.len() < 10 {
            None
        } else {
            let chain_id = spec_le2_val(bytes.subrange(0, 2));
            let gas_token_price = spec_le8_val(bytes.subrange(2, 10));
            match Platform::spec_from_chain_id(chain_id) {
                Some(Platform::Evm) => if bytes.len() < 18 {
                    None
                } else {
                    Some(
                        PricesState {
                            chain_id,
                            gas_token_price,
                            prices: PricesStatePlatform::Evm {
                                gas_price: spec_le4_val(bytes.subrange(10, 14)),
                                price_per_tx_byte: spec_le4_val(bytes.subrange(14, 18)),
                            },
                        },
                    )
                },
                Some(Platform::Sui) => if bytes.len() < 19 {
                    None
                } else {
                    Some(
                        PricesState {
                            chain_id,
                            gas_token_price,
                            prices: PricesStatePlatform::Sui {
                                computation_unit_price: spec_le4_val(bytes.subrange(10, 14)),
                                byte_price: spec_le4_val(bytes.subrange(14, 18)),
                                rebate_ratio: bytes[18],
                            },
                        },
                    )
                },
                None => Some(
                    PricesState {
                        chain_id,
                        gas_token_price,
                        prices: PricesStatePlatform::Uninitialized,
                    },
                ),
                Some(Platform::Sol) => None,
            }
        }
    }

    pub fn deserialize_reader(bytes: &[u8]) -> (r: Option<PricesState>)
        ensures
            r == PricesState::spec_deserialized(bytes@),
    {
        if bytes.len() < 10 {
            return None;
        }
        let chain_id = read_le2(bytes, 0);
        let gas_token_price = read_le8(bytes, 2);
        match Platform::from_chain_id(chain_id) {
            Some(Platform::Evm) => {
                if bytes.len() < 18 {
                    return None;
                }
                Some(
                    PricesState {
                        chain_id,
                        gas_token_price,
                        prices: PricesStatePlatform::Evm {
                            gas_price: read_le4(bytes, 10),
                            price_per_tx_byte: read_le4(bytes, 14),
                        },
                    },
                )
            },
            Some(Platform::Sui) => {
                if bytes.len() < 19 {
                    return None;
                }
                Some(
                    PricesState {
                        chain_id,
                        gas_token_price,
                        prices: PricesStatePlatform::Sui {
                            computation_unit_price: read_le4(bytes, 10),
                            byte_price: read_le4(bytes, 14),
                            rebate_ratio: bytes[18],
                        },
                    },
                )
            },
            None => Some(
                PricesState { chain_id, gas_token_price, prices: PricesStatePlatform::Uninitialized },
            ),
            Some(Platform::Sol) => None,
        }
    }

    /// Entry read back from a full account image: the discriminator must
    /// match before the body is decoded.
    pub open spec fn spec_try_deserialized(bytes: Seq<u8>) -> Option<PricesState> {
        if bytes.len() < 8 || bytes.subrange(0, 8) != spec_prices_discriminator() {
            None
        } else {
            PricesState::spec_deserialized(bytes.skip(8))
        }
    }

    pub fn try_deserialize(bytes: &[u8]) -> (r: Option<PricesState>)
        ensures
            r == PricesState::spec_try_deserialized(bytes@),
    {
        if bytes.len() < 8 {
            return None;
        }
        let matches_discriminator = bytes[0] == 0x37 && bytes[1] == 0x89 && bytes[2] == 0x31
            && bytes[3] == 0xBB && bytes[4] == 0x0F && bytes[5] == 0x63 && bytes[6] == 0x01
            && bytes[7] == 0x1E;
        if !matches_discriminator {
            proof {
                assert(bytes@.subrange(0, 8) != spec_prices_discriminator()) by {
                    if bytes@.subrange(0, 8) == spec_prices_discriminator() {
                        assert(bytes@[0] == 0x37 && bytes@[1] == 0x89 && bytes@[2] == 0x31
                            && bytes@[3] == 0xBB && bytes@[4] == 0x0F && bytes@[5] == 0x63
                            && bytes@[6] == 0x01 && bytes@[7] == 0x1E) by {
                            assert(forall|i: int| 0 <= i < 8 ==> bytes@[i] == #[trigger] bytes@.subrange(
                                0,
                                8,
                            )[i]);
                        }
                    }
                }
            }
            return None;
        }
        proof {
            assert(bytes@.subrange(0, 8) =~= spec_prices_discriminator());
        }
        let body = vstd::slice::slice_subrange(bytes, 8, bytes.len());
        let r = PricesState::deserialize_reader(body);
        proof {
            assert(body@ =~= bytes@.skip(8));
        }
        r
    }
}

/// A well-formed, initialized price entry survives the storage round
/// trip: decoding its serialized image yields the entry itself, both with
/// and without the account discriminator.
#[verifier::rlimit(50)]
pub proof fn lemma_prices_roundtrip(s: PricesState)
    requires
        s.wf(),
        s.spec_initialized(),
    ensures
        PricesState::spec_deserialized(s.spec_serialized()) == Some(s),
        PricesState::spec_try_deserialized(spec_prices_discriminator() + s.spec_serialized())
            == Some(s),
{
    let bytes = s.spec_serialized();
    lemma_le2_roundtrip(s.chain_id);
    lemma_le8_roundtrip(s.gas_token_price);
    assert(bytes.subrange(0, 2) =~= spec_le2(s.chain_id));
    assert(bytes.subrange(2, 10) =~= spec_le8(s.gas_token_price));
    match s.prices {
        PricesStatePlatform::Evm { gas_price, price_per_tx_byte } => {
            lemma_le4_roundtrip(gas_price);
            lemma_le4_roundtrip(price_per_tx_byte);
            assert(bytes.subrange(10, 14) =~= spec_le4(gas_price));
            assert(bytes.subrange(14, 18) =~= spec_le4(price_per_tx_byte));
        },
        PricesStatePlatform::Sui { computation_unit_price, byte_price, rebate_ratio } => {
            lemma_le4_roundtrip(computation_unit_price);
            lemma_le4_roundtrip(byte_price);
            assert(bytes.subrange(10, 14) =~= spec_le4(computation_unit_price));
            assert(bytes.subrange(14, 18) =~= spec_le4(byte_price));
            assert(bytes[18] == rebate_ratio);
        },
        PricesStatePlatform::Uninitialized => {},
    }
    let framed = spec_prices_discriminator() + bytes;
    assert(framed.subrange(0, 8) =~= spec_prices_discriminator());
    assert(framed.skip(8) =~= bytes);
}

} // verus!

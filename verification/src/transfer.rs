use vstd::prelude::*;
use crate::checked::Int;
use crate::config::PriceOracleConfigState;
use crate::encoding::spec_be4;
use crate::encoding::push_be4;
use crate::error::CctprError;
use crate::prices::PricesState;
use crate::prices::TargetChainsConfig;
use crate::quote::OffChainQuoteData;
use crate::quote::spec_quote_valid;
use crate::quote::verify_offchain_quote;
use crate::state::ChainConfig;
use crate::state::Config;
use crate::state::FeeAdjustmentType;
use crate::utils::int_to_u64;
use crate::utils::spec_int_to_u64;

verus! {

/// Protocol-level domain of the local (Solana) chain.
pub const DOMAIN_ID_SOLANA: u8 = 5;

/// Protocol-level domain of Avalanche, the intermediate hop chain.
pub const DOMAIN_ID_AVALANCHE: u8 = 1;

/// Chain identifier of Avalanche in the price registry.
pub const CHAIN_ID_AVALANCHE: u16 = 6;

/// Gas burned by the hop router on Avalanche to forward a transfer.
pub const AVAX_HOP_GAS_COST: u32 = 281_200;

/// Extra gas burned on an EVM destination to deliver a gas drop-off.
pub const EVM_GAS_DROPOFF_GAS_COST: u32 = 22_000;

/// Billed transaction size of a redeem on an EVM destination, older
/// protocol version.
pub const EVM_V1_BILLED_SIZE: u32 = 664;

/// Gas burned by a redeem on an EVM destination, older protocol version.
pub const EVM_V1_GAS_COST: u32 = 165_000;

/// Billed transaction size of a redeem on an EVM destination, newer
/// protocol version.
pub const EVM_V2_BILLED_SIZE: u32 = 793;

/// Gas burned by a redeem on an EVM destination, newer protocol version.
pub const EVM_V2_GAS_COST: u32 = 175_000;

/// Extra bytes stored on a Sui destination to deliver a gas drop-off.
pub const SUI_GAS_DROPOFF_STORAGE_BYTES: u32 = 260;

/// Extra computation units used on a Sui destination for a gas drop-off.
pub const SUI_GAS_DROPOFF_COMPUTE_BUDGET: u32 = 1_000;

/// Extra bytes deleted (rebated) on a Sui destination for a gas drop-off.
pub const SUI_GAS_DROPOFF_STORAGE_REBATE: u32 = 260;

/// Computation units used by a redeem on a Sui destination.
pub const SUI_COMPUTE_BUDGET: u32 = 2_000;

/// Bytes stored by a redeem on a Sui destination.
pub const SUI_STORAGE_BYTES: u32 = 2_363;

/// Bytes deleted (rebated) by a redeem on a Sui destination.
pub const SUI_STORAGE_REBATE: u32 = 1_979;

/// Size of the bridge message record paid for up front, older protocol
/// version.
pub const MESSAGE_SENT_EVENT_DATA_SIZE_V1: usize = 292;

/// Size of the bridge message record paid for up front, newer protocol
/// version.
pub const MESSAGE_SENT_EVENT_DATA_SIZE_V2: usize = 428;

/// Serialized size of an [`AvaxHopMessage`].
pub const AVAX_HOP_MESSAGE_SPACE: usize = 37;

/// Address of the hop router on Avalanche, as a 32-byte universal address.
pub open spec fn spec_avalanche_router_address() -> Seq<u8> {
    seq![
        0u8, 0u8, 0u8, 0u8, 0u8, 0u8, 0u8, 0u8, 0u8, 0u8, 0u8, 0u8,
        0x01u8, 0x02u8, 0x03u8, 0x04u8, 0x05u8, 0x06u8, 0x07u8, 0x08u8, 0x09u8, 0x0au8,
        0x0bu8, 0x0cu8, 0x0du8, 0x0eu8, 0x0fu8, 0x10u8, 0x11u8, 0x12u8, 0x13u8, 0x14u8,
    ]
}

pub fn avalanche_router_address() -> (r: [u8; 32])
    ensures
        r@ == spec_avalanche_router_address(),
{
    let r: [u8; 32] = [
        0u8, 0u8, 0u8, 0u8, 0u8, 0u8, 0u8, 0u8, 0u8, 0u8, 0u8, 0u8,
        0x01u8, 0x02u8, 0x03u8, 0x04u8, 0x05u8, 0x06u8, 0x07u8, 0x08u8, 0x09u8, 0x0au8,
        0x0bu8, 0x0cu8, 0x0du8, 0x0eu8, 0x0fu8, 0x10u8, 0x11u8, 0x12u8, 0x13u8, 0x14u8,
    ];
    proof {
        assert(r@ =~= spec_avalanche_router_address());
    }
    r
}

/// Selected transfer route: the older protocol, the newer protocol to the
/// configured destination, or the newer protocol through the Avalanche
/// hop.  The route selects both the fee adjustment slot and the
/// destination routing.
#[derive(Clone, Copy, Debug, PartialEq, Eq, Structural)]
pub enum Corridor {
    V1,
    V2Direct { max_fast_fee_usdc: u64 },
    AvaxHop { max_fast_fee_usdc: u64 },
}

impl Corridor {
    /// The fee adjustment slot this corridor's execution cost is scaled by.
    pub open spec fn spec_adjustment_type(self) -> FeeAdjustmentType {
        match self {
            Corridor::V1 => FeeAdjustmentType::V1,
            Corridor::V2Direct { .. } => FeeAdjustmentType::V2Direct,
            Corridor::AvaxHop { .. } => FeeAdjustmentType::AvaxHop,
        }
    }

    pub fn adjustment_type(&self) -> (t: FeeAdjustmentType)
        ensures
            t == self.spec_adjustment_type(),
    {
        match self {
            Corridor::V1 => FeeAdjustmentType::V1,
            Corridor::V2Direct { .. } => FeeAdjustmentType::V2Direct,
            Corridor::AvaxHop { .. } => FeeAdjustmentType::AvaxHop,
        }
    }

    /// The corridor's tag byte in the signed off-chain quote payload.
    pub open spec fn spec_tag(self) -> u8 {
        match self {
            Corridor::V1 => 0,
            Corridor::V2Direct { .. } => 1,
            Corridor::AvaxHop { .. } => 2,
        }
    }

    pub fn tag(&self) -> (t: u8)
        ensures
            t == self.spec_tag(),
    {
        match self {
            Corridor::V1 => 0,
            Corridor::V2Direct { .. } => 1,
            Corridor::AvaxHop { .. } => 2,
        }
    }
}

/// How the relay fee is quoted: trusted off-chain signature, on-chain
/// computation charged in USDC, or on-chain computation charged in the
/// native token.
#[derive(Clone, Copy, Debug, PartialEq, Eq)]
pub enum RelayQuote {
    OffChain {
        expiration_time: u32,
        charge_in_usdc: bool,
        /// In native smallest units or USDC, per `charge_in_usdc`.
        relay_fee: u64,
        quoter_signature: [u8; 65],
    },
    OnChainUsdc { max_relay_fee_usdc: u64, take_fee_from_input: bool },
    OnChainGas { max_relay_fee_sol: u64 },
}

/// Permission for a relayer to front transaction costs in exchange for an
/// extra fee charged in the transferred asset.
#[derive(Clone, Copy, Debug, PartialEq, Eq, Structural)]
pub struct GaslessParams {
    pub gasless_fee_usdc: u64,
    pub expiration_time: u32,
}

/// Forwarding payload handed to the hop router: the original destination
/// domain, mint recipient and gas drop-off to relay onward.
#[derive(Clone, Copy, Debug, PartialEq, Eq)]
pub struct AvaxHopMessage {
    pub destination_domain: u8,
    pub mint_recipient: [u8; 32],
    pub gas_dropoff_micro_gas_token: u32,
}

impl AvaxHopMessage {
    /// Serialized payload: domain byte, recipient bytes, drop-off
    /// (be32); 37 bytes.
    pub open spec fn spec_bytes(self) -> Seq<u8> {
        seq![self.destination_domain] + self.mint_recipient@ + spec_be4(
            self.gas_dropoff_micro_gas_token,
        )
    }

    pub fn to_bytes(&self) -> (r: Vec<u8>)
        ensures
            r@ == self.spec_bytes(),
    {
        let mut out: Vec<u8> = Vec::new();
        out.push(self.destination_domain);
        let mut i: usize = 0;
        while i < 32
            invariant
                i <= 32,
                out@ == seq![self.destination_domain] + self.mint_recipient@.subrange(0, i as int),
            decreases 32 - i,
        {
            out.push(self.mint_recipient[i]);
            i += 1;
            proof {
                assert(out@ =~= seq![self.destination_domain] + self.mint_recipient@.subrange(
                    0,
                    i as int,
                ));
            }
        }
        proof {
            assert(self.mint_recipient@.subrange(0, 32) =~= self.mint_recipient@);
        }
        push_be4(&mut out, self.gas_dropoff_micro_gas_token);
        proof {
            assert(out@ =~= self.spec_bytes());
        }
        out
    }
}

/// Parameters of the downstream burn call the host must make, fully
/// determined by the engine.
#[derive(Clone, Debug, PartialEq, Eq)]
pub enum BurnParams {
    V1 { amount: u64, destination_domain: u32, mint_recipient: [u8; 32] },
    V2 {
        amount: u64,
        destination_domain: u32,
        mint_recipient: [u8; 32],
        /// All zeroes when any caller may redeem.
        destination_caller: [u8; 32],
        max_fee: u64,
        min_finality_threshold: u32,
        /// Present only on the hop corridor.
        hook_data: Option<Vec<u8>>,
    },
}

/// Mathematical image of [`BurnParams`].
pub enum BurnParamsView {
    V1 { amount: u64, destination_domain: u32, mint_recipient: Seq<u8> },
    V2 {
        amount: u64,
        destination_domain: u32,
        mint_recipient: Seq<u8>,
        destination_caller: Seq<u8>,
        max_fee: u64,
        min_finality_threshold: u32,
        hook_data: Option<Seq<u8>>,
    },
}

impl View for BurnParams {
    type V = BurnParamsView;

    open spec fn view(&self) -> BurnParamsView {
        match self {
            BurnParams::V1 { amount, destination_domain, mint_recipient } => BurnParamsView::V1 {
                amount: *amount,
                destination_domain: *destination_domain,
                mint_recipient: mint_recipient@,
            },
            BurnParams::V2 {
                amount,
                destination_domain,
                mint_recipient,
                destination_caller,
                max_fee,
                min_finality_threshold,
                hook_data,
            } => BurnParamsView::V2 {
                amount: *amount,
                destination_domain: *destination_domain,
                mint_recipient: mint_recipient@,
                destination_caller: destination_caller@,
                max_fee: *max_fee,
                min_finality_threshold: *min_finality_threshold,
                hook_data: match hook_data {
                    Some(bytes) => Some(bytes@),
                    None => None,
                },
            },
        }
    }
}

/// The engine's full decision: what currency to charge, how much, how
/// much principal to transfer, and the burn call to make.
#[derive(Clone, Debug, PartialEq, Eq)]
pub struct RelayOutcome {
    /// `true` charges the fee in USDC, `false` in the native token.
    pub charge_in_usdc: bool,
    /// The full fee to transfer from the payer to the fee recipient.
    pub total_fee: u64,
    /// The principal handed to the burn call.
    pub transfer_amount: u64,
    pub burn: BurnParams,
}

/// Mathematical image of [`RelayOutcome`].
pub struct RelayOutcomeView {
    pub charge_in_usdc: bool,
    pub total_fee: u64,
    pub transfer_amount: u64,
    pub burn: BurnParamsView,
}

impl View for RelayOutcome {
    type V = RelayOutcomeView;

    open spec fn view(&self) -> RelayOutcomeView {
        RelayOutcomeView {
            charge_in_usdc: self.charge_in_usdc,
            total_fee: self.total_fee,
            transfer_amount: self.transfer_amount,
            burn: self.burn@,
        }
    }
}

/// An optional borrowed price entry, as a value.
pub open spec fn spec_opt_prices(prices: Option<&PricesState>) -> Option<PricesState> {
    match prices {
        Some(p) => Some(*p),
        None => None,
    }
}

/// Execution cost of the relayed call on one priced chain, in USD
/// micro-units; a missing price entry is an invalid-arguments failure,
/// never a default of zero.
pub open spec fn spec_calc_execution_fee_micro_usd(
    prices: Option<PricesState>,
    evm_transaction_gas: u32,
    evm_transaction_size: u32,
    sui_computation_units: u32,
    sui_stored_bytes: u32,
    sui_deleted_bytes: u32,
) -> Result<u64, CctprError> {
    match prices {
        None => Err(CctprError::InvalidTransferArgs),
        Some(p) => p.spec_calc_total_fee_micro_usd(
            TargetChainsConfig {
                evm_transaction_gas,
                evm_transaction_size,
                sui_computation_units,
                sui_stored_bytes,
                sui_deleted_bytes,
            },
            0,
            0,
        ),
    }
}

pub fn calc_execution_fee_micro_usd(
    prices: Option<&PricesState>,
    evm_transaction_gas: u32,
    evm_transaction_size: u32,
    sui_computation_units: u32,
    sui_stored_bytes: u32,
    sui_deleted_bytes: u32,
) -> (r: Result<u64, CctprError>)
    requires
        prices matches Some(p) ==> p.spec_initialized(),
    ensures
        r == spec_calc_execution_fee_micro_usd(
            spec_opt_prices(prices),
            evm_transaction_gas,
            evm_transaction_size,
            sui_computation_units,
            sui_stored_bytes,
            sui_deleted_bytes,
        ),
{
    match prices {
        None => Err(CctprError::InvalidTransferArgs),
        Some(p) => p.calc_total_fee_micro_usd(
            &TargetChainsConfig {
                evm_transaction_gas,
                evm_transaction_size,
                sui_computation_units,
                sui_stored_bytes,
                sui_deleted_bytes,
            },
            0,
            0,
        ),
    }
}

/// Destination-chain execution parameters of a corridor: the newer
/// protocol's direct route bills more gas and bytes, and a non-zero gas
/// drop-off adds its own execution cost on every platform.
pub open spec fn spec_destination_execution_params(
    corridor: Corridor,
    gas_dropoff_micro_gas_token: u32,
) -> TargetChainsConfig {
    let evm_gas = if corridor matches Corridor::V2Direct { .. } {
        EVM_V2_GAS_COST
    } else {
        EVM_V1_GAS_COST
    };
    let evm_size = if corridor matches Corridor::V2Direct { .. } {
        EVM_V2_BILLED_SIZE
    } else {
        EVM_V1_BILLED_SIZE
    };
    if gas_dropoff_micro_gas_token == 0 {
        TargetChainsConfig {
            evm_transaction_gas: evm_gas,
            evm_transaction_size: evm_size,
            sui_computation_units: SUI_COMPUTE_BUDGET,
            sui_stored_bytes: SUI_STORAGE_BYTES,
            sui_deleted_bytes: SUI_STORAGE_REBATE,
        }
    } else {
        TargetChainsConfig {
            evm_transaction_gas: (evm_gas + EVM_GAS_DROPOFF_GAS_COST) as u32,
            evm_transaction_size: evm_size,
            sui_computation_units: (SUI_COMPUTE_BUDGET + SUI_GAS_DROPOFF_COMPUTE_BUDGET) as u32,
            sui_stored_bytes: (SUI_STORAGE_BYTES + SUI_GAS_DROPOFF_STORAGE_BYTES) as u32,
            sui_deleted_bytes: (SUI_STORAGE_REBATE + SUI_GAS_DROPOFF_STORAGE_REBATE) as u32,
        }
    }
}

/// The on-chain-computed relay fee in USD micro-units: the hop surcharge
/// (hop corridor only, against the hop chain's own prices), the
/// destination execution cost (skipped entirely when its adjustment's
/// relative weight is zero), both scaled by the corridor's fee
/// adjustment, plus the gas drop-off cost scaled by the drop-off
/// adjustment.
pub open spec fn spec_onchain_relay_fee_usdc(
    chain_config: ChainConfig,
    destination_prices: Option<PricesState>,
    avalanche_prices: Option<PricesState>,
    corridor: Corridor,
    gas_dropoff_micro_gas_token: u32,
) -> Result<u64, CctprError> {
    let corridor_adjustment = chain_config.spec_get_fee_adjustment(corridor.spec_adjustment_type());
    let hop_fee = if corridor matches Corridor::AvaxHop { .. } {
        spec_calc_execution_fee_micro_usd(avalanche_prices, AVAX_HOP_GAS_COST, 0, 0, 0, 0)
    } else {
        Ok(0u64)
    };
    match hop_fee {
        Err(e) => Err(e),
        Ok(hop) => {
            let dest_fee = if corridor_adjustment.relative_percent_bps != 0 {
                let params = spec_destination_execution_params(corridor, gas_dropoff_micro_gas_token);
                spec_calc_execution_fee_micro_usd(
                    destination_prices,
                    params.evm_transaction_gas,
                    params.evm_transaction_size,
                    params.sui_computation_units,
                    params.sui_stored_bytes,
                    params.sui_deleted_bytes,
                )
            } else {
                Ok(0u64)
            };
            match dest_fee {
                Err(e) => Err(e),
                Ok(dest) => match spec_int_to_u64(Int::Val(hop).spec_add_int(Int::Val(dest))) {
                    Err(e) => Err(e),
                    Ok(sum) => match corridor_adjustment.spec_apply(sum) {
                        Err(e) => Err(e),
                        Ok(total_execution_fee) => {
                            let dropoff_fee = if gas_dropoff_micro_gas_token > 0 {
                                let dropoff_adjustment = chain_config.spec_get_fee_adjustment(
                                    FeeAdjustmentType::GasDropoff,
                                );
                                let unadjusted = if dropoff_adjustment.relative_percent_bps != 0 {
                                    match destination_prices {
                                        None => Err(CctprError::InvalidTransferArgs),
                                        Some(p) => p.spec_micro_gas_token_to_micro_usd(
                                            gas_dropoff_micro_gas_token,
                                        ),
                                    }
                                } else {
                                    Ok(0u64)
                                };
                                match unadjusted {
                                    Err(e) => Err(e),
                                    Ok(unadjusted_fee) => dropoff_adjustment.spec_apply(
                                        unadjusted_fee,
                                    ),
                                }
                            } else {
                                Ok(0u64)
                            };
                            match dropoff_fee {
                                Err(e) => Err(e),
                                Ok(dropoff) => spec_int_to_u64(
                                    Int::Val(total_execution_fee).spec_add_int(Int::Val(dropoff)),
                                ),
                            }
                        },
                    },
                },
            }
        },
    }
}

fn calc_onchain_relay_fee_usdc(
    chain_config: &ChainConfig,
    destination_prices: Option<&PricesState>,
    avalanche_prices: Option<&PricesState>,
    corridor: Corridor,
    gas_dropoff_micro_gas_token: u32,
) -> (r: Result<u64, CctprError>)
    requires
        destination_prices matches Some(p) ==> p.spec_initialized(),
        avalanche_prices matches Some(p) ==> p.spec_initialized(),
    ensures
        r == spec_onchain_relay_fee_usdc(
            *chain_config,
            spec_opt_prices(destination_prices),
            spec_opt_prices(avalanche_prices),
            corridor,
            gas_dropoff_micro_gas_token,
        ),
{
    let corridor_adjustment = *chain_config.get_fee_adjustment(corridor.adjustment_type());
    let hop_fee: u64 = if matches!(corridor, Corridor::AvaxHop { .. }) {
        match calc_execution_fee_micro_usd(avalanche_prices, AVAX_HOP_GAS_COST, 0, 0, 0, 0) {
            Ok(fee) => fee,
            Err(e) => return Err(e),
        }
    } else {
        0
    };
    let dest_fee: u64 = if corridor_adjustment.relative_percent_bps != 0 {
        let evm_gas = if matches!(corridor, Corridor::V2Direct { .. }) {
            EVM_V2_GAS_COST
        } else {
            EVM_V1_GAS_COST
        };
        let evm_size = if matches!(corridor, Corridor::V2Direct { .. }) {
            EVM_V2_BILLED_SIZE
        } else {
            EVM_V1_BILLED_SIZE
        };
        let result = if gas_dropoff_micro_gas_token == 0 {
            calc_execution_fee_micro_usd(
                destination_prices,
                evm_gas,
                evm_size,
                SUI_COMPUTE_BUDGET,
                SUI_STORAGE_BYTES,
                SUI_STORAGE_REBATE,
            )
        } else {
            calc_execution_fee_micro_usd(
                destination_prices,
                evm_gas + EVM_GAS_DROPOFF_GAS_COST,
                evm_size,
                SUI_COMPUTE_BUDGET + SUI_GAS_DROPOFF_COMPUTE_BUDGET,
                SUI_STORAGE_BYTES + SUI_GAS_DROPOFF_STORAGE_BYTES,
                SUI_STORAGE_REBATE + SUI_GAS_DROPOFF_STORAGE_REBATE,
            )
        };
        match result {
            Ok(fee) => fee,
            Err(e) => return Err(e),
        }
    } else {
        0
    };
    let sum = match int_to_u64(Int::Val(hop_fee).add_int(Int::Val(dest_fee))) {
        Ok(sum) => sum,
        Err(e) => return Err(e),
    };
    let total_execution_fee = match corridor_adjustment.apply(sum) {
        Ok(fee) => fee,
        Err(e) => return Err(e),
    };
    let dropoff_fee: u64 = if gas_dropoff_micro_gas_token > 0 {
        let dropoff_adjustment = *chain_config.get_fee_adjustment(FeeAdjustmentType::GasDropoff);
        let unadjusted: u64 = if dropoff_adjustment.relative_percent_bps != 0 {
            match destination_prices {
                None => return Err(CctprError::InvalidTransferArgs),
                Some(p) => match p.micro_gas_token_to_micro_usd(gas_dropoff_micro_gas_token) {
                    Ok(fee) => fee,
                    Err(e) => return Err(e),
                },
            }
        } else {
            0
        };
        match dropoff_adjustment.apply(unadjusted) {
            Ok(fee) => fee,
            Err(e) => return Err(e),
        }
    } else {
        0
    };
    int_to_u64(Int::Val(total_execution_fee).add_int(Int::Val(dropoff_fee)))
}

/// Size of the bridge message record whose rent the payer fronts: the
/// newer protocol's record is larger, and the hop corridor appends its
/// forwarding payload.
pub fn message_sent_event_data_size(corridor: Corridor) -> (n: usize)
    ensures
        corridor matches Corridor::V1 ==> n == MESSAGE_SENT_EVENT_DATA_SIZE_V1,
        corridor matches Corridor::V2Direct { .. } ==> n == MESSAGE_SENT_EVENT_DATA_SIZE_V2,
        corridor matches Corridor::AvaxHop { .. } ==> n == MESSAGE_SENT_EVENT_DATA_SIZE_V2
            + AVAX_HOP_MESSAGE_SPACE,
{
    match corridor {
        Corridor::V1 => MESSAGE_SENT_EVENT_DATA_SIZE_V1,
        Corridor::V2Direct { .. } => MESSAGE_SENT_EVENT_DATA_SIZE_V2,
        Corridor::AvaxHop { .. } => MESSAGE_SENT_EVENT_DATA_SIZE_V2 + AVAX_HOP_MESSAGE_SPACE,
    }
}

/// The charge decision of one quote variant: the charge currency, the
/// relay fee in that currency, and the principal to transfer.  Each
/// variant is a terminal branch.
///
/// - `OnChainGas`: the computed USD fee converted to native units, less
///   the fronted rent rebate (floored at zero), capped by the caller.
/// - `OnChainUsdc`: the computed USD fee, less the rent rebate converted
///   to USD only when no gasless overlay is present, capped by the
///   caller; taking the fee from the input requires the cap to leave
///   headroom under the principal and reduces the principal by the fee.
/// - `OffChain`: no internal computation; the embedded expiration must be
///   strictly in the future and the signature must authenticate the
///   quote's fields.
pub open spec fn spec_charge_decision(
    config: Config,
    chain_config: ChainConfig,
    oracle_config: PriceOracleConfigState,
    destination_prices: Option<PricesState>,
    avalanche_prices: Option<PricesState>,
    now: u32,
    rent_rebate_sol: u64,
    input_amount: u64,
    gas_dropoff_micro_gas_token: u32,
    corridor: Corridor,
    quote: RelayQuote,
    gasless_present: bool,
) -> Result<(bool, u64, u64), CctprError> {
    match quote {
        RelayQuote::OnChainGas { max_relay_fee_sol } => {
            match spec_onchain_relay_fee_usdc(
                chain_config,
                destination_prices,
                avalanche_prices,
                corridor,
                gas_dropoff_micro_gas_token,
            ) {
                Err(e) => Err(e),
                Ok(relay_fee_usdc) => match oracle_config.spec_micro_usd_to_sol(relay_fee_usdc) {
                    Err(e) => Err(e),
                    Ok(fee_sol) => {
                        let relay_fee_sol = if fee_sol >= rent_rebate_sol {
                            (fee_sol - rent_rebate_sol) as u64
                        } else {
                            0u64
                        };
                        if relay_fee_sol <= max_relay_fee_sol {
                            Ok((false, relay_fee_sol, input_amount))
                        } else {
                            Err(CctprError::ExceedsMaxFee)
                        }
                    },
                },
            }
        },
        RelayQuote::OnChainUsdc { max_relay_fee_usdc, take_fee_from_input } => {
            let rent_rebate_usdc = if !gasless_present {
                oracle_config.spec_sol_to_micro_usd(rent_rebate_sol)
            } else {
                Ok(0u64)
            };
            match rent_rebate_usdc {
                Err(e) => Err(e),
                Ok(rebate) => match spec_onchain_relay_fee_usdc(
                    chain_config,
                    destination_prices,
                    avalanche_prices,
                    corridor,
                    gas_dropoff_micro_gas_token,
                ) {
                    Err(e) => Err(e),
                    Ok(fee) => {
                        let relay_fee_usdc = if fee >= rebate {
                            (fee - rebate) as u64
                        } else {
                            0u64
                        };
                        if relay_fee_usdc > max_relay_fee_usdc {
                            Err(CctprError::ExceedsMaxFee)
                        } else if take_fee_from_input {
                            if max_relay_fee_usdc < input_amount {
                                Ok((true, relay_fee_usdc, (input_amount - relay_fee_usdc) as u64))
                            } else {
                                Err(CctprError::InvalidTransferArgs)
                            }
                        } else {
                            Ok((true, relay_fee_usdc, input_amount))
                        }
                    },
                },
            }
        },
        RelayQuote::OffChain { expiration_time, charge_in_usdc, relay_fee, quoter_signature } => {
            if now >= expiration_time {
                Err(CctprError::QuoteExpired)
            } else {
                let quote_data = OffChainQuoteData {
                    source_domain: DOMAIN_ID_SOLANA,
                    destination_domain: chain_config.domain_id,
                    corridor: corridor.spec_tag(),
                    gas_dropoff: gas_dropoff_micro_gas_token,
                    expiration_time,
                    pay_in_usdc: charge_in_usdc,
                    relay_fee,
                };
                if spec_quote_valid(config.offchain_quoter@, quote_data, quoter_signature@) {
                    Ok((charge_in_usdc, relay_fee, input_amount))
                } else {
                    Err(CctprError::OffchainQuoterSignatureInvalid)
                }
            }
        },
    }
}

/// The downstream burn call of a corridor.  The older protocol carries no
/// caller restriction.  The newer protocol requires the caller-supplied
/// denylist-check account.  The hop corridor overrides the destination
/// domain and destination caller to the Avalanche hop router, whatever
/// the configured destination, and appends the forwarding payload.
pub open spec fn spec_burn_params(
    chain_config: ChainConfig,
    has_denylist_account: bool,
    mint_recipient: [u8; 32],
    gas_dropoff_micro_gas_token: u32,
    corridor: Corridor,
    transfer_amount: u64,
) -> Result<BurnParamsView, CctprError> {
    match corridor {
        Corridor::V1 => Ok(
            BurnParamsView::V1 {
                amount: transfer_amount,
                destination_domain: chain_config.domain_id as u32,
                mint_recipient: mint_recipient@,
            },
        ),
        Corridor::V2Direct { max_fast_fee_usdc } => if !has_denylist_account {
            Err(CctprError::InvalidTransferArgs)
        } else {
            Ok(
                BurnParamsView::V2 {
                    amount: transfer_amount,
                    destination_domain: chain_config.domain_id as u32,
                    mint_recipient: mint_recipient@,
                    destination_caller: Seq::new(32, |i: int| 0u8),
                    max_fee: max_fast_fee_usdc,
                    min_finality_threshold: 0,
                    hook_data: None,
                },
            )
        },
        Corridor::AvaxHop { max_fast_fee_usdc } => if !has_denylist_account {
            Err(CctprError::InvalidTransferArgs)
        } else {
            Ok(
                BurnParamsView::V2 {
                    amount: transfer_amount,
                    destination_domain: DOMAIN_ID_AVALANCHE as u32,
                    mint_recipient: mint_recipient@,
                    destination_caller: spec_avalanche_router_address(),
                    max_fee: max_fast_fee_usdc,
                    min_finality_threshold: 0,
                    hook_data: Some(
                        (AvaxHopMessage {
                            destination_domain: chain_config.domain_id,
                            mint_recipient,
                            gas_dropoff_micro_gas_token,
                        }).spec_bytes(),
                    ),
                },
            )
        },
    }
}

/// The full quote-and-charge decision.
///
/// The charge decision of the selected quote variant comes first; the
/// gasless overlay then requires a USDC charge and a live permission and
/// adds its fee; the routing decision comes last.  Any failure is
/// terminal: no outcome, nothing to charge, no burn call.
pub open spec fn spec_transfer_with_relay(
    config: Config,
    chain_config: ChainConfig,
    oracle_config: PriceOracleConfigState,
    destination_prices: Option<PricesState>,
    avalanche_prices: Option<PricesState>,
    has_denylist_account: bool,
    now: u32,
    rent_rebate_sol: u64,
    input_amount: u64,
    mint_recipient: [u8; 32],
    gas_dropoff_micro_gas_token: u32,
    corridor: Corridor,
    quote: RelayQuote,
    gasless: Option<GaslessParams>,
) -> Result<RelayOutcomeView, CctprError> {
    match spec_charge_decision(
        config,
        chain_config,
        oracle_config,
        destination_prices,
        avalanche_prices,
        now,
        rent_rebate_sol,
        input_amount,
        gas_dropoff_micro_gas_token,
        corridor,
        quote,
        gasless is Some,
    ) {
        Err(e) => Err(e),
        Ok((charge_in_usdc, relay_fee, transfer_amount)) => {
            let total = match gasless {
                Some(permission) => if !charge_in_usdc {
                    Err(CctprError::InvalidTransferArgs)
                } else if now >= permission.expiration_time {
                    Err(CctprError::GaslessPermissionExpired)
                } else {
                    spec_int_to_u64(
                        Int::Val(relay_fee).spec_add_int(Int::Val(permission.gasless_fee_usdc)),
                    )
                },
                None => Ok(relay_fee),
            };
            match total {
                Err(e) => Err(e),
                Ok(total_fee) => match spec_burn_params(
                    chain_config,
                    has_denylist_account,
                    mint_recipient,
                    gas_dropoff_micro_gas_token,
                    corridor,
                    transfer_amount,
                ) {
                    Err(e) => Err(e),
                    Ok(burn) => Ok(
                        RelayOutcomeView { charge_in_usdc, total_fee, transfer_amount, burn },
                    ),
                },
            }
        },
    }
}

/// The executable charge decision; see [`spec_charge_decision`].
fn charge_decision(
    config: &Config,
    chain_config: &ChainConfig,
    oracle_config: &PriceOracleConfigState,
    destination_prices: Option<&PricesState>,
    avalanche_prices: Option<&PricesState>,
    now: u32,
    rent_rebate_sol: u64,
    input_amount: u64,
    gas_dropoff_micro_gas_token: u32,
    corridor: Corridor,
    quote: &RelayQuote,
    gasless_present: bool,
) -> (r: Result<(bool, u64, u64), CctprError>)
    requires
        destination_prices matches Some(p) ==> p.spec_initialized(),
        avalanche_prices matches Some(p) ==> p.spec_initialized(),
    ensures
        r == spec_charge_decision(
            *config,
            *chain_config,
            *oracle_config,
            spec_opt_prices(destination_prices),
            spec_opt_prices(avalanche_prices),
            now,
            rent_rebate_sol,
            input_amount,
            gas_dropoff_micro_gas_token,
            corridor,
            *quote,
            gasless_present,
        ),
{
    match quote {
        RelayQuote::OnChainGas { max_relay_fee_sol } => {
            let relay_fee_usdc = match calc_onchain_relay_fee_usdc(
                chain_config,
                destination_prices,
                avalanche_prices,
                corridor,
                gas_dropoff_micro_gas_token,
            ) {
                Ok(fee) => fee,
                Err(e) => return Err(e),
            };
            let fee_sol = match oracle_config.micro_usd_to_sol(relay_fee_usdc) {
                Ok(fee) => fee,
                Err(e) => return Err(e),
            };
            let relay_fee_sol = if fee_sol >= rent_rebate_sol {
                fee_sol - rent_rebate_sol
            } else {
                0
            };
            if !(relay_fee_sol <= *max_relay_fee_sol) {
                return Err(CctprError::ExceedsMaxFee);
            }
            Ok((false, relay_fee_sol, input_amount))
        },
        RelayQuote::OnChainUsdc { max_relay_fee_usdc, take_fee_from_input } => {
            let rebate = if !gasless_present {
                match oracle_config.sol_to_micro_usd(rent_rebate_sol) {
                    Ok(rebate) => rebate,
                    Err(e) => return Err(e),
                }
            } else {
                0
            };
            let fee = match calc_onchain_relay_fee_usdc(
                chain_config,
                destination_prices,
                avalanche_prices,
                corridor,
                gas_dropoff_micro_gas_token,
            ) {
                Ok(fee) => fee,
                Err(e) => return Err(e),
            };
            let relay_fee_usdc = if fee >= rebate {
                fee - rebate
            } else {
                0
            };
            if !(relay_fee_usdc <= *max_relay_fee_usdc) {
                return Err(CctprError::ExceedsMaxFee);
            }
            let transfer_amount = if *take_fee_from_input {
                if !(*max_relay_fee_usdc < input_amount) {
                    return Err(CctprError::InvalidTransferArgs);
                }
                input_amount - relay_fee_usdc
            } else {
                input_amount
            };
            Ok((true, relay_fee_usdc, transfer_amount))
        },
        RelayQuote::OffChain { expiration_time, charge_in_usdc, relay_fee, quoter_signature } => {
            if !(now < *expiration_time) {
                return Err(CctprError::QuoteExpired);
            }
            let quote_data = OffChainQuoteData {
                source_domain: DOMAIN_ID_SOLANA,
                destination_domain: chain_config.domain_id,
                corridor: corridor.tag(),
                gas_dropoff: gas_dropoff_micro_gas_token,
                expiration_time: *expiration_time,
                pay_in_usdc: *charge_in_usdc,
                relay_fee: *relay_fee,
            };
            if !verify_offchain_quote(&config.offchain_quoter, &quote_data, quoter_signature) {
                return Err(CctprError::OffchainQuoterSignatureInvalid);
            }
            Ok((*charge_in_usdc, *relay_fee, input_amount))
        },
    }
}

/// The executable routing decision; see [`spec_burn_params`].
fn burn_params(
    chain_config: &ChainConfig,
    has_denylist_account: bool,
    mint_recipient: [u8; 32],
    gas_dropoff_micro_gas_token: u32,
    corridor: Corridor,
    transfer_amount: u64,
) -> (r: Result<BurnParams, CctprError>)
    ensures
        ({
            let decision = spec_burn_params(
                *chain_config,
                has_denylist_account,
                mint_recipient,
                gas_dropoff_micro_gas_token,
                corridor,
                transfer_amount,
            );
            match r {
                Ok(burn) => decision == Ok::<BurnParamsView, CctprError>(burn@),
                Err(e) => decision == Err::<BurnParamsView, CctprError>(e),
            }
        }),
{
    match corridor {
        Corridor::V1 => Ok(
            BurnParams::V1 {
                amount: transfer_amount,
                destination_domain: chain_config.domain_id as u32,
                mint_recipient,
            },
        ),
        Corridor::V2Direct { max_fast_fee_usdc } => {
            if !has_denylist_account {
                return Err(CctprError::InvalidTransferArgs);
            }
            let zero_caller: [u8; 32] = [
                0u8, 0u8, 0u8, 0u8, 0u8, 0u8, 0u8, 0u8, 0u8, 0u8, 0u8, 0u8, 0u8, 0u8, 0u8, 0u8,
                0u8, 0u8, 0u8, 0u8, 0u8, 0u8, 0u8, 0u8, 0u8, 0u8, 0u8, 0u8, 0u8, 0u8, 0u8, 0u8,
            ];
            proof {
                assert(zero_caller@ =~= Seq::new(32, |i: int| 0u8));
            }
            Ok(
                BurnParams::V2 {
                    amount: transfer_amount,
                    destination_domain: chain_config.domain_id as u32,
                    mint_recipient,
                    destination_caller: zero_caller,
                    max_fee: max_fast_fee_usdc,
                    min_finality_threshold: 0,
                    hook_data: None,
                },
            )
        },
        Corridor::AvaxHop { max_fast_fee_usdc } => {
            if !has_denylist_account {
                return Err(CctprError::InvalidTransferArgs);
            }
            let hop_message = AvaxHopMessage {
                destination_domain: chain_config.domain_id,
                mint_recipient,
                gas_dropoff_micro_gas_token,
            };
            Ok(
                BurnParams::V2 {
                    amount: transfer_amount,
                    destination_domain: DOMAIN_ID_AVALANCHE as u32,
                    mint_recipient,
                    destination_caller: avalanche_router_address(),
                    max_fee: max_fast_fee_usdc,
                    min_finality_threshold: 0,
                    hook_data: Some(hop_message.to_bytes()),
                },
            )
        },
    }
}

/// Decides the full relay: fee, charge currency, principal, and burn
/// call.  A pure function of its inputs — identical inputs always yield
/// the identical decision.  The host performs the charge and the burn
/// call only on `Ok`; every `Err` leaves nothing to execute.
pub fn transfer_with_relay(
    config: &Config,
    chain_config: &ChainConfig,
    oracle_config: &PriceOracleConfigState,
    destination_prices: Option<&PricesState>,
    avalanche_prices: Option<&PricesState>,
    has_denylist_account: bool,
    now: u32,
    rent_rebate_sol: u64,
    input_amount: u64,
    mint_recipient: [u8; 32],
    gas_dropoff_micro_gas_token: u32,
    corridor: Corridor,
    quote: RelayQuote,
    gasless: Option<GaslessParams>,
) -> (r: Result<RelayOutcome, CctprError>)
    requires
        destination_prices matches Some(p) ==> p.spec_initialized(),
        avalanche_prices matches Some(p) ==> p.spec_initialized(),
    ensures
        ({
            let decision = spec_transfer_with_relay(
                *config,
                *chain_config,
                *oracle_config,
                spec_opt_prices(destination_prices),
                spec_opt_prices(avalanche_prices),
                has_denylist_account,
                now,
                rent_rebate_sol,
                input_amount,
                mint_recipient,
                gas_dropoff_micro_gas_token,
                corridor,
                quote,
                gasless,
            );
            match r {
                Ok(outcome) => decision == Ok::<RelayOutcomeView, CctprError>(outcome@),
                Err(e) => decision == Err::<RelayOutcomeView, CctprError>(e),
            }
        }),
{
    let (charge_in_usdc, relay_fee, transfer_amount) = match charge_decision(
        config,
        chain_config,
        oracle_config,
        destination_prices,
        avalanche_prices,
        now,
        rent_rebate_sol,
        input_amount,
        gas_dropoff_micro_gas_token,
        corridor,
        &quote,
        gasless.is_some(),
    ) {
        Ok(decision) => decision,
        Err(e) => return Err(e),
    };
    let total_fee = match gasless {
        Some(permission) => {
            if !charge_in_usdc {
                return Err(CctprError::InvalidTransferArgs);
            }
            if !(now < permission.expiration_time) {
                return Err(CctprError::GaslessPermissionExpired);
            }
            match int_to_u64(Int::Val(relay_fee).add_int(Int::Val(permission.gasless_fee_usdc))) {
                Ok(total) => total,
                Err(e) => return Err(e),
            }
        },
        None => relay_fee,
    };
    let burn = match burn_params(
        chain_config,
        has_denylist_account,
        mint_recipient,
        gas_dropoff_micro_gas_token,
        corridor,
        transfer_amount,
    ) {
        Ok(burn) => burn,
        Err(e) => return Err(e),
    };
    Ok(RelayOutcome { charge_in_usdc, total_fee, transfer_amount, burn })
}

/// The hop corridor always overrides the destination domain and the
/// destination caller to the Avalanche hop router, whatever domain the
/// destination chain is configured with; the configured domain travels
/// only inside the forwarding payload.
pub proof fn lemma_hop_corridor_overrides_destination(
    config: Config,
    chain_config: ChainConfig,
    oracle_config: PriceOracleConfigState,
    destination_prices: Option<PricesState>,
    avalanche_prices: Option<PricesState>,
    has_denylist_account: bool,
    now: u32,
    rent_rebate_sol: u64,
    input_amount: u64,
    mint_recipient: [u8; 32],
    gas_dropoff_micro_gas_token: u32,
    max_fast_fee_usdc: u64,
    quote: RelayQuote,
    gasless: Option<GaslessParams>,
)
    ensures
        spec_transfer_with_relay(
            config,
            chain_config,
            oracle_config,
            destination_prices,
            avalanche_prices,
            has_denylist_account,
            now,
            rent_rebate_sol,
            input_amount,
            mint_recipient,
            gas_dropoff_micro_gas_token,
            Corridor::AvaxHop { max_fast_fee_usdc },
            quote,
            gasless,
        ) matches Ok(outcome) ==> {
            &&& outcome.burn matches BurnParamsView::V2 { .. }
            &&& outcome.burn->V2_destination_domain == DOMAIN_ID_AVALANCHE as u32
            &&& outcome.burn->V2_destination_caller == spec_avalanche_router_address()
            &&& outcome.burn->V2_hook_data == Some(
                (AvaxHopMessage {
                    destination_domain: chain_config.domain_id,
                    mint_recipient,
                    gas_dropoff_micro_gas_token,
                }).spec_bytes(),
            )
        },
{
}

/// Taking the relay fee from the input requires the fee cap to leave
/// headroom below the principal: with `take_fee_from_input` set and
/// `max_relay_fee_usdc >= input_amount` the engine always fails, so
/// nothing is charged and no burn call is made; whenever the fee pipeline
/// itself succeeds and its result stays within the cap, that failure is
/// precisely `InvalidTransferArgs`.
pub proof fn lemma_take_fee_from_input_requires_headroom(
    config: Config,
    chain_config: ChainConfig,
    oracle_config: PriceOracleConfigState,
    destination_prices: Option<PricesState>,
    avalanche_prices: Option<PricesState>,
    has_denylist_account: bool,
    now: u32,
    rent_rebate_sol: u64,
    input_amount: u64,
    mint_recipient: [u8; 32],
    gas_dropoff_micro_gas_token: u32,
    corridor: Corridor,
    max_relay_fee_usdc: u64,
    gasless: Option<GaslessParams>,
)
    requires
        max_relay_fee_usdc >= input_amount,
    ensures
        spec_transfer_with_relay(
            config,
            chain_config,
            oracle_config,
            destination_prices,
            avalanche_prices,
            has_denylist_account,
            now,
            rent_rebate_sol,
            input_amount,
            mint_recipient,
            gas_dropoff_micro_gas_token,
            corridor,
            RelayQuote::OnChainUsdc { max_relay_fee_usdc, take_fee_from_input: true },
            gasless,
        ) is Err,
        ({
            let rebate = if !(gasless is Some) {
                oracle_config.spec_sol_to_micro_usd(rent_rebate_sol)
            } else {
                Ok(0u64)
            };
            let fee = spec_onchain_relay_fee_usdc(
                chain_config,
                destination_prices,
                avalanche_prices,
                corridor,
                gas_dropoff_micro_gas_token,
            );
            &&& rebate matches Ok(rebate_usdc)
            &&& fee matches Ok(fee_usdc)
            &&& (if fee_usdc >= rebate_usdc {
                (fee_usdc - rebate_usdc) as u64
            } else {
                0u64
            }) <= max_relay_fee_usdc
        }) ==> spec_transfer_with_relay(
            config,
            chain_config,
            oracle_config,
            destination_prices,
            avalanche_prices,
            has_denylist_account,
            now,
            rent_rebate_sol,
            input_amount,
            mint_recipient,
            gas_dropoff_micro_gas_token,
            corridor,
            RelayQuote::OnChainUsdc { max_relay_fee_usdc, take_fee_from_input: true },
            gasless,
        ) == Err::<RelayOutcomeView, CctprError>(CctprError::InvalidTransferArgs),
{
}

} // verus!

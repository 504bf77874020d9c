use cctpr::config::PriceOracleConfigState;
use cctpr::error::CctprError;
use cctpr::prices::PricesState;
use cctpr::prices::PricesStatePlatform;
use cctpr::quote::OffChainQuoteData;
use cctpr::state::ChainConfig;
use cctpr::state::Config;
use cctpr::state::FeeAdjustment;
use cctpr::state::FeeAdjustmentType;
use cctpr::transfer::avalanche_router_address;
use cctpr::transfer::message_sent_event_data_size;
use cctpr::transfer::transfer_with_relay;
use cctpr::transfer::BurnParams;
use cctpr::transfer::Corridor;
use cctpr::transfer::GaslessParams;
use cctpr::transfer::RelayQuote;
use sha3::Digest;

const MINT_RECIPIENT: [u8; 32] = [9u8; 32];
const NOW: u32 = 1_000_000;

fn config() -> Config {
    Config {
        owner: [1u8; 32],
        pending_owner: [0u8; 32],
        fee_adjuster: [2u8; 32],
        fee_recipient: [3u8; 32],
        offchain_quoter: [0u8; 20],
        rent_bump: 255,
    }
}

/// Destination chain 2 (EVM) under domain 7, with all four adjustment
/// slots at 100% and no absolute addend.
fn chain_config() -> ChainConfig {
    let mut chain = ChainConfig::new(7, 2);
    let par = FeeAdjustment { absolute_usd: 0, relative_percent_bps: 10_000 };
    chain.set_fee_adjustment(FeeAdjustmentType::V1, par);
    chain.set_fee_adjustment(FeeAdjustmentType::V2Direct, par);
    chain.set_fee_adjustment(FeeAdjustmentType::AvaxHop, par);
    chain.set_fee_adjustment(FeeAdjustmentType::GasDropoff, par);
    chain
}

fn eth_prices() -> PricesState {
    PricesState {
        chain_id: 2,
        gas_token_price: 2_000_000,
        prices: PricesStatePlatform::Evm { gas_price: 30, price_per_tx_byte: 16 },
    }
}

fn avax_prices() -> PricesState {
    PricesState {
        chain_id: 6,
        gas_token_price: 2_000_000,
        prices: PricesStatePlatform::Evm { gas_price: 30, price_per_tx_byte: 16 },
    }
}

fn oracle() -> PriceOracleConfigState {
    PriceOracleConfigState { owner: [0u8; 32], pending_owner: None, sol_price: 20_000_000 }
}

#[test]
fn onchain_gas_quote_charges_native_fee() {
    // V1 execution: (165_000 * 30 + 664 * 16) Mwei = 4_960_624 Mwei;
    // in micro-USD: 4_960_624 * 2_000_000 / 10^12 = 9; in lamports:
    // 9 * 10^9 / 20_000_000 = 450.
    let eth = eth_prices();
    let outcome = transfer_with_relay(
        &config(),
        &chain_config(),
        &oracle(),
        Some(&eth),
        None,
        false,
        NOW,
        0,
        1_000,
        MINT_RECIPIENT,
        0,
        Corridor::V1,
        RelayQuote::OnChainGas { max_relay_fee_sol: 1_000 },
        None,
    )
    .unwrap();
    assert!(!outcome.charge_in_usdc);
    assert_eq!(outcome.total_fee, 450);
    assert_eq!(outcome.transfer_amount, 1_000);
    assert_eq!(
        outcome.burn,
        BurnParams::V1 { amount: 1_000, destination_domain: 7, mint_recipient: MINT_RECIPIENT }
    );
}

#[test]
fn onchain_gas_quote_respects_cap_and_rent_rebate() {
    let eth = eth_prices();
    let capped = transfer_with_relay(
        &config(),
        &chain_config(),
        &oracle(),
        Some(&eth),
        None,
        false,
        NOW,
        0,
        1_000,
        MINT_RECIPIENT,
        0,
        Corridor::V1,
        RelayQuote::OnChainGas { max_relay_fee_sol: 449 },
        None,
    );
    assert_eq!(capped.unwrap_err(), CctprError::ExceedsMaxFee);

    // A rent rebate above the fee floors the native fee at zero.
    let rebated = transfer_with_relay(
        &config(),
        &chain_config(),
        &oracle(),
        Some(&eth),
        None,
        false,
        NOW,
        500,
        1_000,
        MINT_RECIPIENT,
        0,
        Corridor::V1,
        RelayQuote::OnChainGas { max_relay_fee_sol: 0 },
        None,
    )
    .unwrap();
    assert_eq!(rebated.total_fee, 0);
}

#[test]
fn onchain_usdc_quote_can_take_fee_from_input() {
    let eth = eth_prices();
    let outcome = transfer_with_relay(
        &config(),
        &chain_config(),
        &oracle(),
        Some(&eth),
        None,
        false,
        NOW,
        0,
        1_000,
        MINT_RECIPIENT,
        0,
        Corridor::V1,
        RelayQuote::OnChainUsdc { max_relay_fee_usdc: 100, take_fee_from_input: true },
        None,
    )
    .unwrap();
    assert!(outcome.charge_in_usdc);
    assert_eq!(outcome.total_fee, 9);
    assert_eq!(outcome.transfer_amount, 991);
}

#[test]
fn take_fee_from_input_needs_headroom_under_the_principal() {
    // The cap equals the principal, so taking the fee from the input is
    // inconsistent and nothing may be charged.
    let eth = eth_prices();
    let result = transfer_with_relay(
        &config(),
        &chain_config(),
        &oracle(),
        Some(&eth),
        None,
        false,
        NOW,
        0,
        1_000,
        MINT_RECIPIENT,
        0,
        Corridor::V1,
        RelayQuote::OnChainUsdc { max_relay_fee_usdc: 1_000, take_fee_from_input: true },
        None,
    );
    assert_eq!(result.unwrap_err(), CctprError::InvalidTransferArgs);
}

#[test]
fn onchain_usdc_quote_subtracts_rent_rebate_only_without_gasless() {
    // 400 lamports convert to 400 * 20_000_000 / 10^9 = 8 micro-USD.
    let eth = eth_prices();
    let without_gasless = transfer_with_relay(
        &config(),
        &chain_config(),
        &oracle(),
        Some(&eth),
        None,
        false,
        NOW,
        400,
        1_000,
        MINT_RECIPIENT,
        0,
        Corridor::V1,
        RelayQuote::OnChainUsdc { max_relay_fee_usdc: 100, take_fee_from_input: false },
        None,
    )
    .unwrap();
    assert_eq!(without_gasless.total_fee, 1);
    assert_eq!(without_gasless.transfer_amount, 1_000);

    // With a gasless overlay the rent is covered separately: the rebate is
    // not subtracted and the overlay's own fee is added on top.
    let with_gasless = transfer_with_relay(
        &config(),
        &chain_config(),
        &oracle(),
        Some(&eth),
        None,
        false,
        NOW,
        400,
        1_000,
        MINT_RECIPIENT,
        0,
        Corridor::V1,
        RelayQuote::OnChainUsdc { max_relay_fee_usdc: 100, take_fee_from_input: false },
        Some(GaslessParams { gasless_fee_usdc: 5, expiration_time: NOW + 10 }),
    )
    .unwrap();
    assert_eq!(with_gasless.total_fee, 14);
}

#[test]
fn gasless_overlay_requires_usdc_charge_and_live_permission() {
    let eth = eth_prices();
    let on_gas = transfer_with_relay(
        &config(),
        &chain_config(),
        &oracle(),
        Some(&eth),
        None,
        false,
        NOW,
        0,
        1_000,
        MINT_RECIPIENT,
        0,
        Corridor::V1,
        RelayQuote::OnChainGas { max_relay_fee_sol: 1_000 },
        Some(GaslessParams { gasless_fee_usdc: 5, expiration_time: NOW + 10 }),
    );
    assert_eq!(on_gas.unwrap_err(), CctprError::InvalidTransferArgs);

    let expired = transfer_with_relay(
        &config(),
        &chain_config(),
        &oracle(),
        Some(&eth),
        None,
        false,
        NOW,
        0,
        1_000,
        MINT_RECIPIENT,
        0,
        Corridor::V1,
        RelayQuote::OnChainUsdc { max_relay_fee_usdc: 100, take_fee_from_input: false },
        Some(GaslessParams { gasless_fee_usdc: 5, expiration_time: NOW }),
    );
    assert_eq!(expired.unwrap_err(), CctprError::GaslessPermissionExpired);
}

#[test]
fn missing_destination_prices_fail_unless_adjustment_skips_them() {
    let strict = transfer_with_relay(
        &config(),
        &chain_config(),
        &oracle(),
        None,
        None,
        false,
        NOW,
        0,
        1_000,
        MINT_RECIPIENT,
        0,
        Corridor::V1,
        RelayQuote::OnChainUsdc { max_relay_fee_usdc: 100, take_fee_from_input: false },
        None,
    );
    assert_eq!(strict.unwrap_err(), CctprError::InvalidTransferArgs);

    // A zero relative weight skips the destination leg and its price
    // lookup entirely; only the absolute addend remains.
    let mut skipping_chain = ChainConfig::new(7, 2);
    skipping_chain.set_fee_adjustment(
        FeeAdjustmentType::V1,
        FeeAdjustment { absolute_usd: 3, relative_percent_bps: 0 },
    );
    let skipped = transfer_with_relay(
        &config(),
        &skipping_chain,
        &oracle(),
        None,
        None,
        false,
        NOW,
        0,
        1_000,
        MINT_RECIPIENT,
        0,
        Corridor::V1,
        RelayQuote::OnChainUsdc { max_relay_fee_usdc: 100, take_fee_from_input: false },
        None,
    )
    .unwrap();
    assert_eq!(skipped.total_fee, 3);
}

#[test]
fn gas_dropoff_adds_its_own_adjusted_cost() {
    // Drop-off execution: (187_000 * 30 + 664 * 16) Mwei -> 11 micro-USD;
    // drop-off amount: 500_000 micro-token * 2_000_000 / 10^6 = 1_000_000.
    let eth = eth_prices();
    let outcome = transfer_with_relay(
        &config(),
        &chain_config(),
        &oracle(),
        Some(&eth),
        None,
        false,
        NOW,
        0,
        1_000,
        MINT_RECIPIENT,
        500_000,
        Corridor::V1,
        RelayQuote::OnChainUsdc { max_relay_fee_usdc: 2_000_000, take_fee_from_input: false },
        None,
    )
    .unwrap();
    assert_eq!(outcome.total_fee, 1_000_011);
}

#[test]
fn v2_direct_corridor_requires_denylist_account() {
    let eth = eth_prices();
    let missing = transfer_with_relay(
        &config(),
        &chain_config(),
        &oracle(),
        Some(&eth),
        None,
        false,
        NOW,
        0,
        1_000,
        MINT_RECIPIENT,
        0,
        Corridor::V2Direct { max_fast_fee_usdc: 77 },
        RelayQuote::OnChainUsdc { max_relay_fee_usdc: 100, take_fee_from_input: false },
        None,
    );
    assert_eq!(missing.unwrap_err(), CctprError::InvalidTransferArgs);

    // V2 execution: (175_000 * 30 + 793 * 16) Mwei -> 10 micro-USD.
    let outcome = transfer_with_relay(
        &config(),
        &chain_config(),
        &oracle(),
        Some(&eth),
        None,
        true,
        NOW,
        0,
        1_000,
        MINT_RECIPIENT,
        0,
        Corridor::V2Direct { max_fast_fee_usdc: 77 },
        RelayQuote::OnChainUsdc { max_relay_fee_usdc: 100, take_fee_from_input: false },
        None,
    )
    .unwrap();
    assert_eq!(outcome.total_fee, 10);
    assert_eq!(
        outcome.burn,
        BurnParams::V2 {
            amount: 1_000,
            destination_domain: 7,
            mint_recipient: MINT_RECIPIENT,
            destination_caller: [0u8; 32],
            max_fee: 77,
            min_finality_threshold: 0,
            hook_data: None,
        }
    );
}

#[test]
fn hop_corridor_overrides_destination_and_builds_hook() {
    // Hop surcharge on Avalanche: 281_200 * 30 Mwei -> 16 micro-USD; plus
    // the V1 destination execution of 9 micro-USD.
    let eth = eth_prices();
    let avax = avax_prices();
    let outcome = transfer_with_relay(
        &config(),
        &chain_config(),
        &oracle(),
        Some(&eth),
        Some(&avax),
        true,
        NOW,
        0,
        1_000,
        MINT_RECIPIENT,
        0,
        Corridor::AvaxHop { max_fast_fee_usdc: 88 },
        RelayQuote::OnChainUsdc { max_relay_fee_usdc: 100, take_fee_from_input: false },
        None,
    )
    .unwrap();
    assert_eq!(outcome.total_fee, 25);

    let mut expected_hook = vec![7u8]; // the configured destination domain
    expected_hook.extend_from_slice(&MINT_RECIPIENT);
    expected_hook.extend_from_slice(&[0, 0, 0, 0]); // gas drop-off, big-endian
    assert_eq!(
        outcome.burn,
        BurnParams::V2 {
            amount: 1_000,
            destination_domain: 1, // overridden to Avalanche
            mint_recipient: MINT_RECIPIENT,
            destination_caller: avalanche_router_address(),
            max_fee: 88,
            min_finality_threshold: 0,
            hook_data: Some(expected_hook),
        }
    );
}

#[test]
fn hop_corridor_requires_hop_chain_prices() {
    let eth = eth_prices();
    let result = transfer_with_relay(
        &config(),
        &chain_config(),
        &oracle(),
        Some(&eth),
        None,
        true,
        NOW,
        0,
        1_000,
        MINT_RECIPIENT,
        0,
        Corridor::AvaxHop { max_fast_fee_usdc: 88 },
        RelayQuote::OnChainUsdc { max_relay_fee_usdc: 100, take_fee_from_input: false },
        None,
    );
    assert_eq!(result.unwrap_err(), CctprError::InvalidTransferArgs);
}

fn keccak(data: &[u8]) -> [u8; 32] {
    let mut out = [0u8; 32];
    out.copy_from_slice(sha3::Keccak256::digest(data).as_slice());
    out
}

fn offchain_fixture() -> (Config, RelayQuote) {
    let secret = libsecp256k1::SecretKey::parse(&[1u8; 32]).unwrap();
    let public_key = libsecp256k1::PublicKey::from_secret_key(&secret);
    let key_digest = keccak(&public_key.serialize()[1..]);
    let mut cfg = config();
    cfg.offchain_quoter.copy_from_slice(&key_digest[12..]);

    let quote_data = OffChainQuoteData {
        source_domain: 5,
        destination_domain: 7, // must match the chain config's domain
        corridor: 0,           // the V1 corridor's tag
        gas_dropoff: 0,
        expiration_time: NOW + 60,
        pay_in_usdc: true,
        relay_fee: 4_321,
    };
    let digest = keccak(&quote_data.to_bytes());
    let (signature, recovery_id) = libsecp256k1::sign(
        &libsecp256k1::Message::parse(&digest),
        &secret,
    );
    let mut quoter_signature = [0u8; 65];
    quoter_signature[..64].copy_from_slice(&signature.serialize());
    quoter_signature[64] = recovery_id.serialize() + 27;

    let quote = RelayQuote::OffChain {
        expiration_time: NOW + 60,
        charge_in_usdc: true,
        relay_fee: 4_321,
        quoter_signature,
    };
    (cfg, quote)
}

#[test]
fn offchain_quote_is_trusted_as_signed() {
    let (cfg, quote) = offchain_fixture();
    // No price accounts at all: the off-chain path computes nothing.
    let outcome = transfer_with_relay(
        &cfg,
        &chain_config(),
        &oracle(),
        None,
        None,
        false,
        NOW,
        0,
        1_000,
        MINT_RECIPIENT,
        0,
        Corridor::V1,
        quote,
        None,
    )
    .unwrap();
    assert!(outcome.charge_in_usdc);
    assert_eq!(outcome.total_fee, 4_321);
    assert_eq!(outcome.transfer_amount, 1_000);
}

#[test]
fn offchain_quote_expiry_is_strict_and_checked_first() {
    let (cfg, quote) = offchain_fixture();
    // At exactly the expiration time the quote is already expired, even
    // though the signature is valid.
    let result = transfer_with_relay(
        &cfg,
        &chain_config(),
        &oracle(),
        None,
        None,
        false,
        NOW + 60,
        0,
        1_000,
        MINT_RECIPIENT,
        0,
        Corridor::V1,
        quote,
        None,
    );
    assert_eq!(result.unwrap_err(), CctprError::QuoteExpired);
}

#[test]
fn offchain_quote_signature_must_cover_the_request() {
    let (cfg, quote) = offchain_fixture();
    // The same signed quote presented for another corridor fails: the
    // corridor tag is part of the signed payload.
    let result = transfer_with_relay(
        &cfg,
        &chain_config(),
        &oracle(),
        None,
        None,
        true,
        NOW,
        0,
        1_000,
        MINT_RECIPIENT,
        0,
        Corridor::V2Direct { max_fast_fee_usdc: 1 },
        quote,
        None,
    );
    assert_eq!(result.unwrap_err(), CctprError::OffchainQuoterSignatureInvalid);

    // A tampered relay fee fails as well.
    let tampered = match quote {
        RelayQuote::OffChain { expiration_time, charge_in_usdc, quoter_signature, .. } =>
            RelayQuote::OffChain {
                expiration_time,
                charge_in_usdc,
                relay_fee: 9_999,
                quoter_signature,
            },
        other => other,
    };
    let result = transfer_with_relay(
        &cfg,
        &chain_config(),
        &oracle(),
        None,
        None,
        false,
        NOW,
        0,
        1_000,
        MINT_RECIPIENT,
        0,
        Corridor::V1,
        tampered,
        None,
    );
    assert_eq!(result.unwrap_err(), CctprError::OffchainQuoterSignatureInvalid);
}

#[test]
fn message_record_sizes_follow_the_corridor() {
    assert_eq!(message_sent_event_data_size(Corridor::V1), 292);
    assert_eq!(message_sent_event_data_size(Corridor::V2Direct { max_fast_fee_usdc: 0 }), 428);
    assert_eq!(message_sent_event_data_size(Corridor::AvaxHop { max_fast_fee_usdc: 0 }), 465);
}

use cctpr::checked::Int;
use cctpr::config::PriceOracleConfigState;
use cctpr::error::CctprError;
use cctpr::prices::PricesState;
use cctpr::prices::PricesStatePlatform;
use cctpr::prices::TargetChainsConfig;
use cctpr::state::FeeAdjustment;
use cctpr::utils::ETHEREUM_CHAIN_ID;
use cctpr::utils::SUI_CHAIN_ID;
use cctpr::utils::int_to_u64;

fn oracle(sol_price: u64) -> PriceOracleConfigState {
    PriceOracleConfigState { owner: [0u8; 32], pending_owner: None, sol_price }
}

#[test]
fn total_fee_calculation_for_evm_works() {
    let prices = PricesState {
        chain_id: ETHEREUM_CHAIN_ID,
        gas_token_price: 2_000_000, // 2 USD per ETH
        prices: PricesStatePlatform::Evm {
            gas_price: 30,         // 30 Mwei/gas
            price_per_tx_byte: 16, // 16 Mwei/byte
        },
    };

    let oracle_config = oracle(20_000_000); // 20 USD per SOL

    let config = TargetChainsConfig {
        evm_transaction_gas: 100_000, // 100k gas
        evm_transaction_size: 1_000,  // 1kb
        sui_computation_units: 0,
        sui_stored_bytes: 0,
        sui_deleted_bytes: 0,
    };

    let flat_fee_micro_token = 1_000; // 0.001 ETH
    let flat_fee_micro_usd = 500_000; // 0.5 USD

    let fee = prices
        .calculate_total_fee(
            &oracle_config,
            &config,
            flat_fee_micro_token,
            flat_fee_micro_usd,
        )
        .unwrap();

    assert_eq!(fee, 25_100_300);
}

#[test]
fn total_fee_calculation_for_sui_works() {
    let prices = PricesState {
        chain_id: SUI_CHAIN_ID,
        gas_token_price: 500_000, // 0.5 USD per SUI
        prices: PricesStatePlatform::Sui {
            computation_unit_price: 100, // 100 MIST per CU
            byte_price: 100,             // 100 MIST per byte
            rebate_ratio: 95,            // 95% storage rebate
        },
    };

    let oracle_config = oracle(20_000_000); // 20 USD per SOL

    let config = TargetChainsConfig {
        evm_transaction_gas: 0,
        evm_transaction_size: 0,
        sui_computation_units: 1_000, // 1k computation units
        sui_stored_bytes: 1_000,      // 1kb storage
        sui_deleted_bytes: 100,       // 100 bytes deleted
    };

    let flat_fee_micro_token = 1_000; // 0.001 SUI
    let flat_fee_micro_usd = 500_000; // 0.5 USD

    let fee = prices
        .calculate_total_fee(
            &oracle_config,
            &config,
            flat_fee_micro_token,
            flat_fee_micro_usd,
        )
        .unwrap();

    assert_eq!(fee, 25_029_750);
}

#[test]
fn evm_fee_micro_usd_matches_worked_example() {
    // 100_000 * 30 + 1_000 * 16 + 1_000 * 1_000_000 = 1_003_016_000 Mwei;
    // * 2_000_000 / 1_000_000_000_000 = 2_006 micro-USD; + 500_000.
    let prices = PricesState {
        chain_id: ETHEREUM_CHAIN_ID,
        gas_token_price: 2_000_000,
        prices: PricesStatePlatform::Evm { gas_price: 30, price_per_tx_byte: 16 },
    };
    let config = TargetChainsConfig {
        evm_transaction_gas: 100_000,
        evm_transaction_size: 1_000,
        sui_computation_units: 0,
        sui_stored_bytes: 0,
        sui_deleted_bytes: 0,
    };
    assert_eq!(prices.calc_total_fee_micro_usd(&config, 1_000, 500_000), Ok(502_006));
}

#[test]
fn sui_fee_micro_usd_matches_formula() {
    // bytes after rebate: 1_000 - 100 * 95 / 100 = 905; MIST total:
    // 1_000 * 100 + 905 * 100 + 1_000 * 1_000 = 1_190_500; micro-USD:
    // 1_190_500 * 500_000 / 1_000_000_000 = 595; + 500_000.
    let prices = PricesState {
        chain_id: SUI_CHAIN_ID,
        gas_token_price: 500_000,
        prices: PricesStatePlatform::Sui {
            computation_unit_price: 100,
            byte_price: 100,
            rebate_ratio: 95,
        },
    };
    let config = TargetChainsConfig {
        evm_transaction_gas: 0,
        evm_transaction_size: 0,
        sui_computation_units: 1_000,
        sui_stored_bytes: 1_000,
        sui_deleted_bytes: 100,
    };
    assert_eq!(prices.calc_total_fee_micro_usd(&config, 1_000, 500_000), Ok(500_595));
}

#[test]
fn sui_minimum_transaction_cost_floor_applies() {
    // All-zero usage floors at 2_000 MIST: 2_000 * 500_000 / 1_000_000_000 = 1.
    let prices = PricesState {
        chain_id: SUI_CHAIN_ID,
        gas_token_price: 500_000,
        prices: PricesStatePlatform::Sui {
            computation_unit_price: 100,
            byte_price: 100,
            rebate_ratio: 95,
        },
    };
    let config = TargetChainsConfig {
        evm_transaction_gas: 0,
        evm_transaction_size: 0,
        sui_computation_units: 0,
        sui_stored_bytes: 0,
        sui_deleted_bytes: 0,
    };
    assert_eq!(prices.calc_total_fee_micro_usd(&config, 0, 0), Ok(1));
}

#[test]
fn sui_rebate_larger_than_storage_floors_at_zero() {
    let prices = PricesState {
        chain_id: SUI_CHAIN_ID,
        gas_token_price: 1_000_000_000,
        prices: PricesStatePlatform::Sui {
            computation_unit_price: 0,
            byte_price: 1_000,
            rebate_ratio: 100,
        },
    };
    // 10 stored, 100 deleted at 100% rebate: byte term is zero, floor 2_000
    // MIST applies: 2_000 * 1_000_000_000 / 1_000_000_000 = 2_000.
    let config = TargetChainsConfig {
        evm_transaction_gas: 0,
        evm_transaction_size: 0,
        sui_computation_units: 0,
        sui_stored_bytes: 10,
        sui_deleted_bytes: 100,
    };
    assert_eq!(prices.calc_total_fee_micro_usd(&config, 0, 0), Ok(2_000));
}

#[test]
fn sui_conversion_multiplies_in_a_wide_intermediate() {
    let prices = PricesState {
        chain_id: SUI_CHAIN_ID,
        gas_token_price: u64::MAX,
        prices: PricesStatePlatform::Sui {
            computation_unit_price: 0,
            byte_price: 0,
            rebate_ratio: 0,
        },
    };
    let config = TargetChainsConfig {
        evm_transaction_gas: 0,
        evm_transaction_size: 0,
        sui_computation_units: 0,
        sui_stored_bytes: 0,
        sui_deleted_bytes: 0,
    };
    // The floored 2_000 MIST times u64::MAX exceeds u64 only as an
    // intermediate; the quotient 2_000 * u64::MAX / 10^9 fits.
    assert_eq!(
        prices.calc_total_fee_micro_usd(&config, 0, 0),
        Ok(36_893_488_147_419)
    );
}

#[test]
fn sui_conversion_overflow_is_reported() {
    let prices = PricesState {
        chain_id: SUI_CHAIN_ID,
        gas_token_price: u64::MAX,
        prices: PricesStatePlatform::Sui {
            computation_unit_price: 1_000_000,
            byte_price: 0,
            rebate_ratio: 0,
        },
    };
    let config = TargetChainsConfig {
        evm_transaction_gas: 0,
        evm_transaction_size: 0,
        sui_computation_units: 2_000,
        sui_stored_bytes: 0,
        sui_deleted_bytes: 0,
    };
    // 2 * 10^9 MIST at a u64::MAX token price: the quotient itself,
    // 2 * u64::MAX, no longer fits u64.
    assert_eq!(prices.calc_total_fee_micro_usd(&config, 0, 0), Err(CctprError::Overflow));
}

#[test]
fn checked_pipeline_matches_primitives() {
    assert_eq!(Int::Val(6).mul(7), Int::Val(42));
    assert_eq!(Int::Val(u64::MAX).mul(2), Int::Overflow);
    assert_eq!(Int::Val(u64::MAX - 1).add(1), Int::Val(u64::MAX));
    assert_eq!(Int::Val(u64::MAX).add(1), Int::Overflow);
    assert_eq!(Int::Val(5).sub(7), Int::Overflow);
    assert_eq!(Int::Val(7).sub(5), Int::Val(2));
    assert_eq!(Int::Val(7).div(2), Int::Val(3));
    assert_eq!(Int::Val(7).div(0), Int::DivisionByZero);
    assert_eq!(Int::Val(3).add_int(Int::Val(4)), Int::Val(7));
    assert_eq!(Int::Val(3).sub_int(Int::Val(4)), Int::Overflow);
    assert_eq!(Int::Val(10).at_least(25), Int::Val(25));
    assert_eq!(Int::Val(30).at_least(25), Int::Val(30));
    // The widened intermediate avoids a false overflow: MAX * 2 / 4.
    assert_eq!(Int::Val(u64::MAX).mul_div(2, 4), Int::Val(u64::MAX / 2));
    assert_eq!(Int::Val(1).mul_div(1, 0), Int::DivisionByZero);
    assert_eq!(Int::Val(u64::MAX).mul_div(2, 1), Int::Overflow);
}

#[test]
fn poisoned_values_pass_through_unchanged() {
    assert_eq!(Int::Overflow.mul(3), Int::Overflow);
    assert_eq!(Int::Overflow.div(0), Int::Overflow);
    assert_eq!(Int::DivisionByZero.add(1), Int::DivisionByZero);
    assert_eq!(Int::DivisionByZero.mul_div(5, 0), Int::DivisionByZero);
    assert_eq!(Int::Overflow.at_least(9), Int::Overflow);
    assert_eq!(Int::Val(1).add_int(Int::Overflow), Int::Overflow);
    assert_eq!(Int::Overflow.add_int(Int::DivisionByZero), Int::Overflow);
    assert_eq!(int_to_u64(Int::Overflow), Err(CctprError::Overflow));
    assert_eq!(int_to_u64(Int::DivisionByZero), Err(CctprError::DivisionByZero));
    assert_eq!(int_to_u64(Int::Val(11)), Ok(11));
}

#[test]
fn fee_adjustment_applies_relative_then_absolute() {
    let markup = FeeAdjustment { absolute_usd: 7, relative_percent_bps: 5_000 };
    assert_eq!(markup.apply(1_000), Ok(507));

    let markdown = FeeAdjustment { absolute_usd: -400, relative_percent_bps: 10_000 };
    assert_eq!(markdown.apply(1_000), Ok(600));

    // The saturating subtraction floors at zero, never negative.
    let deep_markdown = FeeAdjustment { absolute_usd: -2_000, relative_percent_bps: 10_000 };
    assert_eq!(deep_markdown.apply(1_000), Ok(0));

    // Above 100% is allowed: 250% plus one.
    let above_par = FeeAdjustment { absolute_usd: 1, relative_percent_bps: 25_000 };
    assert_eq!(above_par.apply(1_000), Ok(2_501));

    let overflowing = FeeAdjustment { absolute_usd: 0, relative_percent_bps: 20_000 };
    assert_eq!(overflowing.apply(u64::MAX), Err(CctprError::Overflow));
}

#[test]
fn fee_adjustment_monotonic_in_relative_weight() {
    let base = 123_456;
    let mut previous = 0;
    for bps in [0u32, 1, 100, 9_999, 10_000, 10_001, 50_000] {
        let adjustment = FeeAdjustment { absolute_usd: -5, relative_percent_bps: bps };
        let value = adjustment.apply(base).unwrap();
        assert!(value >= previous);
        previous = value;
    }
}

#[test]
fn oracle_conversions_are_exact() {
    let config = oracle(20_000_000);
    assert_eq!(config.micro_usd_to_sol(502_006), Ok(25_100_300));
    assert_eq!(config.sol_to_micro_usd(25_100_300), Ok(502_006));
    assert_eq!(config.sol_to_micro_usd(0), Ok(0));

    // A zero-initialized price always fails as a division by zero, even
    // when the amount is large enough that a narrow multiply would have
    // overflowed first.
    let zeroed = oracle(0);
    assert_eq!(zeroed.micro_usd_to_sol(1), Err(CctprError::DivisionByZero));
    assert_eq!(zeroed.micro_usd_to_sol(u64::MAX), Err(CctprError::DivisionByZero));

    let mut updated = oracle(1);
    updated.update_sol_price(2_000_000_000);
    assert_eq!(updated.micro_usd_to_sol(4), Ok(2));
}

#[test]
fn oracle_conversions_multiply_in_a_wide_intermediate() {
    // 2^35 micro-USD at a 10^9 price: the product exceeds u64 but the
    // quotient is exactly 2^35.
    let config = oracle(1_000_000_000);
    assert_eq!(config.micro_usd_to_sol(1u64 << 35), Ok(1u64 << 35));

    // 2 lamports at a u64::MAX price: quotient 2 * u64::MAX / 10^9 fits.
    let expensive = oracle(u64::MAX);
    assert_eq!(expensive.sol_to_micro_usd(2), Ok(36_893_488_147));

    // Only a quotient beyond u64 is an overflow.
    assert_eq!(expensive.sol_to_micro_usd(2_000_000_000), Err(CctprError::Overflow));
}

#[test]
fn gas_token_conversion_is_exact() {
    let prices = PricesState {
        chain_id: ETHEREUM_CHAIN_ID,
        gas_token_price: 2_000_000,
        prices: PricesStatePlatform::Evm { gas_price: 30, price_per_tx_byte: 16 },
    };
    // 500_000 micro-token * 2_000_000 / 1_000_000 = 1_000_000 micro-USD.
    assert_eq!(prices.micro_gas_token_to_micro_usd(500_000), Ok(1_000_000));
    assert_eq!(prices.micro_gas_token_to_micro_usd(0), Ok(0));

    // The wide intermediate keeps a u64::MAX token price convertible: the
    // quotient u64::MAX * 2 / 10^6 fits u64.
    let pricey = PricesState { gas_token_price: u64::MAX, ..prices };
    assert_eq!(pricey.micro_gas_token_to_micro_usd(2), Ok(36_893_488_147_419));
}

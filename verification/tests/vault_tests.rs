use k1_yield_vault::constants::PRICE_PRECISION;
use k1_yield_vault::errors::K1Error;
use k1_yield_vault::state::vault::{Key, Vault};

fn key(n: u8) -> Key {
    Key { bytes: [n; 32] }
}

fn vault() -> Vault {
    Vault {
        usdc_mint: key(1),
        share_mint: key(2),
        treasury: key(3),
        governance: key(4),
        reporter: key(5),
        total_shares: 0,
        offchain_nav: 0,
        strategy_value_sum: 0,
        high_water_mark: 0,
        last_total_assets: 0,
        mint_fee_bps: 100,
        withdrawal_fee_bps: 50,
        performance_fee_bps: 2000,
        paused: false,
        strategy_count: 0,
        bump: 255,
    }
}

#[test]
fn deposit_first_mints_precision_adjusted_shares() {
    let v = vault();
    let shares = v.compute_deposit_shares(1_000_000, 0).unwrap();
    assert_eq!(shares, 1_000_000_000);
}

#[test]
fn withdraw_fee_is_applied() {
    let mut v = vault();
    v.total_shares = 1_000_000_000;
    let assets_out = v.compute_withdraw_assets(100_000_000, 1_000_000).unwrap();
    let (user_assets, fee_assets) = v.apply_withdraw_fee(assets_out).unwrap();
    assert_eq!(assets_out, 100_000);
    assert_eq!(fee_assets, 500);
    assert_eq!(user_assets, 99_500);
}

#[test]
fn performance_fee_on_profit_mints_shares() {
    let mut v = vault();
    v.total_shares = 1_000_000_000;
    v.high_water_mark = 1_000_000;
    let fee_shares = v.apply_performance_fee(1_200_000).unwrap();
    assert!(fee_shares > 0);
    assert_eq!(v.high_water_mark, 1_200_000);
}

#[test]
fn performance_fee_on_loss_does_nothing() {
    let mut v = vault();
    v.total_shares = 1_000_000_000;
    v.high_water_mark = 1_000_000;
    let fee_shares = v.apply_performance_fee(900_000).unwrap();
    assert_eq!(fee_shares, 0);
    assert_eq!(v.high_water_mark, 1_000_000);
}

#[test]
fn offchain_nav_included_in_total_assets() {
    let mut v = vault();
    v.offchain_nav = 300_000;
    v.strategy_value_sum = 200_000;
    let total = v.total_assets(500_000).unwrap();
    assert_eq!(total, 1_000_000);
}

#[test]
fn pause_blocks_operations() {
    let mut v = vault();
    v.paused = true;
    assert!(v.check_not_paused().is_err());
}

#[test]
fn strategy_profit_updates_share_price_inputs() {
    let mut v = vault();
    v.total_shares = 1_000_000_000;
    let before = v.total_assets(1_000_000).unwrap();
    v.strategy_value_sum = 200_000;
    let after = v.total_assets(1_000_000).unwrap();
    assert!(after > before);
}

// ---------------------------------------------------------------------------

#[test]
fn check_not_paused_passes_when_running() {
    assert_eq!(vault().check_not_paused(), Ok(()));
    let mut v = vault();
    v.paused = true;
    assert_eq!(v.check_not_paused(), Err(K1Error::VaultPaused));
}

#[test]
fn total_assets_overflow_is_refused() {
    let mut v = vault();
    v.strategy_value_sum = u128::MAX;
    assert_eq!(v.total_assets(1), Err(K1Error::MathOverflow));
    v.strategy_value_sum = u128::MAX - 1;
    assert_eq!(v.total_assets(1), Ok(u128::MAX));
    v.offchain_nav = 1;
    assert_eq!(v.total_assets(1), Err(K1Error::MathOverflow));
}

#[test]
fn share_price_without_shares_is_one() {
    assert_eq!(vault().share_price(12_345), Ok(PRICE_PRECISION));
}

#[test]
fn share_price_with_shares() {
    let mut v = vault();
    v.total_shares = 1_000_000_000;
    assert_eq!(v.share_price(1_000_000), Ok(1_000_000_000_000_000));
    v.total_shares = 3;
    assert_eq!(v.share_price(10), Ok(3_333_333_333_333_333_333));
    assert_eq!(v.share_price(u128::MAX), Err(K1Error::MathOverflow));
}

#[test]
fn later_deposit_is_priced_on_assets_before() {
    let mut v = vault();
    v.total_shares = 1_000_000_000;
    assert_eq!(v.compute_deposit_shares(500_000, 1_000_000), Ok(500_000_000));
    // Rounds down.
    assert_eq!(v.compute_deposit_shares(1, 3), Ok(333_333_333));
}

#[test]
fn deposit_into_empty_pool_with_shares_divides_by_zero() {
    let mut v = vault();
    v.total_shares = 1;
    assert_eq!(v.compute_deposit_shares(10, 0), Err(K1Error::DivisionByZero));
    v.total_shares = u128::MAX;
    assert_eq!(v.compute_deposit_shares(10, 0), Err(K1Error::MathOverflow));
}

#[test]
fn mint_fee_splits_shares() {
    let v = vault();
    assert_eq!(v.apply_mint_fee(1_000_000_000), Ok((990_000_000, 10_000_000)));
    assert_eq!(v.apply_mint_fee(99), Ok((99, 0)));
    assert_eq!(v.apply_mint_fee(u128::MAX), Err(K1Error::MathOverflow));
}

#[test]
fn fee_above_hundred_percent_underflows() {
    let mut v = vault();
    v.mint_fee_bps = 20_000;
    assert_eq!(v.apply_mint_fee(10), Err(K1Error::MathOverflow));
    v.withdrawal_fee_bps = 10_000;
    assert_eq!(v.apply_withdraw_fee(10), Ok((0, 10)));
}

#[test]
fn withdraw_assets_without_shares_divides_by_zero() {
    let v = vault();
    assert_eq!(v.compute_withdraw_assets(1, 100), Err(K1Error::DivisionByZero));
}

#[test]
fn fee_assets_to_shares_prices_after_payout() {
    let mut v = vault();
    v.total_shares = 1_000_000_000;
    assert_eq!(v.fee_assets_to_shares(500, 1_000_000, 100_000), Ok(555_555));
    assert_eq!(v.fee_assets_to_shares(500, 100, 101), Err(K1Error::MathOverflow));
    assert_eq!(v.fee_assets_to_shares(500, 100, 100), Err(K1Error::DivisionByZero));
}

#[test]
fn performance_fee_exact_shares() {
    let mut v = vault();
    v.total_shares = 1_000_000_000;
    v.high_water_mark = 1_000_000;
    let fee_shares = v.apply_performance_fee(1_200_000).unwrap();
    assert_eq!(fee_shares, 34_482_758);
    assert_eq!(v.total_shares, 1_034_482_758);
    assert_eq!(v.last_total_assets, 1_200_000);
}

#[test]
fn performance_fee_records_last_total_on_loss() {
    let mut v = vault();
    v.total_shares = 1_000_000_000;
    v.high_water_mark = 1_000_000;
    v.apply_performance_fee(900_000).unwrap();
    assert_eq!(v.last_total_assets, 900_000);
    assert_eq!(v.total_shares, 1_000_000_000);
}

#[test]
fn performance_fee_without_shares_moves_mark_only() {
    let mut v = vault();
    v.high_water_mark = 1_000_000;
    assert_eq!(v.apply_performance_fee(1_200_000), Ok(0));
    assert_eq!(v.high_water_mark, 1_200_000);
    assert_eq!(v.total_shares, 0);
}

#[test]
fn performance_fee_error_leaves_vault() {
    let mut v = vault();
    v.total_shares = 1;
    v.performance_fee_bps = 60_000;
    v.high_water_mark = 0;
    let before = v;
    // fee = 10 * 60000 / 10000 = 60 > 10
    assert_eq!(v.apply_performance_fee(10), Err(K1Error::MathOverflow));
    assert_eq!(v, before);
}

#[test]
fn validate_fees_bounds() {
    assert_eq!(vault().validate_fees(), Ok(()));
    let mut v = vault();
    v.performance_fee_bps = 10_000;
    assert_eq!(v.validate_fees(), Ok(()));
    v.performance_fee_bps = 10_001;
    assert_eq!(v.validate_fees(), Err(K1Error::InvalidFeeBps));
    let mut w = vault();
    w.withdrawal_fee_bps = 10_001;
    assert_eq!(w.validate_fees(), Err(K1Error::InvalidFeeBps));
}

#[test]
fn error_messages() {
    assert_eq!(K1Error::VaultPaused.message(), "Vault paused");
    assert_eq!(K1Error::MathOverflow.message(), "Math overflow");
    assert_eq!(K1Error::DivisionByZero.message(), "Division by zero");
    assert_eq!(K1Error::InvalidFeeBps.message(), "Invalid fee bps");
    assert_eq!(K1Error::InsufficientLiquidity.message(), "Insufficient liquidity");
    assert_eq!(K1Error::StrategyInactive.message(), "Strategy inactive");
    assert_eq!(K1Error::UnauthorizedReporter.message(), "Unauthorized reporter");
    assert_eq!(K1Error::InvalidMint.message(), "Invalid mint");
    assert_eq!(K1Error::InvariantViolation.message(), "Invariant violation");
}

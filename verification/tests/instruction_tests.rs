use k1_yield_vault::errors::K1Error;
use k1_yield_vault::instructions::{
    add_strategy, deactivate_strategy, deallocate, deposit, emergency_withdraw_strategy,
    initialize_vault, pause, unpause, update_fees, update_offchain_nav, withdraw, DeallocateArgs,
    DepositArgs, EmergencyWithdrawStrategyArgs, InitializeVaultArgs, TokenOp, UpdateFeesArgs,
    UpdateOffchainNavArgs, VaultKeys, WithdrawArgs,
};
use k1_yield_vault::state::strategy::StrategyState;
use k1_yield_vault::state::vault::{Key, Vault};

fn key(n: u8) -> Key {
    Key { bytes: [n; 32] }
}

fn keys() -> VaultKeys {
    VaultKeys {
        usdc_mint: key(1),
        share_mint: key(2),
        treasury: key(3),
        governance: key(4),
        reporter: key(5),
    }
}

fn vault() -> Vault {
    initialize_vault(
        keys(),
        255,
        &InitializeVaultArgs {
            vault_id: 7,
            mint_fee_bps: 100,
            withdrawal_fee_bps: 50,
            performance_fee_bps: 2000,
        },
    )
    .unwrap()
}

fn strategy() -> StrategyState {
    StrategyState {
        strategy_program: key(8),
        strategy_treasury: key(9),
        allocated_assets: 100,
        last_reported_value: 200,
        active: true,
        bump: 254,
    }
}

#[test]
fn initialize_sets_a_fresh_vault() {
    let v = vault();
    assert_eq!(v.governance, key(4));
    assert_eq!(v.total_shares, 0);
    assert_eq!(v.high_water_mark, 0);
    assert_eq!(v.mint_fee_bps, 100);
    assert_eq!(v.withdrawal_fee_bps, 50);
    assert_eq!(v.performance_fee_bps, 2000);
    assert!(!v.paused);
    assert_eq!(v.strategy_count, 0);
    assert_eq!(v.bump, 255);
}

#[test]
fn initialize_refuses_fee_above_whole() {
    let r = initialize_vault(
        keys(),
        1,
        &InitializeVaultArgs {
            vault_id: 7,
            mint_fee_bps: 10_001,
            withdrawal_fee_bps: 0,
            performance_fee_bps: 0,
        },
    );
    assert_eq!(r, Err(K1Error::InvalidFeeBps));
}

#[test]
fn first_deposit_mints_and_sets_mark() {
    let mut v = vault();
    let out = deposit(&mut v, 0, &DepositArgs { vault_id: 7, amount: 1_000_000 });
    assert_eq!(out.result, Ok(()));
    assert_eq!(
        out.ops,
        vec![
            TokenOp::Transfer { amount: 1_000_000 },
            TokenOp::MintToUser { amount: 990_000_000 },
            TokenOp::MintToTreasury { amount: 10_000_000 },
        ]
    );
    assert_eq!(v.total_shares, 1_000_000_000);
    assert_eq!(v.high_water_mark, 1_000_000);
}

#[test]
fn later_deposit_keeps_mark() {
    let mut v = vault();
    v.total_shares = 1_000_000_000;
    v.high_water_mark = 1_000_000;
    let out = deposit(&mut v, 1_000_000, &DepositArgs { vault_id: 7, amount: 500_000 });
    assert_eq!(out.result, Ok(()));
    assert_eq!(
        out.ops,
        vec![
            TokenOp::Transfer { amount: 500_000 },
            TokenOp::MintToUser { amount: 495_000_000 },
            TokenOp::MintToTreasury { amount: 5_000_000 },
        ]
    );
    assert_eq!(v.total_shares, 1_500_000_000);
    assert_eq!(v.high_water_mark, 1_000_000);
}

#[test]
fn tiny_deposit_mints_no_fee_shares() {
    let mut v = vault();
    v.total_shares = 1_000;
    v.high_water_mark = 1;
    let out = deposit(&mut v, 1_000, &DepositArgs { vault_id: 7, amount: 50 });
    assert_eq!(
        out.ops,
        vec![TokenOp::Transfer { amount: 50 }, TokenOp::MintToUser { amount: 50 }]
    );
    assert_eq!(v.total_shares, 1_050);
}

#[test]
fn paused_deposit_is_refused_without_change() {
    let mut v = vault();
    pause(&mut v);
    let before = v;
    let out = deposit(&mut v, 0, &DepositArgs { vault_id: 7, amount: 1_000_000 });
    assert_eq!(out.result, Err(K1Error::VaultPaused));
    assert!(out.ops.is_empty());
    assert_eq!(v, before);
    let out = withdraw(&mut v, 0, &WithdrawArgs { vault_id: 7, shares_to_burn: 1 });
    assert_eq!(out.result, Err(K1Error::VaultPaused));
    unpause(&mut v);
    assert!(!v.paused);
}

#[test]
fn deposit_with_overflowing_user_shares_stops_after_transfer() {
    let mut v = vault();
    v.total_shares = u64::MAX as u128 * 4;
    v.high_water_mark = 1;
    let before = v;
    let out = deposit(&mut v, 1, &DepositArgs { vault_id: 7, amount: 1 });
    assert_eq!(out.result, Err(K1Error::MathOverflow));
    assert_eq!(out.ops, vec![TokenOp::Transfer { amount: 1 }]);
    assert_eq!(v, before);
}

#[test]
fn withdraw_burns_pays_and_mints_fee_shares() {
    let mut v = vault();
    v.total_shares = 1_000_000_000;
    let out = withdraw(&mut v, 1_000_000, &WithdrawArgs { vault_id: 7, shares_to_burn: 100_000_000 });
    assert_eq!(out.result, Ok(()));
    assert_eq!(
        out.ops,
        vec![
            TokenOp::Burn { amount: 100_000_000 },
            TokenOp::Transfer { amount: 99_500 },
            TokenOp::MintToTreasury { amount: 555_555 },
        ]
    );
    assert_eq!(v.total_shares, 900_555_555);
}

#[test]
fn withdraw_needs_liquidity_in_treasury() {
    let mut v = vault();
    v.total_shares = 1_000_000_000;
    v.strategy_value_sum = 1_000_000;
    let before = v;
    let out = withdraw(&mut v, 0, &WithdrawArgs { vault_id: 7, shares_to_burn: 100_000_000 });
    assert_eq!(out.result, Err(K1Error::InsufficientLiquidity));
    assert!(out.ops.is_empty());
    assert_eq!(v, before);
}

#[test]
fn withdraw_more_shares_than_exist() {
    let mut v = vault();
    v.total_shares = 10;
    v.withdrawal_fee_bps = 0;
    // Pays 11 * 1000 / 10 = 1100, more than the 1000 in the treasury.
    let out = withdraw(&mut v, 1_000, &WithdrawArgs { vault_id: 7, shares_to_burn: 11 });
    assert_eq!(out.result, Err(K1Error::InsufficientLiquidity));
    // With a 100% fee nothing is paid, and the fee is more than the pool keeps.
    v.withdrawal_fee_bps = 10_000;
    let out = withdraw(&mut v, 1_000, &WithdrawArgs { vault_id: 7, shares_to_burn: 11 });
    assert_eq!(out.result, Err(K1Error::MathOverflow));
    assert_eq!(
        out.ops,
        vec![TokenOp::Burn { amount: 11 }, TokenOp::Transfer { amount: 0 }]
    );
    assert_eq!(v.total_shares, 10);
}

#[test]
fn nav_update_charges_performance_fee() {
    let mut v = vault();
    v.total_shares = 1_000_000_000;
    v.high_water_mark = 1_000_000;
    let out = update_offchain_nav(&mut v, 1_000_000, &UpdateOffchainNavArgs { vault_id: 7, value: 200_000 });
    assert_eq!(out.result, Ok(()));
    assert_eq!(out.ops, vec![TokenOp::MintToTreasury { amount: 34_482_758 }]);
    assert_eq!(v.offchain_nav, 200_000);
    assert_eq!(v.total_shares, 1_034_482_758);
    assert_eq!(v.high_water_mark, 1_200_000);
    assert_eq!(v.last_total_assets, 1_200_000);
}

#[test]
fn nav_update_below_mark_mints_nothing() {
    let mut v = vault();
    v.total_shares = 1_000_000_000;
    v.high_water_mark = 1_000_000;
    let out = update_offchain_nav(&mut v, 500_000, &UpdateOffchainNavArgs { vault_id: 7, value: 100_000 });
    assert_eq!(out.result, Ok(()));
    assert!(out.ops.is_empty());
    assert_eq!(v.offchain_nav, 100_000);
    assert_eq!(v.last_total_assets, 600_000);
    assert_eq!(v.high_water_mark, 1_000_000);
}

#[test]
fn nav_update_overflow_leaves_vault() {
    let mut v = vault();
    v.strategy_value_sum = u128::MAX;
    let before = v;
    let out = update_offchain_nav(&mut v, 0, &UpdateOffchainNavArgs { vault_id: 7, value: 1 });
    assert_eq!(out.result, Err(K1Error::MathOverflow));
    assert_eq!(v, before);
}

#[test]
fn add_strategy_counts_and_saturates() {
    let mut v = vault();
    let s = add_strategy(&mut v, key(8), key(9), 3);
    assert_eq!(v.strategy_count, 1);
    assert!(s.active);
    assert_eq!(s.allocated_assets, 0);
    assert_eq!(s.last_reported_value, 0);
    assert_eq!(s.strategy_program, key(8));
    assert_eq!(s.bump, 3);
    v.strategy_count = 255;
    add_strategy(&mut v, key(8), key(9), 3);
    assert_eq!(v.strategy_count, 255);
}

#[test]
fn deactivate_strategy_only_clears_active() {
    let mut s = strategy();
    deactivate_strategy(&mut s);
    assert!(!s.active);
    assert_eq!(s.allocated_assets, 100);
}

#[test]
fn deallocate_lowers_allocation() {
    let mut s = strategy();
    let out = deallocate(&mut s, &DeallocateArgs { vault_id: 7, strategy_id: 1, amount: 60 });
    assert_eq!(out.result, Ok(()));
    assert_eq!(out.ops, vec![TokenOp::Transfer { amount: 60 }]);
    assert_eq!(s.allocated_assets, 40);
    let out = deallocate(&mut s, &DeallocateArgs { vault_id: 7, strategy_id: 1, amount: 41 });
    assert_eq!(out.result, Err(K1Error::MathOverflow));
    assert_eq!(s.allocated_assets, 40);
}

#[test]
fn emergency_withdraw_shuts_strategy() {
    let mut v = vault();
    v.strategy_value_sum = 500;
    let mut s = strategy();
    let out = emergency_withdraw_strategy(
        &mut v,
        &mut s,
        &EmergencyWithdrawStrategyArgs { vault_id: 7, strategy_id: 1, amount: 90 },
    );
    assert_eq!(out.result, Ok(()));
    assert_eq!(out.ops, vec![TokenOp::Transfer { amount: 90 }]);
    assert_eq!(v.strategy_value_sum, 300);
    assert!(!s.active);
    assert_eq!(s.allocated_assets, 0);
    assert_eq!(s.last_reported_value, 0);
}

#[test]
fn emergency_withdraw_underflow_changes_nothing() {
    let mut v = vault();
    v.strategy_value_sum = 100;
    let mut s = strategy();
    let (v0, s0) = (v, s);
    let out = emergency_withdraw_strategy(
        &mut v,
        &mut s,
        &EmergencyWithdrawStrategyArgs { vault_id: 7, strategy_id: 1, amount: 90 },
    );
    assert_eq!(out.result, Err(K1Error::MathOverflow));
    assert_eq!(v, v0);
    assert_eq!(s, s0);
}

#[test]
fn update_fees_sets_or_refuses() {
    let mut v = vault();
    let ok = update_fees(
        &mut v,
        &UpdateFeesArgs { vault_id: 7, mint_fee_bps: 1, withdrawal_fee_bps: 2, performance_fee_bps: 3 },
    );
    assert_eq!(ok, Ok(()));
    assert_eq!((v.mint_fee_bps, v.withdrawal_fee_bps, v.performance_fee_bps), (1, 2, 3));
    let bad = update_fees(
        &mut v,
        &UpdateFeesArgs { vault_id: 7, mint_fee_bps: 5, withdrawal_fee_bps: 2, performance_fee_bps: 10_001 },
    );
    assert_eq!(bad, Err(K1Error::InvalidFeeBps));
    assert_eq!((v.mint_fee_bps, v.withdrawal_fee_bps, v.performance_fee_bps), (1, 2, 3));
}

use k1_yield_vault::instructions::{deposit, pause, unpause, withdraw, DepositArgs, TokenOp, WithdrawArgs};
use k1_yield_vault::state::vault::{split_fee, Key, Vault};

fn vault() -> Vault {
    Vault {
        usdc_mint: Key { bytes: [1; 32] },
        share_mint: Key { bytes: [2; 32] },
        treasury: Key { bytes: [3; 32] },
        governance: Key { bytes: [4; 32] },
        reporter: Key { bytes: [5; 32] },
        total_shares: 0,
        offchain_nav: 0,
        strategy_value_sum: 0,
        high_water_mark: 0,
        last_total_assets: 0,
        mint_fee_bps: 100,
        withdrawal_fee_bps: 50,
        performance_fee_bps: 2000,
        paused: false,
        strategy_count: 0,
        bump: 255,
    }
}

#[test]
fn fee_split_keeps_every_unit() {
    for (amount, bps) in [(0u128, 0u16), (1, 10_000), (12_345, 77), (999_999, 9_999)] {
        let (kept, fee) = split_fee(amount, bps).unwrap();
        assert_eq!(kept + fee, amount);
        assert!(fee * 10_000 <= amount * bps as u128);
    }
}

#[test]
fn deposit_then_withdraw_never_profits_on_values() {
    let mut v = vault();
    let out = deposit(&mut v, 0, &DepositArgs { vault_id: 1, amount: 1_000_000 });
    let user_shares = match out.ops[1] {
        TokenOp::MintToUser { amount } => amount,
        _ => panic!("expected a mint"),
    };
    let back = withdraw(&mut v, 1_000_000, &WithdrawArgs { vault_id: 1, shares_to_burn: user_shares });
    assert_eq!(back.result, Ok(()));
    assert_eq!(back.ops[1], TokenOp::Transfer { amount: 985_050 });
}

#[test]
fn deposit_does_not_dilute_on_values() {
    let mut v = vault();
    v.total_shares = 3;
    v.high_water_mark = 1;
    deposit(&mut v, 10, &DepositArgs { vault_id: 1, amount: 7 });
    // 7 * 3 / 10 = 2 shares; 10 * 5 <= 17 * 3.
    assert_eq!(v.total_shares, 5);
    assert!(10 * v.total_shares <= 17 * 3);
}

#[test]
fn share_count_tracks_supply_on_values() {
    let mut v = vault();
    v.total_shares = 1_000_000_000;
    let before = v.total_shares as i128;
    let out = withdraw(&mut v, 1_000_000, &WithdrawArgs { vault_id: 1, shares_to_burn: 100_000_000 });
    let mut change: i128 = 0;
    for op in out.ops {
        match op {
            TokenOp::MintToUser { amount } | TokenOp::MintToTreasury { amount } => change += amount as i128,
            TokenOp::Burn { amount } => change -= amount as i128,
            TokenOp::Transfer { .. } => {}
        }
    }
    assert_eq!(v.total_shares as i128, before + change);
}

#[test]
fn pause_then_unpause_restores() {
    let mut v = vault();
    let before = v;
    pause(&mut v);
    assert!(v.paused);
    unpause(&mut v);
    assert_eq!(v, before);
}

#[test]
fn performance_fee_charged_once_on_values() {
    let mut v = vault();
    v.total_shares = 1_000_000_000;
    v.high_water_mark = 1_000_000;
    assert_eq!(v.apply_performance_fee(1_200_000), Ok(34_482_758));
    let after = v;
    assert_eq!(v.apply_performance_fee(1_200_000), Ok(0));
    assert_eq!(v, after);
}

#[test]
fn withdraw_pays_at_most_share_on_values() {
    let mut v = vault();
    v.total_shares = 3;
    v.withdrawal_fee_bps = 0;
    let out = withdraw(&mut v, 10, &WithdrawArgs { vault_id: 1, shares_to_burn: 1 });
    // 1 * 10 / 3 = 3, and 3 * 3 <= 1 * 10.
    assert_eq!(out.ops[1], TokenOp::Transfer { amount: 3 });
}

use vstd::prelude::*;

use crate::errors::K1Error;
use crate::instructions::token_ops::{Outcome, TokenOp};
use crate::state::vault::{
    deposit_shares_result, fee_split_result, total_assets_result, Vault,
};

verus! {

/// The payload of a deposit.
#[derive(Debug, Clone, Copy, PartialEq, Eq)]
pub struct DepositArgs {
    pub vault_id: u64,
    pub amount: u64,
}

/// The last steps of a deposit, once the shares are priced: the asset transfer,
/// the two share mints, and the new share supply; the first deposit into a
/// vault with no high-water mark sets it to the assets after the deposit.
pub open spec fn deposit_settlement(
    v: Vault,
    amount: int,
    before: int,
    shares: int,
    user_shares: int,
    fee_shares: int,
) -> (Seq<TokenOp>, Result<Vault, K1Error>) {
    let paid = seq![TokenOp::Transfer { amount: amount as u64 }];
    if user_shares > u64::MAX {
        (paid, Err(K1Error::MathOverflow))
    } else {
        let minted = paid.push(TokenOp::MintToUser { amount: user_shares as u64 });
        if fee_shares > u64::MAX {
            (minted, Err(K1Error::MathOverflow))
        } else {
            let ops = if fee_shares > 0 {
                minted.push(TokenOp::MintToTreasury { amount: fee_shares as u64 })
            } else {
                minted
            };
            if v.total_shares + shares > u128::MAX {
                (ops, Err(K1Error::MathOverflow))
            } else if v.high_water_mark == 0 && before + amount > u128::MAX {
                (ops, Err(K1Error::MathOverflow))
            } else {
                (
                    ops,
                    Ok(
                        Vault {
                            total_shares: (v.total_shares + shares) as u128,
                            high_water_mark: if v.high_water_mark == 0 {
                                (before + amount) as u128
                            } else {
                                v.high_water_mark
                            },
                            ..v
                        },
                    ),
                )
            }
        }
    }
}

/// A deposit of `amount` into vault `v` whose treasury holds `idle_assets`:
/// the token operations, and the vault after it or the error that stops it.
/// The shares are priced on the assets before the deposit, and the mint fee is
/// taken from them.
pub open spec fn deposit_plan(v: Vault, idle_assets: int, amount: int) -> (
    Seq<TokenOp>,
    Result<Vault, K1Error>,
) {
    if v.paused {
        (seq![], Err(K1Error::VaultPaused))
    } else {
        match total_assets_result(v, idle_assets) {
            Err(e) => (seq![], Err(e)),
            Ok(before) => match deposit_shares_result(v, amount, before as int) {
                Err(e) => (seq![], Err(e)),
                Ok(shares) => match fee_split_result(shares as int, v.mint_fee_bps as int) {
                    Err(e) => (seq![], Err(e)),
                    Ok((user_shares, fee_shares)) => deposit_settlement(
                        v,
                        amount,
                        before as int,
                        shares as int,
                        user_shares as int,
                        fee_shares as int,
                    ),
                },
            },
        }
    }
}

/// Deposits `args.amount` asset units into the vault, whose treasury holds
/// `treasury_amount` before the deposit. The vault changes only on success.
pub fn deposit(vault: &mut Vault, treasury_amount: u64, args: &DepositArgs) -> (out: Outcome)
    ensures
        out.ops@ == deposit_plan(*old(vault), treasury_amount as int, args.amount as int).0,
        match deposit_plan(*old(vault), treasury_amount as int, args.amount as int).1 {
            Ok(v) => out.result is Ok && *final(vault) == v,
            Err(e) => out.result == Err::<(), K1Error>(e) && *final(vault) == *old(vault),
        },
{
    let mut ops: Vec<TokenOp> = Vec::new();
    if let Err(e) = vault.check_not_paused() {
        return Outcome { ops, result: Err(e) };
    }
    let total_assets_before = match vault.total_assets(treasury_amount) {
        Err(e) => {
            return Outcome { ops, result: Err(e) };
        },
        Ok(t) => t,
    };
    let shares_to_mint = match vault.compute_deposit_shares(args.amount, total_assets_before) {
        Err(e) => {
            return Outcome { ops, result: Err(e) };
        },
        Ok(s) => s,
    };
    let (user_shares, fee_shares) = match vault.apply_mint_fee(shares_to_mint) {
        Err(e) => {
            return Outcome { ops, result: Err(e) };
        },
        Ok(split) => split,
    };
    ops.push(TokenOp::Transfer { amount: args.amount });
    if user_shares > u64::MAX as u128 {
        return Outcome { ops, result: Err(K1Error::MathOverflow) };
    }
    ops.push(TokenOp::MintToUser { amount: user_shares as u64 });
    if fee_shares > u64::MAX as u128 {
        return Outcome { ops, result: Err(K1Error::MathOverflow) };
    }
    if fee_shares > 0 {
        ops.push(TokenOp::MintToTreasury { amount: fee_shares as u64 });
    }
    let new_total_shares = match vault.total_shares.checked_add(shares_to_mint) {
        None => {
            return Outcome { ops, result: Err(K1Error::MathOverflow) };
        },
        Some(t) => t,
    };
    let new_high_water_mark = if vault.high_water_mark == 0 {
        match total_assets_before.checked_add(args.amount as u128) {
            None => {
                return Outcome { ops, result: Err(K1Error::MathOverflow) };
            },
            Some(h) => h,
        }
    } else {
        vault.high_water_mark
    };
    vault.total_shares = new_total_shares;
    vault.high_water_mark = new_high_water_mark;
    Outcome { ops, result: Ok(()) }
}

} // verus!

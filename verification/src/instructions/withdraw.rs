use vstd::prelude::*;

use crate::errors::K1Error;
use crate::instructions::token_ops::{Outcome, TokenOp};
use crate::state::vault::{
    fee_shares_result, fee_split_result, total_assets_result, withdraw_assets_result, Vault,
};

verus! {

/// The payload of a withdrawal.
#[derive(Debug, Clone, Copy, PartialEq, Eq)]
pub struct WithdrawArgs {
    pub vault_id: u64,
    pub shares_to_burn: u64,
}

/// The last steps of a withdrawal, once the payout is known and the treasury
/// can pay it: the burn, the asset transfer, the fee shares minted to the
/// treasury, and the new share supply.
pub open spec fn withdraw_settlement(
    v: Vault,
    shares: int,
    total_assets: int,
    assets_out: int,
    user_assets: int,
    fee_assets: int,
) -> (Seq<TokenOp>, Result<Vault, K1Error>) {
    let paid = seq![
        TokenOp::Burn { amount: shares as u64 },
        TokenOp::Transfer { amount: user_assets as u64 },
    ];
    let fee_shares = if fee_assets > 0 {
        fee_shares_result(v, fee_assets, total_assets, assets_out)
    } else {
        Ok(0u128)
    };
    match fee_shares {
        Err(e) => (paid, Err(e)),
        Ok(fee_shares) => if fee_shares > u64::MAX {
            (paid, Err(K1Error::MathOverflow))
        } else {
            let ops = if fee_shares > 0 {
                paid.push(TokenOp::MintToTreasury { amount: fee_shares as u64 })
            } else {
                paid
            };
            if shares > v.total_shares {
                (ops, Err(K1Error::MathOverflow))
            } else if v.total_shares - shares + fee_shares > u128::MAX {
                (ops, Err(K1Error::MathOverflow))
            } else {
                (
                    ops,
                    Ok(
                        Vault {
                            total_shares: (v.total_shares - shares + fee_shares) as u128,
                            ..v
                        },
                    ),
                )
            }
        },
    }
}

/// A withdrawal of `shares` shares from vault `v` whose treasury holds
/// `idle_assets`: the token operations, and the vault after it or the error
/// that stops it. The payout is priced on the assets before it; the withdrawal
/// fee stays in the vault and is paid to the treasury in shares worth it.
pub open spec fn withdraw_plan(v: Vault, idle_assets: int, shares: int) -> (
    Seq<TokenOp>,
    Result<Vault, K1Error>,
) {
    if v.paused {
        (seq![], Err(K1Error::VaultPaused))
    } else {
        match total_assets_result(v, idle_assets) {
            Err(e) => (seq![], Err(e)),
            Ok(total_assets) => match withdraw_assets_result(v, shares, total_assets as int) {
                Err(e) => (seq![], Err(e)),
                Ok(assets_out) => match fee_split_result(
                    assets_out as int,
                    v.withdrawal_fee_bps as int,
                ) {
                    Err(e) => (seq![], Err(e)),
                    Ok((user_assets, fee_assets)) => if user_assets > idle_assets {
                        (seq![], Err(K1Error::InsufficientLiquidity))
                    } else {
                        withdraw_settlement(
                            v,
                            shares,
                            total_assets as int,
                            assets_out as int,
                            user_assets as int,
                            fee_assets as int,
                        )
                    },
                },
            },
        }
    }
}

/// Burns `args.shares_to_burn` shares and pays their assets, less the
/// withdrawal fee, out of the treasury, which holds `treasury_amount`. The vault
/// changes only on success.
pub fn withdraw(vault: &mut Vault, treasury_amount: u64, args: &WithdrawArgs) -> (out: Outcome)
    ensures
        out.ops@ == withdraw_plan(
            *old(vault),
            treasury_amount as int,
            args.shares_to_burn as int,
        ).0,
        match withdraw_plan(*old(vault), treasury_amount as int, args.shares_to_burn as int).1 {
            Ok(v) => out.result is Ok && *final(vault) == v,
            Err(e) => out.result == Err::<(), K1Error>(e) && *final(vault) == *old(vault),
        },
{
    let mut ops: Vec<TokenOp> = Vec::new();
    if let Err(e) = vault.check_not_paused() {
        return Outcome { ops, result: Err(e) };
    }
    let total_assets = match vault.total_assets(treasury_amount) {
        Err(e) => {
            return Outcome { ops, result: Err(e) };
        },
        Ok(t) => t,
    };
    let assets_out = match vault.compute_withdraw_assets(args.shares_to_burn, total_assets) {
        Err(e) => {
            return Outcome { ops, result: Err(e) };
        },
        Ok(a) => a,
    };
    let (user_assets, fee_assets) = match vault.apply_withdraw_fee(assets_out) {
        Err(e) => {
            return Outcome { ops, result: Err(e) };
        },
        Ok(split) => split,
    };
    if (treasury_amount as u128) < user_assets {
        return Outcome { ops, result: Err(K1Error::InsufficientLiquidity) };
    }
    ops.push(TokenOp::Burn { amount: args.shares_to_burn });
    ops.push(TokenOp::Transfer { amount: user_assets as u64 });
    let fee_shares = if fee_assets > 0 {
        match vault.fee_assets_to_shares(fee_assets, total_assets, assets_out) {
            Err(e) => {
                return Outcome { ops, result: Err(e) };
            },
            Ok(s) => s,
        }
    } else {
        0
    };
    if fee_shares > u64::MAX as u128 {
        return Outcome { ops, result: Err(K1Error::MathOverflow) };
    }
    if fee_shares > 0 {
        ops.push(TokenOp::MintToTreasury { amount: fee_shares as u64 });
    }
    let remaining = match vault.total_shares.checked_sub(args.shares_to_burn as u128) {
        None => {
            return Outcome { ops, result: Err(K1Error::MathOverflow) };
        },
        Some(r) => r,
    };
    let new_total_shares = match remaining.checked_add(fee_shares) {
        None => {
            return Outcome { ops, result: Err(K1Error::MathOverflow) };
        },
        Some(t) => t,
    };
    vault.total_shares = new_total_shares;
    Outcome { ops, result: Ok(()) }
}

} // verus!

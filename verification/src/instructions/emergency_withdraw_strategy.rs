use vstd::prelude::*;

use crate::errors::K1Error;
use crate::instructions::token_ops::{Outcome, TokenOp};
use crate::state::strategy::StrategyState;
use crate::state::vault::Vault;

verus! {

/// The payload of an emergency withdrawal from a strategy.
#[derive(Debug, Clone, Copy, PartialEq, Eq)]
pub struct EmergencyWithdrawStrategyArgs {
    pub vault_id: u64,
    pub strategy_id: u64,
    pub amount: u64,
}

/// An emergency withdrawal of `amount` from a strategy: the transfer, then the
/// strategy is shut down, with nothing lent and nothing reported, and its last
/// reported value leaves the vault's strategy sum, which may not go below zero.
pub open spec fn emergency_withdraw_plan(v: Vault, s: StrategyState, amount: u64) -> (
    Seq<TokenOp>,
    Result<(Vault, StrategyState), K1Error>,
) {
    let ops = seq![TokenOp::Transfer { amount }];
    if s.last_reported_value > v.strategy_value_sum {
        (ops, Err(K1Error::MathOverflow))
    } else {
        (
            ops,
            Ok(
                (
                    Vault {
                        strategy_value_sum: (v.strategy_value_sum - s.last_reported_value) as u128,
                        ..v
                    },
                    StrategyState {
                        active: false,
                        allocated_assets: 0,
                        last_reported_value: 0,
                        ..s
                    },
                ),
            ),
        )
    }
}

/// Pulls `args.amount` out of a strategy and shuts it down. The vault and the
/// strategy change only on success.
pub fn emergency_withdraw_strategy(
    vault: &mut Vault,
    strategy: &mut StrategyState,
    args: &EmergencyWithdrawStrategyArgs,
) -> (out: Outcome)
    ensures
        out.ops@ == emergency_withdraw_plan(*old(vault), *old(strategy), args.amount).0,
        match emergency_withdraw_plan(*old(vault), *old(strategy), args.amount).1 {
            Ok((v, s)) => out.result is Ok && *final(vault) == v && *final(strategy) == s,
            Err(e) => out.result == Err::<(), K1Error>(e) && *final(vault) == *old(vault)
                && *final(strategy) == *old(strategy),
        },
{
    let mut ops: Vec<TokenOp> = Vec::new();
    ops.push(TokenOp::Transfer { amount: args.amount });
    match vault.strategy_value_sum.checked_sub(strategy.last_reported_value) {
        None => Outcome { ops, result: Err(K1Error::MathOverflow) },
        Some(rest) => {
            vault.strategy_value_sum = rest;
            strategy.active = false;
            strategy.allocated_assets = 0;
            strategy.last_reported_value = 0;
            Outcome { ops, result: Ok(()) }
        },
    }
}

} // verus!

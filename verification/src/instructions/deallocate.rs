use vstd::prelude::*;

use crate::errors::K1Error;
use crate::instructions::token_ops::{Outcome, TokenOp};
use crate::state::strategy::StrategyState;

verus! {

/// The payload of a strategy paying assets back to the vault.
#[derive(Debug, Clone, Copy, PartialEq, Eq)]
pub struct DeallocateArgs {
    pub vault_id: u64,
    pub strategy_id: u64,
    pub amount: u64,
}

/// A strategy paying `amount` back: the transfer, then the amount lent to it
/// goes down by as much, which it may not go below zero.
pub open spec fn deallocate_plan(s: StrategyState, amount: u64) -> (
    Seq<TokenOp>,
    Result<StrategyState, K1Error>,
) {
    let ops = seq![TokenOp::Transfer { amount }];
    if amount > s.allocated_assets {
        (ops, Err(K1Error::MathOverflow))
    } else {
        (ops, Ok(StrategyState { allocated_assets: (s.allocated_assets - amount) as u128, ..s }))
    }
}

/// Takes `args.amount` back from a strategy. The strategy changes only on
/// success.
pub fn deallocate(strategy: &mut StrategyState, args: &DeallocateArgs) -> (out: Outcome)
    ensures
        out.ops@ == deallocate_plan(*old(strategy), args.amount).0,
        match deallocate_plan(*old(strategy), args.amount).1 {
            Ok(s) => out.result is Ok && *final(strategy) == s,
            Err(e) => out.result == Err::<(), K1Error>(e) && *final(strategy) == *old(strategy),
        },
{
    let mut ops: Vec<TokenOp> = Vec::new();
    ops.push(TokenOp::Transfer { amount: args.amount });
    match strategy.allocated_assets.checked_sub(args.amount as u128) {
        None => Outcome { ops, result: Err(K1Error::MathOverflow) },
        Some(left) => {
            strategy.allocated_assets = left;
            Outcome { ops, result: Ok(()) }
        },
    }
}

} // verus!

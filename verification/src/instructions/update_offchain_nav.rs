use vstd::prelude::*;

use crate::errors::K1Error;
use crate::instructions::token_ops::{Outcome, TokenOp};
use crate::state::vault::{performance_fee_result, total_assets_result, Vault};

verus! {

/// The payload of an off-chain net asset value report.
#[derive(Debug, Clone, Copy, PartialEq, Eq)]
pub struct UpdateOffchainNavArgs {
    pub vault_id: u64,
    pub value: u128,
}

/// A report that the assets held off chain are worth `value`: the value is
/// recorded, the performance fee is charged on the new total, and its shares,
/// if any, are minted to the treasury.
pub open spec fn update_offchain_nav_plan(v: Vault, idle_assets: int, value: u128) -> (
    Seq<TokenOp>,
    Result<Vault, K1Error>,
) {
    let reported = Vault { offchain_nav: value, ..v };
    match total_assets_result(reported, idle_assets) {
        Err(e) => (seq![], Err(e)),
        Ok(total_assets) => match performance_fee_result(reported, total_assets as int) {
            Err(e) => (seq![], Err(e)),
            Ok((fee_shares, charged)) => if fee_shares == 0 {
                (seq![], Ok(charged))
            } else if fee_shares > u64::MAX {
                (seq![], Err(K1Error::MathOverflow))
            } else {
                (seq![TokenOp::MintToTreasury { amount: fee_shares as u64 }], Ok(charged))
            },
        },
    }
}

/// Records the off-chain net asset value and charges the performance fee; the
/// treasury holds `treasury_amount`. The vault changes only on success.
pub fn update_offchain_nav(
    vault: &mut Vault,
    treasury_amount: u64,
    args: &UpdateOffchainNavArgs,
) -> (out: Outcome)
    ensures
        out.ops@ == update_offchain_nav_plan(*old(vault), treasury_amount as int, args.value).0,
        match update_offchain_nav_plan(*old(vault), treasury_amount as int, args.value).1 {
            Ok(v) => out.result is Ok && *final(vault) == v,
            Err(e) => out.result == Err::<(), K1Error>(e) && *final(vault) == *old(vault),
        },
{
    let mut ops: Vec<TokenOp> = Vec::new();
    let mut reported = *vault;
    reported.offchain_nav = args.value;
    let total_assets = match reported.total_assets(treasury_amount) {
        Err(e) => {
            return Outcome { ops, result: Err(e) };
        },
        Ok(t) => t,
    };
    let fee_shares = match reported.apply_performance_fee(total_assets) {
        Err(e) => {
            return Outcome { ops, result: Err(e) };
        },
        Ok(s) => s,
    };
    if fee_shares > 0 {
        if fee_shares > u64::MAX as u128 {
            return Outcome { ops, result: Err(K1Error::MathOverflow) };
        }
        ops.push(TokenOp::MintToTreasury { amount: fee_shares as u64 });
    }
    *vault = reported;
    Outcome { ops, result: Ok(()) }
}

} // verus!

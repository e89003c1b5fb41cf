//! Properties that hold of the vault's rules across all inputs.
use vstd::prelude::*;

use vstd::arithmetic::div_mod::{lemma_div_pos_is_pos, lemma_fundamental_div_mod, lemma_mod_pos_bound};
use vstd::arithmetic::mul::lemma_mul_is_commutative;

use crate::constants::BPS_DENOMINATOR;
use crate::errors::K1Error;
use crate::instructions::deposit::deposit_plan;
use crate::instructions::pause::paused_vault;
use crate::instructions::unpause::unpaused_vault;
use crate::instructions::token_ops::TokenOp;
use crate::instructions::update_offchain_nav::update_offchain_nav_plan;
use crate::instructions::withdraw::withdraw_plan;
use crate::state::vault::{
    assets_sum, fee_of, fee_split_result, performance_fee_result, total_assets_result, Vault,
};

verus! {

/// The net change of the share supply that a list of token operations makes:
/// what they mint, less what they burn.
pub open spec fn share_supply_change(ops: Seq<TokenOp>) -> int
    decreases ops.len(),
{
    if ops.len() == 0 {
        0
    } else {
        share_supply_change(ops.drop_last()) + op_supply_change(ops.last())
    }
}

/// The change of the share supply that one token operation makes.
pub open spec fn op_supply_change(op: TokenOp) -> int {
    match op {
        TokenOp::MintToUser { amount } => amount as int,
        TokenOp::MintToTreasury { amount } => amount as int,
        TokenOp::Burn { amount } => -amount,
        TokenOp::Transfer { .. } => 0,
    }
}

proof fn lemma_supply_change_of_short(ops: Seq<TokenOp>)
    requires
        ops.len() <= 3,
    ensures
        ops.len() == 1 ==> share_supply_change(ops) == op_supply_change(ops[0]),
        ops.len() == 2 ==> share_supply_change(ops) == op_supply_change(ops[0])
            + op_supply_change(ops[1]),
        ops.len() == 3 ==> share_supply_change(ops) == op_supply_change(ops[0])
            + op_supply_change(ops[1]) + op_supply_change(ops[2]),
    decreases ops.len(),
{
    reveal_with_fuel(share_supply_change, 2);
    if ops.len() > 0 {
        lemma_supply_change_of_short(ops.drop_last());
        if ops.len() == 1 {
            assert(ops.drop_last() =~= Seq::<TokenOp>::empty());
        }
    }
}

/// Dividing with rounding down never gives back more than was divided.
proof fn lemma_floor_div(x: int, d: int)
    requires
        0 <= x,
        0 < d,
    ensures
        0 <= x / d <= x,
        (x / d) * d <= x,
{
    assert(x / d <= x) by {
        vstd::arithmetic::div_mod::lemma_div_is_ordered_by_denominator(x, 1, d);
    }
    lemma_fundamental_div_mod(x, d);
    lemma_mod_pos_bound(x, d);
    lemma_div_pos_is_pos(x, d);
    lemma_mul_is_commutative(x / d, d);
}

/// A fee split keeps every unit: what the owner keeps and the fee add up to the
/// amount; the fee rounds down, so it is at most `bps` basis points of the
/// amount; and with a fee of at most 100% the split fails only when
/// `amount * bps` does not fit in 128 bits.
pub proof fn lemma_fee_split_conserves(amount: u128, bps: u16)
    ensures
        fee_split_result(amount as int, bps as int) matches Ok((kept, fee)) ==> kept + fee
            == amount && fee * BPS_DENOMINATOR <= amount * bps,
        bps <= BPS_DENOMINATOR && amount * bps <= u128::MAX ==> fee_split_result(
            amount as int,
            bps as int,
        ) is Ok,
{
    let p = amount * bps;
    lemma_floor_div(p, BPS_DENOMINATOR as int);
    if bps <= BPS_DENOMINATOR {
        assert(p <= amount * BPS_DENOMINATOR) by (nonlinear_arith)
            requires
                p == amount * bps,
                bps <= BPS_DENOMINATOR,
                amount >= 0,
        ;
        assert(fee_of(amount as int, bps as int) <= amount) by (nonlinear_arith)
            requires
                fee_of(amount as int, bps as int) * BPS_DENOMINATOR <= p,
                p <= amount * BPS_DENOMINATOR,
        ;
    }
}

/// A deposit never lowers the assets behind each existing share: with shares
/// already out, the assets per share after the deposit are at least those
/// before it.
pub proof fn lemma_deposit_does_not_dilute(v: Vault, idle_assets: u64, amount: u64)
    requires
        v.total_shares > 0,
        deposit_plan(v, idle_assets as int, amount as int).1 is Ok,
    ensures
        ({
            let after = deposit_plan(v, idle_assets as int, amount as int).1->Ok_0;
            let before = assets_sum(v, idle_assets as int);
            before * after.total_shares <= (before + amount) * v.total_shares
        }),
{
    let before = assets_sum(v, idle_assets as int);
    let after = deposit_plan(v, idle_assets as int, amount as int).1->Ok_0;
    let ts = v.total_shares as int;
    let shares = amount * ts / before;
    lemma_floor_div(amount * ts, before);
    assert(after.total_shares == ts + shares);
    assert(before * (ts + shares) <= (before + amount) * ts) by (nonlinear_arith)
        requires
            shares * before <= amount * ts,
    ;
}

/// A withdrawal never pays out more than the burned shares' part of the
/// vault's assets, nor more than its treasury holds.
pub proof fn lemma_withdraw_pays_at_most_share(v: Vault, idle_assets: u64, shares: u64)
    requires
        withdraw_plan(v, idle_assets as int, shares as int).1 is Ok,
    ensures
        ({
            let ops = withdraw_plan(v, idle_assets as int, shares as int).0;
            &&& ops[0] == TokenOp::Burn { amount: shares }
            &&& ops[1] matches TokenOp::Transfer { amount: paid } && paid * v.total_shares
                <= shares * assets_sum(v, idle_assets as int) && paid <= idle_assets
        }),
{
    let total = assets_sum(v, idle_assets as int);
    let ts = v.total_shares as int;
    let out = shares * total / ts;
    lemma_floor_div(shares * total, ts);
    let ops = withdraw_plan(v, idle_assets as int, shares as int).0;
    let fee = fee_of(out, v.withdrawal_fee_bps as int);
    assert(fee >= 0) by {
        lemma_floor_div(out * v.withdrawal_fee_bps, BPS_DENOMINATOR as int);
    }
    assert(ops[1] == TokenOp::Transfer { amount: (out - fee) as u64 });
    assert((out - fee) * ts <= shares * total) by (nonlinear_arith)
        requires
            out * ts <= shares * total,
            fee >= 0,
            ts > 0,
    ;
}

/// Depositing and then at once withdrawing the shares received never pays out
/// more than was deposited. This needs the vault either to have shares out or
/// to hold nothing: assets left in a vault without shares go to the first
/// depositor.
pub proof fn lemma_deposit_then_withdraw_never_profits(
    v: Vault,
    idle_assets: u64,
    amount: u64,
    user_shares: u64,
)
    requires
        v.total_shares > 0 || assets_sum(v, idle_assets as int) == 0,
        deposit_plan(v, idle_assets as int, amount as int).1 is Ok,
        deposit_plan(v, idle_assets as int, amount as int).0[1] == (TokenOp::MintToUser {
            amount: user_shares,
        }),
    ensures
        ({
            let after = deposit_plan(v, idle_assets as int, amount as int).1->Ok_0;
            let back = withdraw_plan(after, idle_assets + amount, user_shares as int);
            back.1 is Ok ==> (back.0[1] matches TokenOp::Transfer { amount: paid } && paid <= amount)
        }),
{
    let after = deposit_plan(v, idle_assets as int, amount as int).1->Ok_0;
    let back = withdraw_plan(after, idle_assets + amount, user_shares as int);
    let before = assets_sum(v, idle_assets as int);
    let ts = v.total_shares as int;
    let shares = after.total_shares - ts;
    assert(assets_sum(after, idle_assets + amount) == before + amount);
    // The user's shares are part of those minted.
    let minted = if ts == 0 {
        amount * 1_000_000_000 / 1_000_000int
    } else {
        amount * ts / before
    };
    assert(shares == minted);
    let mint_fee = fee_of(minted, v.mint_fee_bps as int);
    assert(minted * v.mint_fee_bps >= 0) by (nonlinear_arith)
        requires
            minted >= 0,
    ;
    lemma_floor_div(minted * v.mint_fee_bps, BPS_DENOMINATOR as int);
    assert(user_shares == minted - mint_fee);
    // What was minted is worth no more than what was paid in.
    assert(shares * before <= amount * ts) by {
        if ts == 0 {
            assert(before == 0);
        } else {
            lemma_floor_div(amount * ts, before);
        }
    }
    if back.1 is Ok {
        let total_after = before + amount;
        let ts_after = ts + shares;
        let out = user_shares * total_after / ts_after;
        assert(ts_after > 0);
        lemma_floor_div(user_shares * total_after, ts_after);
        assert(user_shares * total_after <= amount * ts_after) by (nonlinear_arith)
            requires
                0 <= user_shares <= shares,
                shares * before <= amount * ts,
                total_after == before + amount,
                ts_after == ts + shares,
                before >= 0,
                amount >= 0,
        ;
        assert(out <= amount) by (nonlinear_arith)
            requires
                out * ts_after <= user_shares * total_after,
                user_shares * total_after <= amount * ts_after,
                ts_after > 0,
        ;
        let fee = fee_of(out, after.withdrawal_fee_bps as int);
        assert(out >= 0) by {
            lemma_floor_div(user_shares * total_after, ts_after);
        }
        lemma_floor_div(out * after.withdrawal_fee_bps, BPS_DENOMINATOR as int);
        assert(back.0[1] == TokenOp::Transfer { amount: (out - fee) as u64 });
    }
}

/// The performance fee never lowers the high-water mark, always records the
/// last total, charges nothing at or below the mark, charges at most the profit
/// when the fee is at most 100%, and mints fee shares worth no more than the fee
/// at the price after the mint.
pub proof fn lemma_performance_fee_bounds(v: Vault, total_assets: u128)
    requires
        performance_fee_result(v, total_assets as int) is Ok,
    ensures
        ({
            let (fee_shares, after) = performance_fee_result(v, total_assets as int)->Ok_0;
            &&& after.high_water_mark >= v.high_water_mark
            &&& after.last_total_assets == total_assets
            &&& after.total_shares == v.total_shares + fee_shares
            &&& total_assets <= v.high_water_mark ==> fee_shares == 0 && after
                == Vault { last_total_assets: total_assets, ..v }
            &&& total_assets > v.high_water_mark && v.performance_fee_bps <= BPS_DENOMINATOR
                ==> fee_of(total_assets - v.high_water_mark, v.performance_fee_bps as int)
                <= total_assets - v.high_water_mark
            &&& total_assets > v.high_water_mark ==> fee_shares * total_assets <= fee_of(
                total_assets - v.high_water_mark,
                v.performance_fee_bps as int,
            ) * after.total_shares
        }),
{
    if total_assets > v.high_water_mark {
        let profit = total_assets - v.high_water_mark;
        let fee = fee_of(profit, v.performance_fee_bps as int);
        assert(profit * v.performance_fee_bps >= 0) by (nonlinear_arith)
            requires
                profit >= 0,
        ;
        lemma_floor_div(profit * v.performance_fee_bps, BPS_DENOMINATOR as int);
        if v.performance_fee_bps <= BPS_DENOMINATOR {
            assert(fee <= profit) by (nonlinear_arith)
                requires
                    fee * BPS_DENOMINATOR <= profit * v.performance_fee_bps,
                    v.performance_fee_bps <= BPS_DENOMINATOR,
                    profit >= 0,
            ;
        }
        assert(fee * v.total_shares >= 0) by (nonlinear_arith)
            requires
                fee >= 0,
        ;
        if fee != 0 && v.total_shares != 0 {
            let ts = v.total_shares as int;
            let rest = total_assets - fee;
            let fee_shares = fee * ts / rest;
            lemma_floor_div(fee * ts, rest);
            assert(fee_shares * total_assets <= fee * (ts + fee_shares)) by (nonlinear_arith)
                requires
                    fee_shares * rest <= fee * ts,
                    rest == total_assets - fee,
                    fee >= 0,
                    fee_shares >= 0,
            ;
        }
    }
}

/// The same profit is never charged twice: charging the performance fee again
/// on the total it was just charged on charges nothing and changes nothing.
pub proof fn lemma_performance_fee_charged_once(v: Vault, total_assets: u128)
    requires
        performance_fee_result(v, total_assets as int) is Ok,
    ensures
        ({
            let after = performance_fee_result(v, total_assets as int)->Ok_0.1;
            performance_fee_result(after, total_assets as int) == Ok::<(u128, Vault), K1Error>(
                (0, after),
            )
        }),
{
    lemma_performance_fee_bounds(v, total_assets);
    let after = performance_fee_result(v, total_assets as int)->Ok_0.1;
    assert(after.high_water_mark >= total_assets);
}

/// The vault's share count moves exactly as the share supply does: after a
/// successful deposit, withdrawal or net asset value report, the recorded total
/// has changed by what the instruction minted less what it burned.
pub proof fn lemma_share_count_tracks_supply(v: Vault, idle_assets: u64, amount: u64, value: u128)
    ensures
        deposit_plan(v, idle_assets as int, amount as int).1 is Ok ==> deposit_plan(
            v,
            idle_assets as int,
            amount as int,
        ).1->Ok_0.total_shares == v.total_shares + share_supply_change(
            deposit_plan(v, idle_assets as int, amount as int).0,
        ),
        withdraw_plan(v, idle_assets as int, amount as int).1 is Ok ==> withdraw_plan(
            v,
            idle_assets as int,
            amount as int,
        ).1->Ok_0.total_shares == v.total_shares + share_supply_change(
            withdraw_plan(v, idle_assets as int, amount as int).0,
        ),
        update_offchain_nav_plan(v, idle_assets as int, value).1 is Ok
            ==> update_offchain_nav_plan(v, idle_assets as int, value).1->Ok_0.total_shares
            == v.total_shares + share_supply_change(
            update_offchain_nav_plan(v, idle_assets as int, value).0,
        ),
{
    let d = deposit_plan(v, idle_assets as int, amount as int);
    lemma_supply_change_of_short(d.0);
    let w = withdraw_plan(v, idle_assets as int, amount as int);
    lemma_supply_change_of_short(w.0);
    let n = update_offchain_nav_plan(v, idle_assets as int, value);
    lemma_supply_change_of_short(n.0);
}

/// A paused vault refuses deposits and withdrawals before any token moves and
/// without change; unpausing a vault that was running before it was paused
/// gives back the same vault.
pub proof fn lemma_pause_blocks_operations(v: Vault, idle_assets: u64, amount: u64)
    ensures
        deposit_plan(paused_vault(v), idle_assets as int, amount as int) == (
            Seq::<TokenOp>::empty(),
            Err::<Vault, K1Error>(K1Error::VaultPaused),
        ),
        withdraw_plan(paused_vault(v), idle_assets as int, amount as int) == (
            Seq::<TokenOp>::empty(),
            Err::<Vault, K1Error>(K1Error::VaultPaused),
        ),
        !v.paused ==> unpaused_vault(paused_vault(v)) == v,
{
}

/// More value reported by the strategies never lowers the vault's total assets:
/// raising the strategy sum raises the total by as much, when it fits.
pub proof fn lemma_total_assets_monotone(v: Vault, idle_assets: u64, strategy_value_sum: u128)
    requires
        strategy_value_sum >= v.strategy_value_sum,
        total_assets_result(
            Vault { strategy_value_sum, ..v },
            idle_assets as int,
        ) is Ok,
    ensures
        total_assets_result(v, idle_assets as int) is Ok,
        total_assets_result(Vault { strategy_value_sum, ..v }, idle_assets as int)->Ok_0
            == total_assets_result(v, idle_assets as int)->Ok_0 + (strategy_value_sum
            - v.strategy_value_sum),
{
}

} // verus!

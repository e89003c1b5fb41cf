//! What each instruction does, stated as relations between its inputs and its
//! results.
use vstd::prelude::*;

use crate::errors::K1Error;
use crate::instructions::add_strategy::{new_strategy, strategy_added};
use crate::instructions::deactivate_strategy::deactivated;
use crate::instructions::deallocate::deallocate_plan;
use crate::instructions::deposit::deposit_plan;
use crate::instructions::update_offchain_nav::update_offchain_nav_plan;
use crate::instructions::withdraw::withdraw_plan;
use crate::laws::lemma_fee_split_conserves;
use crate::instructions::emergency_withdraw_strategy::emergency_withdraw_plan;
use crate::instructions::initialize_vault::{new_vault, InitializeVaultArgs, VaultKeys};
use crate::instructions::pause::paused_vault;
use crate::instructions::token_ops::TokenOp;
use crate::instructions::unpause::unpaused_vault;
use crate::instructions::update_fees::{with_fees, UpdateFeesArgs};
use crate::state::strategy::StrategyState;
use crate::state::vault::{fee_of, fees_valid, Key, Vault};
use crate::vault_laws::{
    is_floor_quotient, lemma_deposit_shares_priced, lemma_fee_shares_priced,
    lemma_fee_split_rounds_down, lemma_performance_fee_characterized, lemma_total_assets_is_sum,
    lemma_withdraw_assets_priced,
};

verus! {

/// Paying back from a strategy always asks for exactly one transfer of the
/// amount. It succeeds exactly when the amount is at most what was lent, and
/// then lowers what was lent by the amount and changes nothing else; otherwise
/// it fails with an overflow.
pub proof fn lemma_deallocate_pays_back(s: StrategyState, amount: u64)
    ensures
        deallocate_plan(s, amount).0 == seq![TokenOp::Transfer { amount }],
        deallocate_plan(s, amount).1 is Ok <==> amount <= s.allocated_assets,
        deallocate_plan(s, amount).1 matches Ok(after) ==> after.allocated_assets + amount
            == s.allocated_assets && (StrategyState {
            allocated_assets: s.allocated_assets,
            ..after
        }) == s,
        deallocate_plan(s, amount).1 matches Err(e) ==> e == K1Error::MathOverflow,
{
}

/// An emergency withdrawal always asks for exactly one transfer of the amount,
/// whether the strategy is active or not. It succeeds exactly when the
/// strategy's last reported value is part of the vault's strategy sum; then
/// that value leaves the sum, and the strategy ends inactive with nothing lent
/// and nothing reported, everything else unchanged.
pub proof fn lemma_emergency_withdraw_shuts_strategy(v: Vault, s: StrategyState, amount: u64)
    ensures
        emergency_withdraw_plan(v, s, amount).0 == seq![TokenOp::Transfer { amount }],
        emergency_withdraw_plan(v, s, amount).1 is Ok <==> s.last_reported_value
            <= v.strategy_value_sum,
        emergency_withdraw_plan(v, s, amount).1 matches Ok((v2, s2)) ==> {
            &&& v2.strategy_value_sum + s.last_reported_value == v.strategy_value_sum
            &&& (Vault { strategy_value_sum: v.strategy_value_sum, ..v2 }) == v
            &&& !s2.active
            &&& s2.allocated_assets == 0
            &&& s2.last_reported_value == 0
            &&& s2.strategy_program == s.strategy_program
            &&& s2.strategy_treasury == s.strategy_treasury
            &&& s2.bump == s.bump
        },
        emergency_withdraw_plan(v, s, amount).1 matches Err(e) ==> e == K1Error::MathOverflow,
{
}

/// Pausing sets the flag and nothing else; unpausing clears it and nothing
/// else; each undoes the other.
pub proof fn lemma_pause_flags_only(v: Vault)
    ensures
        paused_vault(v).paused,
        !unpaused_vault(v).paused,
        (Vault { paused: v.paused, ..paused_vault(v) }) == v,
        (Vault { paused: v.paused, ..unpaused_vault(v) }) == v,
        unpaused_vault(paused_vault(v)) == unpaused_vault(v),
        paused_vault(unpaused_vault(v)) == paused_vault(v),
{
}

/// A vault's fees are valid exactly when each is at most 10 000 basis points.
pub proof fn lemma_fees_valid_bounds(v: Vault)
    ensures
        fees_valid(v) <==> (v.mint_fee_bps <= 10_000 && v.withdrawal_fee_bps <= 10_000
            && v.performance_fee_bps <= 10_000),
{
}

/// Setting the fees takes the three fees of the payload and changes nothing
/// else.
pub proof fn lemma_fee_update_sets_fees(v: Vault, args: UpdateFeesArgs)
    ensures
        with_fees(v, args).mint_fee_bps == args.mint_fee_bps,
        with_fees(v, args).withdrawal_fee_bps == args.withdrawal_fee_bps,
        with_fees(v, args).performance_fee_bps == args.performance_fee_bps,
        (Vault {
            mint_fee_bps: v.mint_fee_bps,
            withdrawal_fee_bps: v.withdrawal_fee_bps,
            performance_fee_bps: v.performance_fee_bps,
            ..with_fees(v, args)
        }) == v,
{
}

/// A new vault records the given addresses, bump and fees, has no shares, no
/// value outside its treasury, no high-water mark, no strategies, and runs.
pub proof fn lemma_new_vault_is_empty(keys: VaultKeys, bump: u8, args: InitializeVaultArgs)
    ensures
        ({
            let v = new_vault(keys, bump, args);
            &&& v.usdc_mint == keys.usdc_mint && v.share_mint == keys.share_mint
            &&& v.treasury == keys.treasury && v.governance == keys.governance
            &&& v.reporter == keys.reporter && v.bump == bump
            &&& v.mint_fee_bps == args.mint_fee_bps
            &&& v.withdrawal_fee_bps == args.withdrawal_fee_bps
            &&& v.performance_fee_bps == args.performance_fee_bps
            &&& v.total_shares == 0 && v.offchain_nav == 0 && v.strategy_value_sum == 0
            &&& v.high_water_mark == 0 && v.last_total_assets == 0
            &&& !v.paused && v.strategy_count == 0
        }),
{
}

/// A new strategy is active, records its program, treasury and bump, and has
/// nothing lent and nothing reported; adding it counts one more strategy,
/// stopping at 255, and changes nothing else in the vault; deactivating a
/// strategy clears its flag and nothing else.
pub proof fn lemma_strategy_records(
    v: Vault,
    s: StrategyState,
    strategy_program: Key,
    strategy_treasury: Key,
    bump: u8,
)
    ensures
        ({
            let n = new_strategy(strategy_program, strategy_treasury, bump);
            &&& n.active && n.allocated_assets == 0 && n.last_reported_value == 0
            &&& n.strategy_program == strategy_program
            &&& n.strategy_treasury == strategy_treasury && n.bump == bump
        }),
        v.strategy_count < 255 ==> strategy_added(v).strategy_count == v.strategy_count + 1,
        v.strategy_count == 255 ==> strategy_added(v).strategy_count == 255,
        (Vault { strategy_count: v.strategy_count, ..strategy_added(v) }) == v,
        !deactivated(s).active,
        (StrategyState { active: s.active, ..deactivated(s) }) == s,
{
}

/// The number of units a token operation moves, mints or burns.
pub open spec fn op_amount(op: TokenOp) -> int {
    match op {
        TokenOp::Transfer { amount } => amount as int,
        TokenOp::MintToUser { amount } => amount as int,
        TokenOp::MintToTreasury { amount } => amount as int,
        TokenOp::Burn { amount } => amount as int,
    }
}

/// A net asset value report records the reported value as the off-chain value,
/// replacing the one before, and records the new total (idle + strategies +
/// reported value) as the last total. Above the high-water mark the mark moves
/// up to the total and the performance fee is charged: `performance_fee_bps` of
/// the profit rounded down, paid in the shares worth it after they are minted,
/// rounded down, which are minted to the treasury and added to the supply.
/// Nothing else changes. At or below the mark, when the total fits, the report
/// always succeeds and mints nothing. A total that does not fit is an overflow
/// before any token moves; no failure moves tokens.
pub proof fn lemma_nav_report_records_value(v: Vault, idle_assets: u64, value: u128)
    ensures
        ({
            let r = update_offchain_nav_plan(v, idle_assets as int, value);
            let total = idle_assets + v.strategy_value_sum + value;
            &&& total > u128::MAX ==> r == (
                Seq::<TokenOp>::empty(),
                Err::<Vault, K1Error>(K1Error::MathOverflow),
            )
            &&& r.1 is Err ==> r.0.len() == 0
            &&& r.1 matches Ok(after) ==> {
                &&& after.offchain_nav == value
                &&& after.last_total_assets == total
                &&& after.high_water_mark == if total > v.high_water_mark {
                    total
                } else {
                    v.high_water_mark as int
                }
                &&& after.total_shares >= v.total_shares
                &&& after.total_shares - v.total_shares <= u64::MAX
                &&& (Vault {
                    offchain_nav: v.offchain_nav,
                    total_shares: v.total_shares,
                    high_water_mark: v.high_water_mark,
                    last_total_assets: v.last_total_assets,
                    ..after
                }) == v
                &&& after.total_shares == v.total_shares ==> r.0.len() == 0
                &&& after.total_shares > v.total_shares ==> r.0 == seq![
                    TokenOp::MintToTreasury {
                        amount: (after.total_shares - v.total_shares) as u64,
                    },
                ]
                &&& total <= v.high_water_mark ==> after.total_shares == v.total_shares
                &&& total > v.high_water_mark ==> {
                    let fee = fee_of(total - v.high_water_mark, v.performance_fee_bps as int);
                    &&& (fee == 0 || v.total_shares == 0) ==> after.total_shares == v.total_shares
                    &&& (fee > 0 && v.total_shares > 0) ==> is_floor_quotient(
                        after.total_shares - v.total_shares,
                        fee * v.total_shares,
                        total - fee,
                    )
                }
            }
            &&& total <= u128::MAX && total <= v.high_water_mark ==> r.1 is Ok && r.0.len() == 0
            &&& total <= u128::MAX && total > v.high_water_mark ==> {
                let profit = total - v.high_water_mark;
                let fee = fee_of(profit, v.performance_fee_bps as int);
                (profit * v.performance_fee_bps <= u128::MAX && fee < total && fee
                    * v.total_shares <= u64::MAX && v.total_shares + fee * v.total_shares
                    <= u128::MAX) ==> r.1 is Ok
            }
        }),
{
    let reported = Vault { offchain_nav: value, ..v };
    lemma_total_assets_is_sum(reported, idle_assets);
    let total = idle_assets + v.strategy_value_sum + value;
    if total <= u128::MAX {
        lemma_performance_fee_characterized(reported, total as u128);
        if total > v.high_water_mark {
            let pr = crate::state::vault::performance_fee_result(reported, total);
            let fee = fee_of(total - v.high_water_mark, v.performance_fee_bps as int);
            if pr is Ok && fee > 0 && v.total_shares > 0 && fee * v.total_shares <= u64::MAX {
                let fs = pr->Ok_0.0;
                assert(fs <= fee * v.total_shares) by (nonlinear_arith)
                    requires
                        fs * (total - fee) <= fee * v.total_shares,
                        total - fee >= 1,
                        fs >= 0,
                ;
            }
        }
    }
}

/// A deposit of `amount` refuses a paused vault before any token moves. When
/// it succeeds it first transfers the amount in, then mints the depositor's
/// shares, then the mint fee's shares to the treasury when there are any. The
/// shares minted in all are 1000 per asset unit into a vault without shares,
/// and otherwise the share of the supply that the amount is of the assets
/// before it, rounded down; the fee is `mint_fee_bps` of them, rounded down.
/// The supply grows by the shares minted; a vault without a high-water mark
/// takes the assets after the deposit as its mark; nothing else changes. It
/// succeeds whenever the vault runs, the mint fee is at most 100% and nothing
/// overflows.
pub proof fn lemma_deposit_characterized(v: Vault, idle_assets: u64, amount: u64)
    ensures
        ({
            let r = deposit_plan(v, idle_assets as int, amount as int);
            let before = idle_assets + v.strategy_value_sum + v.offchain_nav;
            &&& v.paused ==> r == (
                Seq::<TokenOp>::empty(),
                Err::<Vault, K1Error>(K1Error::VaultPaused),
            )
            &&& r.1 matches Ok(after) ==> {
                &&& !v.paused
                &&& r.0.len() == 2 || r.0.len() == 3
                &&& r.0[0] == TokenOp::Transfer { amount }
                &&& r.0[1] is MintToUser
                &&& r.0.len() == 3 ==> r.0[2] is MintToTreasury && op_amount(r.0[2]) > 0
                &&& {
                    let fee = if r.0.len() == 3 {
                        op_amount(r.0[2])
                    } else {
                        0
                    };
                    let shares = op_amount(r.0[1]) + fee;
                    &&& after.total_shares == v.total_shares + shares
                    &&& v.total_shares == 0 ==> shares == amount * 1000
                    &&& v.total_shares > 0 ==> is_floor_quotient(
                        shares,
                        amount * v.total_shares,
                        before,
                    )
                    &&& is_floor_quotient(fee, shares * v.mint_fee_bps, 10_000)
                }
                &&& after.high_water_mark == if v.high_water_mark == 0 {
                    before + amount
                } else {
                    v.high_water_mark as int
                }
                &&& (Vault {
                    total_shares: v.total_shares,
                    high_water_mark: v.high_water_mark,
                    ..after
                }) == v
            }
            &&& r.1 == Err::<Vault, K1Error>(K1Error::VaultPaused) <==> v.paused
            &&& (!v.paused && before > u128::MAX) ==> r == (
                Seq::<TokenOp>::empty(),
                Err::<Vault, K1Error>(K1Error::MathOverflow),
            )
            &&& (!v.paused && before <= u128::MAX && v.total_shares > 0 && amount * v.total_shares
                > u128::MAX) ==> r == (
                Seq::<TokenOp>::empty(),
                Err::<Vault, K1Error>(K1Error::MathOverflow),
            )
            &&& r.1 == Err::<Vault, K1Error>(K1Error::DivisionByZero) <==> (!v.paused && before
                == 0 && v.total_shares > 0 && amount * v.total_shares <= u128::MAX)
            &&& (r.1 is Err && r.0.len() > 0) ==> r.0[0] == TokenOp::Transfer { amount } && r.1
                == Err::<Vault, K1Error>(K1Error::MathOverflow)
            &&& (!v.paused && v.mint_fee_bps <= 10_000 && before + amount <= u128::MAX && if v.total_shares
                == 0 {
                amount * 1000 <= u64::MAX
            } else {
                before > 0 && amount * v.total_shares <= u64::MAX && v.total_shares + amount
                    * v.total_shares <= u128::MAX
            }) ==> r.1 is Ok
        }),
{
    let before = idle_assets + v.strategy_value_sum + v.offchain_nav;
    lemma_total_assets_is_sum(v, idle_assets);
    if !v.paused && before <= u128::MAX {
        lemma_deposit_shares_priced(v, amount, before as u128);
        crate::vault_laws::lemma_mul_div_rounds_down(amount as u128, v.total_shares, before as u128);
        let sr = crate::state::vault::deposit_shares_result(v, amount as int, before);
        if sr is Ok {
            let s = sr->Ok_0;
            lemma_fee_split_rounds_down(s, v.mint_fee_bps);
            lemma_fee_split_conserves(s, v.mint_fee_bps);
            if v.total_shares > 0 && before > 0 && amount * v.total_shares <= u64::MAX {
                assert(s <= amount * v.total_shares) by (nonlinear_arith)
                    requires
                        s * before <= amount * v.total_shares,
                        before >= 1,
                        s >= 0,
                ;
            }
            if s <= u64::MAX && v.mint_fee_bps <= 10_000 {
                assert(s * v.mint_fee_bps <= u128::MAX) by (nonlinear_arith)
                    requires
                        s <= u64::MAX,
                        v.mint_fee_bps <= 10_000,
                        s >= 0,
                ;
            }
        }
    }
}

/// A withdrawal of `shares` refuses a paused vault before any token moves, and
/// a payout larger than the idle treasury before any token moves. When it
/// succeeds it first burns the shares, then transfers the payout, which is at
/// most what the treasury holds, then mints fee shares to the treasury when
/// there are any. The payout before the fee is the burned shares' part of the
/// assets, rounded down; the fee is `withdrawal_fee_bps` of it, rounded down,
/// and stays in the vault; the fee shares are the shares worth the fee once the
/// payout has left, rounded down. The supply loses the burned shares and gains
/// the fee shares; nothing else changes.
pub proof fn lemma_withdraw_characterized(v: Vault, idle_assets: u64, shares: u64)
    ensures
        ({
            let r = withdraw_plan(v, idle_assets as int, shares as int);
            let total = idle_assets + v.strategy_value_sum + v.offchain_nav;
            &&& v.paused ==> r == (
                Seq::<TokenOp>::empty(),
                Err::<Vault, K1Error>(K1Error::VaultPaused),
            )
            &&& r.1 == Err::<Vault, K1Error>(K1Error::InsufficientLiquidity) ==> r.0.len() == 0
            &&& r.1 matches Ok(after) ==> {
                &&& !v.paused
                &&& r.0.len() == 2 || r.0.len() == 3
                &&& r.0[0] == TokenOp::Burn { amount: shares }
                &&& r.0[1] is Transfer
                &&& op_amount(r.0[1]) <= idle_assets
                &&& r.0.len() == 3 ==> r.0[2] is MintToTreasury && op_amount(r.0[2]) > 0
                &&& {
                    let paid = op_amount(r.0[1]);
                    let fee_shares = if r.0.len() == 3 {
                        op_amount(r.0[2])
                    } else {
                        0
                    };
                    &&& after.total_shares == v.total_shares - shares + fee_shares
                    &&& exists|out: int|
                        #[trigger] is_floor_quotient(out, shares * total, v.total_shares as int)
                            && is_floor_quotient(out - paid, out * v.withdrawal_fee_bps, 10_000)
                            && (out - paid == 0 ==> fee_shares == 0) && (out - paid > 0 ==> out
                            < total && is_floor_quotient(
                            fee_shares,
                            (out - paid) * v.total_shares,
                            total - out,
                        ))
                }
                &&& (Vault { total_shares: v.total_shares, ..after }) == v
            }
            &&& r.1 == Err::<Vault, K1Error>(K1Error::VaultPaused) <==> v.paused
            &&& (r.1 is Err && r.0.len() > 0) ==> {
                &&& r.0.len() == 2 || r.0.len() == 3
                &&& r.0[0] == TokenOp::Burn { amount: shares }
                &&& r.0[1] is Transfer
                &&& op_amount(r.0[1]) <= idle_assets
                &&& (r.1 == Err::<Vault, K1Error>(K1Error::MathOverflow) || r.1 == Err::<
                    Vault,
                    K1Error,
                >(K1Error::DivisionByZero))
            }
            &&& (!v.paused && total <= u128::MAX && v.total_shares > 0 && shares
                <= v.total_shares && shares * total <= u128::MAX && v.withdrawal_fee_bps == 0
                && shares * total <= idle_assets * v.total_shares) ==> r.1 is Ok
        }),
{
    let total = idle_assets + v.strategy_value_sum + v.offchain_nav;
    lemma_total_assets_is_sum(v, idle_assets);
    let r = withdraw_plan(v, idle_assets as int, shares as int);
    if !v.paused && total <= u128::MAX {
        lemma_withdraw_assets_priced(v, shares, total as u128);
        let wr = crate::state::vault::withdraw_assets_result(v, shares as int, total);
        if wr is Ok {
            let out = wr->Ok_0;
            lemma_fee_split_rounds_down(out, v.withdrawal_fee_bps);
            let fr = crate::state::vault::fee_split_result(out as int, v.withdrawal_fee_bps as int);
            if fr is Ok {
                let fee = fr->Ok_0.1;
                lemma_fee_shares_priced(v, fee, total as u128, out);
                if r.1 is Ok {
                    assert(is_floor_quotient(out as int, shares * total, v.total_shares as int));
                }
                if shares * total <= idle_assets * v.total_shares {
                    assert(out <= idle_assets) by (nonlinear_arith)
                        requires
                            out * v.total_shares <= shares * total,
                            shares * total <= idle_assets * v.total_shares,
                            v.total_shares > 0,
                    ;
                }
            }
        }
    }
}

} // verus!

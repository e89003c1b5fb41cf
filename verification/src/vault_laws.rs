//! What the vault's arithmetic computes, stated as relations between its
//! inputs and its results: sums are exact, quotients round down, and fees are
//! taken in basis points.
use vstd::prelude::*;

use vstd::arithmetic::div_mod::{lemma_div_multiples_vanish, lemma_fundamental_div_mod, lemma_mod_pos_bound};

use crate::errors::K1Error;
use crate::state::vault::{
    deposit_shares_result, fee_of, fee_shares_result, fee_split_result, mul_div_result,
    performance_fee_result, share_price_result, total_assets_result, withdraw_assets_result, Vault,
};

verus! {

/// `q` is `n / d` rounded down: `q` whole `d`s fit in `n`, and one more does not.
pub open spec fn is_floor_quotient(q: int, n: int, d: int) -> bool {
    q * d <= n < (q + 1) * d
}

/// Integer division rounds down.
pub proof fn lemma_div_is_floor_quotient(n: int, d: int)
    requires
        0 <= n,
        0 < d,
    ensures
        is_floor_quotient(n / d, n, d),
        0 <= n / d,
{
    lemma_fundamental_div_mod(n, d);
    lemma_mod_pos_bound(n, d);
    let q = n / d;
    let r = n % d;
    assert(q * d <= n < (q + 1) * d) by (nonlinear_arith)
        requires
            n == d * q + r,
            0 <= r < d,
    ;
    assert(q >= 0) by (nonlinear_arith)
        requires
            n == d * q + r,
            0 <= r < d,
            n >= 0,
    ;
}

/// Only one number is the rounded-down quotient.
pub proof fn lemma_floor_quotient_unique(q1: int, q2: int, n: int, d: int)
    requires
        0 < d,
        is_floor_quotient(q1, n, d),
        is_floor_quotient(q2, n, d),
    ensures
        q1 == q2,
{
    if q1 < q2 {
        assert((q1 + 1) * d <= q2 * d) by (nonlinear_arith)
            requires
                q1 + 1 <= q2,
                d > 0,
        ;
    } else if q2 < q1 {
        assert((q2 + 1) * d <= q1 * d) by (nonlinear_arith)
            requires
                q2 + 1 <= q1,
                d > 0,
        ;
    }
}

/// Checked `a * b / d` succeeds exactly when the product fits and the divisor
/// is not zero, and then rounds the quotient down; an overflowing product is an
/// overflow, a zero divisor a division by zero.
pub proof fn lemma_mul_div_rounds_down(a: u128, b: u128, d: u128)
    ensures
        mul_div_result(a as int, b as int, d as int) is Ok <==> (a * b <= u128::MAX && d != 0),
        a * b > u128::MAX ==> mul_div_result(a as int, b as int, d as int) == Err::<u128, K1Error>(
            K1Error::MathOverflow,
        ),
        a * b <= u128::MAX && d == 0 ==> mul_div_result(a as int, b as int, d as int) == Err::<
            u128,
            K1Error,
        >(K1Error::DivisionByZero),
        mul_div_result(a as int, b as int, d as int) matches Ok(q) ==> is_floor_quotient(
            q as int,
            a * b,
            d as int,
        ),
{
    assert(a * b >= 0) by (nonlinear_arith);
    if a * b <= u128::MAX && d != 0 {
        lemma_div_is_floor_quotient(a * b, d as int);
    }
}

/// A fee split keeps every unit and rounds the fee down: the fee is `bps`
/// basis points of the amount, rounded down, and the owner keeps the rest. It
/// succeeds exactly when `amount * bps` fits and that fee is at most the
/// amount; every failure is an overflow.
pub proof fn lemma_fee_split_rounds_down(amount: u128, bps: u16)
    ensures
        fee_split_result(amount as int, bps as int) matches Ok((kept, fee)) ==> {
            &&& kept + fee == amount
            &&& is_floor_quotient(fee as int, amount * bps, 10_000)
        },
        fee_split_result(amount as int, bps as int) is Ok <==> (amount * bps <= u128::MAX
            && amount * bps < (amount + 1) * 10_000),
        fee_split_result(amount as int, bps as int) matches Err(e) ==> e == K1Error::MathOverflow,
{
    let p = amount * bps;
    assert(p >= 0) by (nonlinear_arith)
        requires
            p == amount * bps,
            amount >= 0,
            bps >= 0,
    ;
    lemma_div_is_floor_quotient(p, 10_000);
    let f = fee_of(amount as int, bps as int);
    assert(f <= amount <==> p < (amount + 1) * 10_000) by (nonlinear_arith)
        requires
            f * 10_000 <= p < (f + 1) * 10_000,
    ;
}

/// The vault's total assets are exactly what is idle, plus the strategies' sum,
/// plus the off-chain value; the sum fails, with an overflow, exactly when it
/// does not fit.
pub proof fn lemma_total_assets_is_sum(v: Vault, idle_assets: u64)
    ensures
        total_assets_result(v, idle_assets as int) matches Ok(t) ==> t == idle_assets
            + v.strategy_value_sum + v.offchain_nav,
        total_assets_result(v, idle_assets as int) is Ok <==> idle_assets + v.strategy_value_sum
            + v.offchain_nav <= u128::MAX,
        total_assets_result(v, idle_assets as int) matches Err(e) ==> e == K1Error::MathOverflow,
{
}

/// With no shares out a share is worth exactly one unit; otherwise the price
/// is the assets per share scaled by 10^18, rounded down, and is refused only
/// when the scaled assets do not fit.
pub proof fn lemma_share_price_rounds_down(v: Vault, total_assets: u128)
    ensures
        v.total_shares == 0 ==> share_price_result(v, total_assets as int) == Ok::<u128, K1Error>(
            1_000_000_000_000_000_000,
        ),
        v.total_shares > 0 ==> (share_price_result(v, total_assets as int) is Ok <==> total_assets
            * 1_000_000_000_000_000_000int <= u128::MAX),
        v.total_shares > 0 ==> (share_price_result(v, total_assets as int) matches Ok(p)
            ==> is_floor_quotient(
            p as int,
            total_assets * 1_000_000_000_000_000_000int,
            v.total_shares as int,
        )),
{
    lemma_mul_div_rounds_down(total_assets, 1_000_000_000_000_000_000u128, v.total_shares);
}

/// The first deposit into a vault without shares mints 1000 share units per
/// asset unit (whole tokens one for one). Later deposits mint the share of the
/// supply that the amount is of the assets before it, rounded down, and succeed
/// exactly when `amount * total_shares` fits and the assets are not zero.
pub proof fn lemma_deposit_shares_priced(v: Vault, amount: u64, total_assets_before: u128)
    ensures
        v.total_shares == 0 ==> deposit_shares_result(
            v,
            amount as int,
            total_assets_before as int,
        ) == Ok::<u128, K1Error>((amount * 1000) as u128),
        v.total_shares > 0 ==> (deposit_shares_result(
            v,
            amount as int,
            total_assets_before as int,
        ) is Ok <==> amount * v.total_shares <= u128::MAX && total_assets_before > 0),
        v.total_shares > 0 ==> (deposit_shares_result(
            v,
            amount as int,
            total_assets_before as int,
        ) matches Ok(s) ==> is_floor_quotient(
            s as int,
            amount * v.total_shares,
            total_assets_before as int,
        )),
{
    lemma_div_multiples_vanish(amount * 1000, 1_000_000);
    assert(1_000_000 * (amount * 1000) == amount * 1_000_000_000int);
    lemma_mul_div_rounds_down(amount as u128, v.total_shares, total_assets_before);
}

/// Burning shares pays the part of the assets that they are of the supply,
/// rounded down; it succeeds exactly when `shares * total_assets` fits and
/// shares exist.
pub proof fn lemma_withdraw_assets_priced(v: Vault, shares: u64, total_assets: u128)
    ensures
        withdraw_assets_result(v, shares as int, total_assets as int) is Ok <==> (shares
            * total_assets <= u128::MAX && v.total_shares > 0),
        withdraw_assets_result(v, shares as int, total_assets as int) matches Ok(o)
            ==> is_floor_quotient(o as int, shares * total_assets, v.total_shares as int),
{
    lemma_mul_div_rounds_down(shares as u128, total_assets, v.total_shares);
}

/// Fee shares are the shares worth the fee once the payout has left the pool,
/// rounded down; a payout larger than the pool is an overflow.
pub proof fn lemma_fee_shares_priced(
    v: Vault,
    fee_assets: u128,
    total_assets: u128,
    assets_out: u128,
)
    ensures
        assets_out > total_assets ==> fee_shares_result(
            v,
            fee_assets as int,
            total_assets as int,
            assets_out as int,
        ) == Err::<u128, K1Error>(K1Error::MathOverflow),
        assets_out <= total_assets ==> (fee_shares_result(
            v,
            fee_assets as int,
            total_assets as int,
            assets_out as int,
        ) matches Ok(q) ==> is_floor_quotient(
            q as int,
            fee_assets * v.total_shares,
            total_assets - assets_out,
        )),
        assets_out <= total_assets ==> (fee_shares_result(
            v,
            fee_assets as int,
            total_assets as int,
            assets_out as int,
        ) is Ok <==> fee_assets * v.total_shares <= u128::MAX && assets_out < total_assets),
{
    if assets_out <= total_assets {
        lemma_mul_div_rounds_down(
            fee_assets,
            v.total_shares,
            (total_assets - assets_out) as u128,
        );
    }
}

/// The performance fee, whatever it charges, records the total as the last
/// total, moves the high-water mark up to the total when the total is above
/// it, adds the fee shares to the supply, and changes nothing else. At or
/// below the mark it always succeeds and charges nothing. Above it, the fee is
/// `performance_fee_bps` of the profit rounded down, and the fee shares are the
/// shares worth that fee at the price after they are minted, rounded down
/// (none when the fee or the supply is zero). It fails only by overflow or a
/// zero divisor, and succeeds when nothing overflows.
pub proof fn lemma_performance_fee_characterized(v: Vault, total_assets: u128)
    ensures
        performance_fee_result(v, total_assets as int) matches Ok((fee_shares, after)) ==> {
            &&& after.last_total_assets == total_assets
            &&& after.high_water_mark == if total_assets > v.high_water_mark {
                total_assets
            } else {
                v.high_water_mark
            }
            &&& after.total_shares == v.total_shares + fee_shares
            &&& (Vault {
                total_shares: v.total_shares,
                high_water_mark: v.high_water_mark,
                last_total_assets: v.last_total_assets,
                ..after
            }) == v
        },
        total_assets <= v.high_water_mark ==> performance_fee_result(
            v,
            total_assets as int,
        ) is Ok && performance_fee_result(v, total_assets as int)->Ok_0.0 == 0,
        total_assets > v.high_water_mark ==> ({
            let profit = total_assets - v.high_water_mark;
            let fee = fee_of(profit, v.performance_fee_bps as int);
            let r = performance_fee_result(v, total_assets as int);
            &&& profit * v.performance_fee_bps <= u128::MAX ==> is_floor_quotient(
                fee,
                profit * v.performance_fee_bps,
                10_000,
            )
            &&& r matches Ok((fee_shares, _)) ==> {
                &&& (fee == 0 || v.total_shares == 0) ==> fee_shares == 0
                &&& (fee > 0 && v.total_shares > 0) ==> is_floor_quotient(
                    fee_shares as int,
                    fee * v.total_shares,
                    total_assets - fee,
                )
            }
            &&& (profit * v.performance_fee_bps <= u128::MAX && fee < total_assets && fee
                * v.total_shares <= u128::MAX && v.total_shares + fee * v.total_shares
                <= u128::MAX) ==> r is Ok
        }),
        performance_fee_result(v, total_assets as int) matches Err(e) ==> (e
            == K1Error::MathOverflow || e == K1Error::DivisionByZero),
{
    if total_assets > v.high_water_mark {
        let profit = total_assets - v.high_water_mark;
        let p = profit * v.performance_fee_bps;
        assert(p >= 0) by (nonlinear_arith)
            requires
                p == profit * v.performance_fee_bps,
                profit >= 0,
                v.performance_fee_bps >= 0,
        ;
        lemma_div_is_floor_quotient(p, 10_000);
        let fee = fee_of(profit, v.performance_fee_bps as int);
        if p <= u128::MAX && fee > 0 && v.total_shares > 0 && fee < total_assets {
            let n = fee * v.total_shares;
            assert(n >= 0) by (nonlinear_arith)
                requires
                    n == fee * v.total_shares,
                    fee >= 0,
                    v.total_shares >= 0,
            ;
            if n <= u128::MAX {
                lemma_div_is_floor_quotient(n, total_assets - fee);
                assert(n / (total_assets - fee) <= n) by (nonlinear_arith)
                    requires
                        (n / (total_assets - fee)) * (total_assets - fee) <= n,
                        n / (total_assets - fee) >= 0,
                        total_assets - fee >= 1,
                ;
            }
        }
    }
}

} // verus!

use vstd::prelude::*;

use crate::constants::{ASSET_PRECISION, BPS_DENOMINATOR, PRICE_PRECISION, SHARE_PRECISION};
use crate::errors::K1Error;

verus! {

/// A 32-byte account address, held as its raw bytes.
#[derive(Debug, Clone, Copy, PartialEq, Eq)]
pub struct Key {
    pub bytes: [u8; 32],
}

/// The vault's record: who it belongs to, how many shares exist, the value it
/// holds outside its treasury, and its fee settings.
#[derive(Debug, Clone, Copy, PartialEq, Eq)]
pub struct Vault {
    pub usdc_mint: Key,
    pub share_mint: Key,
    pub treasury: Key,
    pub governance: Key,
    pub reporter: Key,
    pub total_shares: u128,
    pub offchain_nav: u128,
    pub strategy_value_sum: u128,
    pub high_water_mark: u128,
    pub last_total_assets: u128,
    pub mint_fee_bps: u16,
    pub withdrawal_fee_bps: u16,
    pub performance_fee_bps: u16,
    pub paused: bool,
    pub strategy_count: u8,
    pub bump: u8,
}

// ---------------------------------------------------------------------------
// The arithmetic of the vault, over mathematical integers.
// ---------------------------------------------------------------------------
/// `a * b / d` as checked 128-bit arithmetic computes it: the product must fit
/// in a `u128`, then the divisor must not be zero; the quotient rounds down.
pub open spec fn mul_div_result(a: int, b: int, d: int) -> Result<u128, K1Error> {
    if a * b > u128::MAX {
        Err(K1Error::MathOverflow)
    } else if d == 0 {
        Err(K1Error::DivisionByZero)
    } else {
        Ok((a * b / d) as u128)
    }
}

/// The fee of `bps` basis points on `amount`, rounded down.
pub open spec fn fee_of(amount: int, bps: int) -> int {
    amount * bps / (BPS_DENOMINATOR as int)
}

/// Splits `amount` into what its owner keeps and the fee of `bps` basis points:
/// `(amount - fee, fee)`. The product `amount * bps` must fit in a `u128`, and
/// the fee may not exceed the amount (it can only when `bps` is over 10 000).
pub open spec fn fee_split_result(amount: int, bps: int) -> Result<(u128, u128), K1Error> {
    if amount * bps > u128::MAX {
        Err(K1Error::MathOverflow)
    } else if fee_of(amount, bps) > amount {
        Err(K1Error::MathOverflow)
    } else {
        Ok(((amount - fee_of(amount, bps)) as u128, fee_of(amount, bps) as u128))
    }
}

/// Whether each fee is at most 100%.
pub open spec fn fees_valid(v: Vault) -> bool {
    &&& v.mint_fee_bps <= BPS_DENOMINATOR
    &&& v.withdrawal_fee_bps <= BPS_DENOMINATOR
    &&& v.performance_fee_bps <= BPS_DENOMINATOR
}

/// The assets the vault holds: what sits idle in its treasury, plus what its
/// strategies last reported, plus the off-chain net asset value.
pub open spec fn assets_sum(v: Vault, idle_assets: int) -> int {
    idle_assets + v.strategy_value_sum + v.offchain_nav
}

/// What `total_assets` returns: the sum, when it fits in a `u128`.
pub open spec fn total_assets_result(v: Vault, idle_assets: int) -> Result<u128, K1Error> {
    if assets_sum(v, idle_assets) > u128::MAX {
        Err(K1Error::MathOverflow)
    } else {
        Ok(assets_sum(v, idle_assets) as u128)
    }
}

/// What `share_price` returns: the assets behind one share, scaled by
/// `PRICE_PRECISION`; with no shares out, one share is worth exactly one.
pub open spec fn share_price_result(v: Vault, total_assets: int) -> Result<u128, K1Error> {
    if v.total_shares == 0 {
        Ok(PRICE_PRECISION)
    } else {
        mul_div_result(total_assets, PRICE_PRECISION as int, v.total_shares as int)
    }
}

/// What `compute_deposit_shares` returns. The first deposit converts asset
/// units to share units one for one in whole tokens; later deposits get the
/// share of the pool that `amount` is of the assets before it.
pub open spec fn deposit_shares_result(v: Vault, amount: int, total_assets_before: int) -> Result<
    u128,
    K1Error,
> {
    if v.total_shares == 0 {
        Ok((amount * SHARE_PRECISION / (ASSET_PRECISION as int)) as u128)
    } else {
        mul_div_result(amount, v.total_shares as int, total_assets_before)
    }
}

/// What `compute_withdraw_assets` returns: the part of `total_assets` that
/// `shares` are of all shares.
pub open spec fn withdraw_assets_result(v: Vault, shares: int, total_assets: int) -> Result<
    u128,
    K1Error,
> {
    mul_div_result(shares, total_assets, v.total_shares as int)
}

/// What `fee_assets_to_shares` returns: the shares that are worth `fee_assets`
/// once `assets_out` has left the pool.
pub open spec fn fee_shares_result(
    v: Vault,
    fee_assets: int,
    total_assets: int,
    assets_out: int,
) -> Result<u128, K1Error> {
    if assets_out > total_assets {
        Err(K1Error::MathOverflow)
    } else {
        mul_div_result(fee_assets, v.total_shares as int, total_assets - assets_out)
    }
}

/// What `apply_performance_fee` returns, and the vault it leaves behind.
///
/// At or below the high-water mark nothing is charged and only the last total
/// is recorded. Above it the fee is `performance_fee_bps` of the profit; it is
/// paid in new shares, so many that they are worth the fee once minted, and the
/// mark moves up to `total_assets`.
pub open spec fn performance_fee_result(v: Vault, total_assets: int) -> Result<(u128, Vault), K1Error> {
    if total_assets <= v.high_water_mark {
        Ok((0, Vault { last_total_assets: total_assets as u128, ..v }))
    } else {
        let profit = total_assets - v.high_water_mark;
        if profit * v.performance_fee_bps > u128::MAX {
            Err(K1Error::MathOverflow)
        } else {
            let fee_assets = fee_of(profit, v.performance_fee_bps as int);
            let marked = Vault {
                high_water_mark: total_assets as u128,
                last_total_assets: total_assets as u128,
                ..v
            };
            if fee_assets == 0 || v.total_shares == 0 {
                Ok((0, marked))
            } else if fee_assets > total_assets {
                Err(K1Error::MathOverflow)
            } else {
                match mul_div_result(fee_assets, v.total_shares as int, total_assets - fee_assets) {
                    Err(e) => Err(e),
                    Ok(fee_shares) => if v.total_shares + fee_shares > u128::MAX {
                        Err(K1Error::MathOverflow)
                    } else {
                        Ok(
                            (
                                fee_shares,
                                Vault {
                                    total_shares: (v.total_shares + fee_shares) as u128,
                                    ..marked
                                },
                            ),
                        )
                    },
                }
            }
        }
    }
}

// ---------------------------------------------------------------------------
// Executable helpers.
// ---------------------------------------------------------------------------
/// `a * b / d` in checked 128-bit arithmetic.
pub fn checked_mul_div(a: u128, b: u128, d: u128) -> (r: Result<u128, K1Error>)
    ensures
        r == mul_div_result(a as int, b as int, d as int),
{
    match a.checked_mul(b) {
        None => Err(K1Error::MathOverflow),
        Some(p) => match p.checked_div(d) {
            None => Err(K1Error::DivisionByZero),
            Some(q) => Ok(q),
        },
    }
}

/// Splits `amount` into what its owner keeps and a fee of `bps` basis points.
pub fn split_fee(amount: u128, bps: u16) -> (r: Result<(u128, u128), K1Error>)
    ensures
        r == fee_split_result(amount as int, bps as int),
{
    let fee = match amount.checked_mul(bps as u128) {
        None => {
            return Err(K1Error::MathOverflow);
        },
        Some(p) => p / BPS_DENOMINATOR,
    };
    match amount.checked_sub(fee) {
        None => Err(K1Error::MathOverflow),
        Some(kept) => Ok((kept, fee)),
    }
}

impl Vault {
    /// Refuses when the vault is paused.
    pub fn check_not_paused(&self) -> (r: Result<(), K1Error>)
        ensures
            r == (if self.paused {
                Err(K1Error::VaultPaused)
            } else {
                Ok(())
            }),
    {
        if self.paused {
            Err(K1Error::VaultPaused)
        } else {
            Ok(())
        }
    }

    /// The vault's total assets, given what sits idle in its treasury.
    pub fn total_assets(&self, idle_assets: u64) -> (r: Result<u128, K1Error>)
        ensures
            r == total_assets_result(*self, idle_assets as int),
    {
        let idle = idle_assets as u128;
        match idle.checked_add(self.strategy_value_sum) {
            None => Err(K1Error::MathOverflow),
            Some(s) => match s.checked_add(self.offchain_nav) {
                None => Err(K1Error::MathOverflow),
                Some(t) => Ok(t),
            },
        }
    }

    /// The price of one share, scaled by `PRICE_PRECISION`.
    pub fn share_price(&self, total_assets: u128) -> (r: Result<u128, K1Error>)
        ensures
            r == share_price_result(*self, total_assets as int),
    {
        if self.total_shares == 0 {
            return Ok(PRICE_PRECISION);
        }
        checked_mul_div(total_assets, PRICE_PRECISION, self.total_shares)
    }

    /// The shares that a deposit of `amount` mints, before the mint fee.
    pub fn compute_deposit_shares(&self, amount: u64, total_assets_before: u128) -> (r: Result<
        u128,
        K1Error,
    >)
        ensures
            r == deposit_shares_result(*self, amount as int, total_assets_before as int),
    {
        let amount_u128 = amount as u128;
        if self.total_shares == 0 {
            assert(amount_u128 * SHARE_PRECISION <= u128::MAX) by (nonlinear_arith)
                requires
                    amount_u128 <= u64::MAX,
            ;
            return checked_mul_div(amount_u128, SHARE_PRECISION, ASSET_PRECISION);
        }
        checked_mul_div(amount_u128, self.total_shares, total_assets_before)
    }

    /// Splits freshly minted shares into the depositor's and the mint fee.
    pub fn apply_mint_fee(&self, shares_to_mint: u128) -> (r: Result<(u128, u128), K1Error>)
        ensures
            r == fee_split_result(shares_to_mint as int, self.mint_fee_bps as int),
    {
        split_fee(shares_to_mint, self.mint_fee_bps)
    }

    /// The assets that burning `shares_to_burn` shares pays out, before the
    /// withdrawal fee.
    pub fn compute_withdraw_assets(&self, shares_to_burn: u64, total_assets: u128) -> (r: Result<
        u128,
        K1Error,
    >)
        ensures
            r == withdraw_assets_result(*self, shares_to_burn as int, total_assets as int),
    {
        checked_mul_div(shares_to_burn as u128, total_assets, self.total_shares)
    }

    /// Splits a payout into the user's part and the withdrawal fee.
    pub fn apply_withdraw_fee(&self, assets_out: u128) -> (r: Result<(u128, u128), K1Error>)
        ensures
            r == fee_split_result(assets_out as int, self.withdrawal_fee_bps as int),
    {
        split_fee(assets_out, self.withdrawal_fee_bps)
    }

    /// The shares worth `fee_assets` once `assets_out` has left the pool.
    pub fn fee_assets_to_shares(&self, fee_assets: u128, total_assets: u128, assets_out: u128) -> (r:
        Result<u128, K1Error>)
        ensures
            r == fee_shares_result(*self, fee_assets as int, total_assets as int, assets_out as int),
    {
        match total_assets.checked_sub(assets_out) {
            None => Err(K1Error::MathOverflow),
            Some(denominator) => checked_mul_div(fee_assets, self.total_shares, denominator),
        }
    }

    /// Charges the performance fee on the profit above the high-water mark,
    /// adds the fee shares to the supply and returns their number. On an error
    /// the vault is left as it was.
    pub fn apply_performance_fee(&mut self, total_assets: u128) -> (r: Result<u128, K1Error>)
        ensures
            match performance_fee_result(*old(self), total_assets as int) {
                Ok((fee_shares, v)) => r == Ok::<u128, K1Error>(fee_shares) && *final(self) == v,
                Err(e) => r == Err::<u128, K1Error>(e) && *final(self) == *old(self),
            },
    {
        if total_assets <= self.high_water_mark {
            self.last_total_assets = total_assets;
            return Ok(0);
        }
        let profit = total_assets - self.high_water_mark;
        let fee_assets = match profit.checked_mul(self.performance_fee_bps as u128) {
            None => {
                return Err(K1Error::MathOverflow);
            },
            Some(p) => p / BPS_DENOMINATOR,
        };
        if fee_assets == 0 || self.total_shares == 0 {
            self.high_water_mark = total_assets;
            self.last_total_assets = total_assets;
            return Ok(0);
        }
        let denominator = match total_assets.checked_sub(fee_assets) {
            None => {
                return Err(K1Error::MathOverflow);
            },
            Some(d) => d,
        };
        let fee_shares = match checked_mul_div(fee_assets, self.total_shares, denominator) {
            Err(e) => {
                return Err(e);
            },
            Ok(s) => s,
        };
        let new_total = match self.total_shares.checked_add(fee_shares) {
            None => {
                return Err(K1Error::MathOverflow);
            },
            Some(t) => t,
        };
        self.total_shares = new_total;
        self.high_water_mark = total_assets;
        self.last_total_assets = total_assets;
        Ok(fee_shares)
    }

    /// Refuses a fee above 100%.
    pub fn validate_fees(&self) -> (r: Result<(), K1Error>)
        ensures
            r == (if fees_valid(*self) {
                Ok(())
            } else {
                Err(K1Error::InvalidFeeBps)
            }),
    {
        if (self.mint_fee_bps as u128) > BPS_DENOMINATOR {
            return Err(K1Error::InvalidFeeBps);
        }
        if (self.withdrawal_fee_bps as u128) > BPS_DENOMINATOR {
            return Err(K1Error::InvalidFeeBps);
        }
        if (self.performance_fee_bps as u128) > BPS_DENOMINATOR {
            return Err(K1Error::InvalidFeeBps);
        }
        Ok(())
    }
}

} // verus!

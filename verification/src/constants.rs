use vstd::prelude::*;

verus! {

/// Decimals of the deposited asset (USDC).
pub const ASSET_DECIMALS: u8 = 6;

/// Decimals of the vault's share token.
pub const SHARE_DECIMALS: u8 = 9;

/// One whole unit of the asset, in base units.
pub const ASSET_PRECISION: u128 = 1_000_000;

/// One whole share, in base units.
pub const SHARE_PRECISION: u128 = 1_000_000_000;

/// Fixed-point scale of a share price.
pub const PRICE_PRECISION: u128 = 1_000_000_000_000_000_000;

/// Basis points in one whole (100%).
pub const BPS_DENOMINATOR: u128 = 10_000;

/// Seed of the vault account address.
pub const VAULT_SEED: &'static str = "vault";

/// Seed of the vault's asset treasury address.
pub const VAULT_TREASURY_SEED: &'static str = "vault_treasury";

/// Seed of the share mint authority address.
pub const SHARE_MINT_AUTH_SEED: &'static str = "share_mint_auth";

/// Seed of a strategy account address.
pub const STRATEGY_SEED: &'static str = "strategy";

} // verus!

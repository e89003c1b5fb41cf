use vstd::prelude::*;

use crate::errors::K1Error;
use crate::state::vault::{fees_valid, Key, Vault};

verus! {

/// The payload that creates a vault.
#[derive(Debug, Clone, Copy, PartialEq, Eq)]
pub struct InitializeVaultArgs {
    pub vault_id: u64,
    pub mint_fee_bps: u16,
    pub withdrawal_fee_bps: u16,
    pub performance_fee_bps: u16,
}

/// The addresses that a new vault records.
#[derive(Debug, Clone, Copy, PartialEq, Eq)]
pub struct VaultKeys {
    pub usdc_mint: Key,
    pub share_mint: Key,
    pub treasury: Key,
    pub governance: Key,
    pub reporter: Key,
}

/// A new vault: no shares, nothing reported, no high-water mark, unpaused, no
/// strategies, and the fees of the payload.
pub open spec fn new_vault(keys: VaultKeys, bump: u8, args: InitializeVaultArgs) -> Vault {
    Vault {
        usdc_mint: keys.usdc_mint,
        share_mint: keys.share_mint,
        treasury: keys.treasury,
        governance: keys.governance,
        reporter: keys.reporter,
        total_shares: 0,
        offchain_nav: 0,
        strategy_value_sum: 0,
        high_water_mark: 0,
        last_total_assets: 0,
        mint_fee_bps: args.mint_fee_bps,
        withdrawal_fee_bps: args.withdrawal_fee_bps,
        performance_fee_bps: args.performance_fee_bps,
        paused: false,
        strategy_count: 0,
        bump,
    }
}

/// Creates a vault; refuses a fee above 100%.
pub fn initialize_vault(keys: VaultKeys, bump: u8, args: &InitializeVaultArgs) -> (r: Result<
    Vault,
    K1Error,
>)
    ensures
        r == (if fees_valid(new_vault(keys, bump, *args)) {
            Ok(new_vault(keys, bump, *args))
        } else {
            Err(K1Error::InvalidFeeBps)
        }),
{
    let vault = Vault {
        usdc_mint: keys.usdc_mint,
        share_mint: keys.share_mint,
        treasury: keys.treasury,
        governance: keys.governance,
        reporter: keys.reporter,
        total_shares: 0,
        offchain_nav: 0,
        strategy_value_sum: 0,
        high_water_mark: 0,
        last_total_assets: 0,
        mint_fee_bps: args.mint_fee_bps,
        withdrawal_fee_bps: args.withdrawal_fee_bps,
        performance_fee_bps: args.performance_fee_bps,
        paused: false,
        strategy_count: 0,
        bump,
    };
    match vault.validate_fees() {
        Err(e) => Err(e),
        Ok(()) => Ok(vault),
    }
}

} // verus!

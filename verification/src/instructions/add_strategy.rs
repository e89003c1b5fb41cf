use vstd::prelude::*;

use crate::state::strategy::StrategyState;
use crate::state::vault::{Key, Vault};

verus! {

/// The payload that names a strategy to add.
#[derive(Debug, Clone, Copy, PartialEq, Eq)]
pub struct AddStrategyArgs {
    pub vault_id: u64,
    pub strategy_id: u64,
}

/// The record of a freshly added strategy: active, with nothing lent to it and
/// nothing reported.
pub open spec fn new_strategy(strategy_program: Key, strategy_treasury: Key, bump: u8) -> StrategyState {
    StrategyState {
        strategy_program,
        strategy_treasury,
        allocated_assets: 0,
        last_reported_value: 0,
        active: true,
        bump,
    }
}

/// The vault with one more strategy counted, the count stopping at its
/// maximum.
pub open spec fn strategy_added(v: Vault) -> Vault {
    Vault {
        strategy_count: if v.strategy_count == u8::MAX {
            u8::MAX
        } else {
            (v.strategy_count + 1) as u8
        },
        ..v
    }
}

/// Adds a strategy to the vault: returns its record and counts it, the count
/// stopping at its maximum.
pub fn add_strategy(vault: &mut Vault, strategy_program: Key, strategy_treasury: Key, bump: u8) -> (s:
    StrategyState)
    ensures
        s == new_strategy(strategy_program, strategy_treasury, bump),
        *final(vault) == strategy_added(*old(vault)),
{
    vault.strategy_count = vault.strategy_count.saturating_add(1);
    StrategyState {
        strategy_program,
        strategy_treasury,
        allocated_assets: 0,
        last_reported_value: 0,
        active: true,
        bump,
    }
}

} // verus!

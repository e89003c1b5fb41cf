use vstd::prelude::*;

use crate::state::vault::Key;

verus! {

/// A strategy's record: where its program and treasury are, what the vault
/// has lent it and what it last reported to be worth.
#[derive(Debug, Clone, Copy, PartialEq, Eq)]
pub struct StrategyState {
    pub strategy_program: Key,
    pub strategy_treasury: Key,
    pub allocated_assets: u128,
    pub last_reported_value: u128,
    pub active: bool,
    pub bump: u8,
}

} // verus!

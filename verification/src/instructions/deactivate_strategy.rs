use vstd::prelude::*;

use crate::state::strategy::StrategyState;

verus! {

/// The payload that names a strategy to deactivate.
#[derive(Debug, Clone, Copy, PartialEq, Eq)]
pub struct DeactivateStrategyArgs {
    pub vault_id: u64,
    pub strategy_id: u64,
}

/// The strategy, marked inactive.
pub open spec fn deactivated(s: StrategyState) -> StrategyState {
    StrategyState { active: false, ..s }
}

/// Marks a strategy inactive and changes nothing else.
pub fn deactivate_strategy(strategy: &mut StrategyState)
    ensures
        *final(strategy) == deactivated(*old(strategy)),
{
    strategy.active = false;
}

} // verus!

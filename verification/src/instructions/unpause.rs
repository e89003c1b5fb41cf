use vstd::prelude::*;

use crate::state::vault::Vault;

verus! {

/// The payload that unpauses a vault.
#[derive(Debug, Clone, Copy, PartialEq, Eq)]
pub struct UnpauseArgs {
    pub vault_id: u64,
}

/// The vault, unpaused.
pub open spec fn unpaused_vault(v: Vault) -> Vault {
    Vault { paused: false, ..v }
}

/// Unpauses the vault.
pub fn unpause(vault: &mut Vault)
    ensures
        *final(vault) == unpaused_vault(*old(vault)),
{
    vault.paused = false;
}

} // verus!

use vstd::prelude::*;

use crate::state::vault::Vault;

verus! {

/// The payload that pauses a vault.
#[derive(Debug, Clone, Copy, PartialEq, Eq)]
pub struct PauseArgs {
    pub vault_id: u64,
}

/// The vault, paused.
pub open spec fn paused_vault(v: Vault) -> Vault {
    Vault { paused: true, ..v }
}

/// Pauses the vault.
pub fn pause(vault: &mut Vault)
    ensures
        *final(vault) == paused_vault(*old(vault)),
{
    vault.paused = true;
}

} // verus!

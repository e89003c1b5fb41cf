use vstd::prelude::*;

use crate::errors::K1Error;
use crate::state::vault::{fees_valid, Vault};

verus! {

/// The payload that sets a vault's fees.
#[derive(Debug, Clone, Copy, PartialEq, Eq)]
pub struct UpdateFeesArgs {
    pub vault_id: u64,
    pub mint_fee_bps: u16,
    pub withdrawal_fee_bps: u16,
    pub performance_fee_bps: u16,
}

/// The vault with the fees of the payload.
pub open spec fn with_fees(v: Vault, args: UpdateFeesArgs) -> Vault {
    Vault {
        mint_fee_bps: args.mint_fee_bps,
        withdrawal_fee_bps: args.withdrawal_fee_bps,
        performance_fee_bps: args.performance_fee_bps,
        ..v
    }
}

/// Sets the vault's fees; refuses a fee above 100%, and then leaves the vault
/// as it was.
pub fn update_fees(vault: &mut Vault, args: &UpdateFeesArgs) -> (r: Result<(), K1Error>)
    ensures
        fees_valid(with_fees(*old(vault), *args)) ==> r is Ok && *final(vault) == with_fees(
            *old(vault),
            *args,
        ),
        !fees_valid(with_fees(*old(vault), *args)) ==> r == Err::<(), K1Error>(
            K1Error::InvalidFeeBps,
        ) && *final(vault) == *old(vault),
{
    let mut updated = *vault;
    updated.mint_fee_bps = args.mint_fee_bps;
    updated.withdrawal_fee_bps = args.withdrawal_fee_bps;
    updated.performance_fee_bps = args.performance_fee_bps;
    match updated.validate_fees() {
        Err(e) => Err(e),
        Ok(()) => {
            *vault = updated;
            Ok(())
        },
    }
}

} // verus!

use vstd::prelude::*;

use crate::errors::K1Error;

verus! {

/// A token movement that an instruction asks for. Which accounts take part is
/// fixed by the instruction: a deposit transfers from the user to the vault
/// treasury, a withdrawal from the treasury to the user, a strategy payback
/// from the strategy treasury to the vault treasury.
#[derive(Debug, Clone, Copy, PartialEq, Eq, Structural)]
pub enum TokenOp {
    /// Transfer `amount` asset base units.
    Transfer { amount: u64 },
    /// Mint `amount` shares to the user's share account.
    MintToUser { amount: u64 },
    /// Mint `amount` shares to the treasury's share account.
    MintToTreasury { amount: u64 },
    /// Burn `amount` shares from the user's share account.
    Burn { amount: u64 },
}

/// What an instruction did: the token operations it asked for, in order, and
/// whether it then succeeded. On an error the operations listed are those that
/// came before it; the transaction as a whole is then refused.
pub struct Outcome {
    pub ops: Vec<TokenOp>,
    pub result: Result<(), K1Error>,
}

} // verus!

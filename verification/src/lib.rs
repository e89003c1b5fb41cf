//! Share accounting for a USDC-denominated, multi-strategy yield vault.
//!
//! The library holds the vault's rules: how much it holds, what a share is
//! worth, how many shares a deposit mints, what a withdrawal pays out, how the
//! mint, withdrawal and performance fees are taken, and how each instruction
//! changes the vault and strategy records. Token movements are not made here:
//! each instruction returns the token operations it asks for, in order, and the
//! program around the library performs them.
pub mod constants;
pub mod errors;
pub mod state;
pub mod instructions;
pub mod laws;
pub mod instruction_laws;
pub mod vault_laws;

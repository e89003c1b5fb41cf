pub mod token_ops;
pub use token_ops::{Outcome, TokenOp};

pub mod initialize_vault;
pub use initialize_vault::{initialize_vault, InitializeVaultArgs, VaultKeys};

pub mod deposit;
pub use deposit::{deposit, DepositArgs};

pub mod withdraw;
pub use withdraw::{withdraw, WithdrawArgs};

pub mod add_strategy;
pub use add_strategy::{add_strategy, AddStrategyArgs};

pub mod deactivate_strategy;
pub use deactivate_strategy::{deactivate_strategy, DeactivateStrategyArgs};

pub mod deallocate;
pub use deallocate::{deallocate, DeallocateArgs};

pub mod update_offchain_nav;
pub use update_offchain_nav::{update_offchain_nav, UpdateOffchainNavArgs};

pub mod pause;
pub use pause::{pause, PauseArgs};

pub mod unpause;
pub use unpause::{unpause, UnpauseArgs};

pub mod emergency_withdraw_strategy;
pub use emergency_withdraw_strategy::{emergency_withdraw_strategy, EmergencyWithdrawStrategyArgs};

pub mod update_fees;
pub use update_fees::{update_fees, UpdateFeesArgs};

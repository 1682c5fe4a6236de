//! The operations on a pool and the checks that they share.

pub mod deposit;
pub mod helper;
pub mod initialize;
pub mod swap;
pub mod withdraw;

pub use helper::{
    AccountCheck, AssociatedTokenAccount, AssociatedTokenAccountCheck,
    AssociatedTokenAccountInit, MintInterface, ProgramAccount, ProgramAccountInit, SignerAccount,
    TokenAccount,
};
pub use initialize::{InitializeConfig, InitializeConfigAccounts, InitializeConfigInstruction};
pub use deposit::{Deposit, DepositAccounts, DepositInstructions};
pub use withdraw::{Withdraw, WithdrawAccounts, WithdrawInstructions};
pub use swap::{Swap, SwapAccounts, SwapInstructions};

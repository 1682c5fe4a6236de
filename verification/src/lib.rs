//! Accounting core of a two-asset liquidity pool: the curve arithmetic, the
//! pool's stored record, and the handlers that check an operation and say
//! which balance changes to request from the ledger.

pub mod bytes;
pub mod entrypoint;
pub mod error;
pub mod instructions;
pub mod ledger;
pub mod state;

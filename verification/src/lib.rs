//! Verified core of a same-transaction flash-loan protocol between three
//! contracts: a borrower, a gateway that orchestrates the loan and collects a
//! fee, and a vault that holds the liquidity.
//!
//! Every contract is written as a function from the state it owns and the
//! message it receives to the state it leaves behind and the messages it asks
//! its host to dispatch. Reading and writing the host's storage, querying
//! balances and encoding messages for the wire are the host adapter's business.

pub mod borrower;
pub mod coin;
pub mod error;
pub mod gateway;
pub mod host;
pub mod math;
pub mod protocol;
pub mod vault;

//! The gateway: it takes a borrower's request, has the vault fund it, calls
//! the borrower back, and settles the debt before the transaction ends.

pub mod contract;
pub mod helpers;
pub mod msg;
pub mod state;
pub mod theorems;

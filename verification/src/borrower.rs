//! The borrower: it opens a flash loan at a gateway and pays it back once the
//! funds have been with it.

pub mod contract;
pub mod msg;
pub mod state;

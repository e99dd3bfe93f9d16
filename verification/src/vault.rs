//! The vault: it holds the liquidity and lends it through a gateway.

pub mod contract;
pub mod msg;

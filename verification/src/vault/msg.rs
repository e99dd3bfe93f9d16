//! The messages that the vault reads and sends.

use crate::coin::{Coin, CoinView};
use vstd::prelude::*;

verus! {

/// The vault is set up with nothing.
#[derive(Clone, Debug, PartialEq, Eq)]
pub struct InstantiateMsg {}

/// The mathematical reading of an [`ExecuteMsg`].
pub enum ExecuteMsgView {
    ProvideAsset { asset: CoinView, borrower_addr: Seq<char> },
}

/// What the vault can be told to do.
#[derive(Clone, Debug, PartialEq, Eq)]
pub enum ExecuteMsg {
    /// A gateway asks the vault to lend `asset` to the borrower at
    /// `borrower_addr`.
    ProvideAsset { asset: Coin, borrower_addr: String },
}

impl View for ExecuteMsg {
    type V = ExecuteMsgView;

    open spec fn view(&self) -> ExecuteMsgView {
        match *self {
            ExecuteMsg::ProvideAsset { asset, borrower_addr } => ExecuteMsgView::ProvideAsset {
                asset: asset@,
                borrower_addr: borrower_addr@,
            },
        }
    }
}

/// The mathematical reading of a [`BroadcastMsg`].
pub enum BroadcastMsgView {
    FlashLoanProvided { asset: CoinView, borrower_addr: Seq<char> },
}

/// What the vault tells others.
#[derive(Clone, Debug, PartialEq, Eq)]
pub enum BroadcastMsg {
    /// The vault has sent `asset` to the borrower at `borrower_addr`.
    FlashLoanProvided { asset: Coin, borrower_addr: String },
}

impl View for BroadcastMsg {
    type V = BroadcastMsgView;

    open spec fn view(&self) -> BroadcastMsgView {
        match *self {
            BroadcastMsg::FlashLoanProvided { asset, borrower_addr } => {
                BroadcastMsgView::FlashLoanProvided { asset: asset@, borrower_addr: borrower_addr@ }
            },
        }
    }
}

} // verus!

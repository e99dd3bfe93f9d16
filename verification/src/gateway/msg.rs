//! The messages that the gateway reads.

use crate::coin::{Coin, CoinView};
use crate::gateway::state::Config;
use vstd::prelude::*;

verus! {

/// What the gateway is set up with. The host adapter has validated the
/// address before it gets here.
#[derive(Clone, Debug, PartialEq, Eq)]
pub struct InstantiateMsg {
    pub cw_vault_contract_addr: String,
}

/// The mathematical reading of an [`ExecuteMsg`].
pub enum ExecuteMsgView {
    RequestFlashLoan { asset: CoinView, on_funded_msg: Seq<u8> },
    FlashLoanProvided { asset: CoinView },
}

/// What the gateway can be told to do.
#[derive(Clone, Debug, PartialEq, Eq)]
pub enum ExecuteMsg {
    /// A borrower asks for `asset`. `on_funded_msg` is handed back to it,
    /// byte for byte, once the funds are with it.
    RequestFlashLoan { asset: Coin, on_funded_msg: Vec<u8> },
    /// The vault confirms that it has lent `asset`.
    FlashLoanProvided { asset: Coin },
}

impl View for ExecuteMsg {
    type V = ExecuteMsgView;

    open spec fn view(&self) -> ExecuteMsgView {
        match *self {
            ExecuteMsg::RequestFlashLoan { asset, on_funded_msg } => {
                ExecuteMsgView::RequestFlashLoan { asset: asset@, on_funded_msg: on_funded_msg@ }
            },
            ExecuteMsg::FlashLoanProvided { asset } => {
                ExecuteMsgView::FlashLoanProvided { asset: asset@ }
            },
        }
    }
}

/// What the gateway can be asked.
#[derive(Clone, Debug, PartialEq, Eq)]
pub enum QueryMsg {
    /// What `borrower` still owes.
    DebtRemaining { borrower: String },
}

/// The gateway's configuration, as an answer.
#[derive(Clone, Debug, PartialEq, Eq)]
pub struct StateResponse {
    pub state: Config,
}

} // verus!

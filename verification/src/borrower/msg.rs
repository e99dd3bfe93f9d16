//! The messages that the borrower reads.

use crate::coin::{Coin, CoinView};
use vstd::prelude::*;

verus! {

/// What the borrower is set up with. The host adapter has validated the
/// address before it gets here.
#[derive(Clone, Debug, PartialEq, Eq)]
pub struct InstantiateMsg {
    pub cw_gateway_contract_addr: String,
}

/// The mathematical reading of an [`ExecuteMsg`].
pub enum ExecuteMsgView {
    OpenFlashLoan { asset_to_borrow: CoinView },
    OnFlashLoanProvided {  },
}

/// What the borrower can be told to do.
#[derive(Clone, Debug, PartialEq, Eq)]
pub enum ExecuteMsg {
    /// Somebody wants the borrower to take a flash loan of `asset_to_borrow`.
    OpenFlashLoan { asset_to_borrow: Coin },
    /// The gateway tells the borrower that the funds are with it.
    OnFlashLoanProvided {  },
}

impl View for ExecuteMsg {
    type V = ExecuteMsgView;

    open spec fn view(&self) -> ExecuteMsgView {
        match *self {
            ExecuteMsg::OpenFlashLoan { asset_to_borrow } => ExecuteMsgView::OpenFlashLoan {
                asset_to_borrow: asset_to_borrow@,
            },
            ExecuteMsg::OnFlashLoanProvided {  } => ExecuteMsgView::OnFlashLoanProvided {  },
        }
    }
}

} // verus!

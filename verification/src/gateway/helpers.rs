//! What another contract needs in order to talk to a gateway.

use crate::coin::{coins_view, Coin, CoinView};
use crate::gateway::msg::{ExecuteMsg, ExecuteMsgView};
use crate::host::{
    BankMsg, BankMsgView, CosmosMsg, CosmosMsgView, Payload, PayloadView, WasmMsg, WasmMsgView,
};
use vstd::prelude::*;

verus! {

/// A gateway, known by its address.
#[derive(Clone, Debug, PartialEq, Eq)]
pub struct Contract(pub String);

/// What a request for a flash loan is made of.
#[derive(Clone, Debug, PartialEq, Eq)]
pub struct RequestFlashLoanProps {
    /// The asset to be borrowed
    pub asset: Coin,
    /// The message to be called back with when the borrowed funds are
    /// available, as the bytes that go on the wire
    pub on_flash_loan_provided_hook: Vec<u8>,
}

/// What a repayment of a flash loan is made of.
#[derive(Clone, Debug, PartialEq, Eq)]
pub struct PayFlashLoanBackProps {
    /// The asset to be returned
    pub asset: Coin,
}

/// What a question about the remaining debt is made of.
#[derive(Clone, Debug, PartialEq, Eq)]
pub struct GetDebtRemainingProps {
    /// The asset to be borrowed
    pub asset: Coin,
    /// The message to be called back with when the borrowed funds are
    /// available, as the bytes that go on the wire
    pub on_flash_loan_provided_hook: Vec<u8>,
}

/// The funds that go with a message: those given, or none.
pub open spec fn funds_or_none(funds: Option<Vec<Coin>>) -> Seq<CoinView> {
    match funds {
        Some(coins) => coins_view(coins@),
        None => seq![],
    }
}

impl Contract {
    /// The gateway's address.
    pub fn addr(&self) -> (res: String)
        ensures
            res@ == self.0@,
    {
        self.0.clone()
    }

    /// The message that hands `msg` to this gateway, together with `funds`.
    pub fn call(&self, msg: ExecuteMsg, funds: Option<Vec<Coin>>) -> (res: CosmosMsg)
        ensures
            res@ == CosmosMsgView::Wasm(
                WasmMsgView::Execute {
                    contract_addr: self.0@,
                    msg: PayloadView::Gateway(msg@),
                    funds: funds_or_none(funds),
                },
            ),
    {
        let funds = match funds {
            Some(coins) => coins,
            None => {
                let none: Vec<Coin> = Vec::new();
                assert(coins_view(none@) =~= seq![]);
                none
            },
        };
        CosmosMsg::Wasm(
            WasmMsg::Execute { contract_addr: self.addr(), msg: Payload::Gateway(msg), funds },
        )
    }

    /// Creates a message calling the gateway to request a new flash loan
    pub fn request_flash_loan(&self, request_flash_loan_props: RequestFlashLoanProps) -> (res:
        CosmosMsg)
        ensures
            res@ == CosmosMsgView::Wasm(
                WasmMsgView::Execute {
                    contract_addr: self.0@,
                    msg: PayloadView::Gateway(
                        ExecuteMsgView::RequestFlashLoan {
                            asset: request_flash_loan_props.asset@,
                            on_funded_msg: request_flash_loan_props.on_flash_loan_provided_hook@,
                        },
                    ),
                    funds: seq![],
                },
            ),
    {
        let request_flash_loan_msg = ExecuteMsg::RequestFlashLoan {
            asset: request_flash_loan_props.asset,
            on_funded_msg: request_flash_loan_props.on_flash_loan_provided_hook,
        };
        self.call(request_flash_loan_msg, None)
    }

    /// Creates a message paying the current flash loan back to the gateway
    pub fn repay_flash_loan(&self, asset: Coin) -> (res: CosmosMsg)
        ensures
            res@ == CosmosMsgView::Bank(
                BankMsgView::Send { to_address: self.0@, amount: seq![asset@] },
            ),
    {
        let mut amount: Vec<Coin> = Vec::new();
        amount.push(asset);
        assert(coins_view(amount@) =~= seq![asset@]);
        CosmosMsg::Bank(BankMsg::Send { to_address: self.addr(), amount })
    }
}

} // verus!

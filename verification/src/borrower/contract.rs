//! The borrower's steps.

use crate::borrower::msg::{ExecuteMsg, ExecuteMsgView, InstantiateMsg};
use crate::error::{ContractError, ContractErrorView};
use crate::borrower::state::{Config, ConfigView};
use crate::coin::{Coin, CoinView};
use crate::gateway::helpers::{Contract as FlashLoanGateway, RequestFlashLoanProps};
use crate::gateway::msg::ExecuteMsgView as GatewayMsgView;
use crate::host::{
    AttributeView, BankMsgView, CosmosMsgView, PayloadView, ReplyOn, Response, ResponseView,
    SubMsgView, WasmMsgView, UNUSED_MSG_ID,
};
use vstd::prelude::*;

verus! {

/// Sets the borrower up: it knows its gateway.
pub fn instantiate(msg: InstantiateMsg) -> (res: (Config, Response))
    ensures
        res.0@ == (ConfigView { cw_gateway_contract_addr: msg.cw_gateway_contract_addr@ }),
        res.1@ == (ResponseView {
            messages: seq![],
            attributes: seq![AttributeView { key: "method"@, value: "instantiate"@ }],
            data: None,
        }),
{
    let config = Config { cw_gateway_contract_addr: msg.cw_gateway_contract_addr };
    (config, Response::new().add_attribute("method", "instantiate"))
}

/// The request that opens a loan: one message to the gateway, which asks for
/// `asset` and leaves `hook` to be called back with.
pub open spec fn loan_request(gateway: Seq<char>, asset: CoinView, hook: Seq<u8>) -> ResponseView {
    ResponseView {
        messages: seq![
            SubMsgView {
                id: UNUSED_MSG_ID,
                msg: CosmosMsgView::Wasm(
                    WasmMsgView::Execute {
                        contract_addr: gateway,
                        msg: PayloadView::Gateway(
                            GatewayMsgView::RequestFlashLoan { asset, on_funded_msg: hook },
                        ),
                        funds: seq![],
                    },
                ),
                gas_limit: None,
                reply_on: ReplyOn::Never,
            },
        ],
        attributes: seq![
            AttributeView { key: "module"@, value: "borrower"@ },
            AttributeView { key: "action"@, value: "execute_open_flash_loan"@ },
        ],
        data: None,
    }
}

/// Handler initiating a flash loan. `on_flash_loan_provided_hook` tells the
/// gateway which message to call the borrower back with once the funds are
/// there; it is the borrower's own message for that moment, as the bytes that
/// go on the wire.
pub fn execute_open_flash_loan(
    config: &Config,
    asset_to_borrow: Coin,
    on_flash_loan_provided_hook: Vec<u8>,
) -> (res: Response)
    ensures
        res@ == loan_request(
            config@.cw_gateway_contract_addr,
            asset_to_borrow@,
            on_flash_loan_provided_hook@,
        ),
{
    let msg = FlashLoanGateway(config.cw_gateway_contract_addr.clone()).request_flash_loan(
        RequestFlashLoanProps { asset: asset_to_borrow, on_flash_loan_provided_hook },
    );
    let res = Response::new().add_message(msg).add_attribute("module", "borrower").add_attribute(
        "action",
        "execute_open_flash_loan",
    );
    assert(res@.messages =~= loan_request(
        config@.cw_gateway_contract_addr,
        asset_to_borrow@,
        on_flash_loan_provided_hook@,
    ).messages);
    assert(res@.attributes =~= seq![
        AttributeView { key: "module"@, value: "borrower"@ },
        AttributeView { key: "action"@, value: "execute_open_flash_loan"@ },
    ]);
    res
}

/// The repayment of a loan: one transfer of `total_repayment` to the gateway.
pub open spec fn loan_repayment(gateway: Seq<char>, total_repayment: CoinView) -> ResponseView {
    ResponseView {
        messages: seq![
            SubMsgView {
                id: UNUSED_MSG_ID,
                msg: CosmosMsgView::Bank(
                    BankMsgView::Send { to_address: gateway, amount: seq![total_repayment] },
                ),
                gas_limit: None,
                reply_on: ReplyOn::Never,
            },
        ],
        attributes: seq![
            AttributeView { key: "module"@, value: "borrower"@ },
            AttributeView { key: "action"@, value: "execute_on_flash_loan_provided"@ },
        ],
        data: None,
    }
}

/// Handler utilising the flash loan. The funds are in; `total_repayment` is
/// what the gateway says the borrower owes, and it is sent there.
pub fn execute_on_flash_loan_provided(config: &Config, total_repayment: Coin) -> (res: Response)
    ensures
        res@ == loan_repayment(config@.cw_gateway_contract_addr, total_repayment@),
{
    // Repay the flash loan
    let flash_loan_gateway = FlashLoanGateway(config.cw_gateway_contract_addr.clone());
    let msg = flash_loan_gateway.repay_flash_loan(total_repayment);
    let res = Response::new().add_message(msg).add_attribute("module", "borrower").add_attribute(
        "action",
        "execute_on_flash_loan_provided",
    );
    assert(res@.messages =~= loan_repayment(
        config@.cw_gateway_contract_addr,
        total_repayment@,
    ).messages);
    assert(res@.attributes =~= seq![
        AttributeView { key: "module"@, value: "borrower"@ },
        AttributeView { key: "action"@, value: "execute_on_flash_loan_provided"@ },
    ]);
    res
}

/// A message for the borrower, by its kind. `hook` is the borrower's own
/// message for the moment the funds arrive; `debt` is what the gateway
/// answers when it is asked what the borrower owes. A loan is opened whatever
/// the gateway answers; it is paid back only if the gateway names the debt.
pub open spec fn step_execute(
    config: ConfigView,
    hook: Seq<u8>,
    debt: Result<CoinView, ContractErrorView>,
    msg: ExecuteMsgView,
) -> Result<ResponseView, ContractErrorView> {
    match msg {
        ExecuteMsgView::OpenFlashLoan { asset_to_borrow } => Ok(
            loan_request(config.cw_gateway_contract_addr, asset_to_borrow, hook),
        ),
        ExecuteMsgView::OnFlashLoanProvided {  } => match debt {
            Ok(total_repayment) => Ok(
                loan_repayment(config.cw_gateway_contract_addr, total_repayment),
            ),
            Err(e) => Err(e),
        },
    }
}

/// Takes a message for the borrower. The host adapter brings along what the
/// borrower cannot know by itself: its own callback as the bytes that go on
/// the wire, and the gateway's answer to the question of what it owes.
pub fn execute(
    config: &Config,
    on_flash_loan_provided_hook: Vec<u8>,
    debt_remaining: Result<Coin, ContractError>,
    msg: ExecuteMsg,
) -> (res: Result<Response, ContractError>)
    ensures
        match step_execute(
            config@,
            on_flash_loan_provided_hook@,
            match debt_remaining {
                Ok(total_repayment) => Ok(total_repayment@),
                Err(e) => Err(e@),
            },
            msg@,
        ) {
            Ok(response) => res matches Ok(r) && r@ == response,
            Err(e) => res matches Err(err) && err@ == e,
        },
{
    match msg {
        ExecuteMsg::OpenFlashLoan { asset_to_borrow } => Ok(
            execute_open_flash_loan(config, asset_to_borrow, on_flash_loan_provided_hook),
        ),
        ExecuteMsg::OnFlashLoanProvided {  } => {
            let total_repayment = debt_remaining?;
            Ok(execute_on_flash_loan_provided(config, total_repayment))
        },
    }
}

} // verus!

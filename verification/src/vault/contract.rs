//! The vault's entry points.

use crate::coin::{coins_view, Coin, CoinView};
use crate::error::{ContractError, ContractErrorView};
use crate::host::{
    AttributeView, BankMsg, BankMsgView, CosmosMsg, CosmosMsgView, MessageInfo, Payload,
    PayloadView, Reply, ReplyOn, ReplyView, Response, ResponseView, SubMsg, SubMsgView, WasmMsg,
    WasmMsgView, UNUSED_MSG_ID,
};
use crate::vault::msg::{BroadcastMsg, BroadcastMsgView, ExecuteMsg, InstantiateMsg};
use vstd::prelude::*;

verus! {

/// The tag under which the vault's notice to the gateway comes back.
pub const REPLY_ON_ASSET_REPAYMENT: u64 = 1;

/// What the vault's own checks found of a request, before any funds move.
/// How the vault keeps its list of gateways and its books is not this
/// module's business.
#[derive(Clone, Copy, Debug, PartialEq, Eq, Structural)]
pub struct Clearance {
    /// The caller is a gateway that the vault lends through.
    pub gateway_whitelisted: bool,
    /// The vault holds the asset that is asked for.
    pub asset_available: bool,
}

/// Sets the vault up.
pub fn instantiate(_msg: InstantiateMsg) -> (res: Response)
    ensures
        res@ == (ResponseView {
            messages: seq![],
            attributes: seq![AttributeView { key: "method"@, value: "instantiate"@ }],
            data: None,
        }),
{
    Response::new().add_attribute("method", "instantiate")
}

/// The vault's notice that it has lent `asset` to `borrower`.
pub open spec fn notice(asset: CoinView, borrower: Seq<char>) -> PayloadView {
    PayloadView::Notice(BroadcastMsgView::FlashLoanProvided { asset, borrower_addr: borrower })
}

/// The lending of `asset`: it goes straight to `borrower`, and the gateway
/// that asked is told so, by a message and by the data handed back.
pub open spec fn lending(gateway: Seq<char>, asset: CoinView, borrower: Seq<char>) -> ResponseView {
    ResponseView {
        messages: seq![
            SubMsgView {
                id: UNUSED_MSG_ID,
                msg: CosmosMsgView::Bank(
                    BankMsgView::Send { to_address: borrower, amount: seq![asset] },
                ),
                gas_limit: None,
                reply_on: ReplyOn::Never,
            },
            SubMsgView {
                id: REPLY_ON_ASSET_REPAYMENT,
                msg: CosmosMsgView::Wasm(
                    WasmMsgView::Execute {
                        contract_addr: gateway,
                        msg: notice(asset, borrower),
                        funds: seq![],
                    },
                ),
                gas_limit: None,
                reply_on: ReplyOn::Success,
            },
        ],
        attributes: seq![
            AttributeView { key: "module"@, value: "vault"@ },
            AttributeView { key: "action"@, value: "execute_provide_asset"@ },
        ],
        data: Some(notice(asset, borrower)),
    }
}

/// A request to lend: refused where the caller is not a whitelisted gateway,
/// refused where the asset is not available, and otherwise answered by the
/// lending.
pub open spec fn provide_asset(
    clearance: Clearance,
    sender: Seq<char>,
    asset: CoinView,
    borrower: Seq<char>,
) -> Result<ResponseView, ContractErrorView> {
    if !clearance.gateway_whitelisted {
        Err(ContractErrorView::Unauthorized)
    } else if !clearance.asset_available {
        Err(ContractErrorView::AssetUnavailable)
    } else {
        Ok(lending(sender, asset, borrower))
    }
}

/// Takes a message for the vault. `clearance` is what the vault's checks
/// found of the caller and of the asset.
pub fn execute(clearance: Clearance, info: MessageInfo, msg: ExecuteMsg) -> (res: Result<
    Response,
    ContractError,
>)
    requires
        msg->asset@.amount > 0,
    ensures
        match provide_asset(clearance, info@.sender, msg->asset@, msg->borrower_addr@) {
            Ok(response) => res matches Ok(r) && r@ == response,
            Err(e) => res matches Err(err) && err@ == e,
        },
{
    match msg {
        ExecuteMsg::ProvideAsset { asset, borrower_addr } => {
            if !clearance.gateway_whitelisted {
                return Err(ContractError::Unauthorized);
            }
            if !clearance.asset_available {
                return Err(ContractError::AssetUnavailable);
            }
            Ok(execute_provide_asset(info, asset, borrower_addr))
        },
    }
}

/// Lends `asset` to the borrower at `borrower_addr`, which the host adapter
/// has validated, and tells the caller so.
pub fn execute_provide_asset(info: MessageInfo, asset: Coin, borrower_addr: String) -> (res:
    Response)
    requires
        asset@.amount > 0,
    ensures
        res@ == lending(info@.sender, asset@, borrower_addr@),
{
    // let's have the flash loan sent to the borrower
    let mut amount: Vec<Coin> = Vec::new();
    amount.push(asset.clone());
    assert(coins_view(amount@) =~= seq![asset@]);
    let transfer = SubMsg::new(
        CosmosMsg::Bank(BankMsg::Send { to_address: borrower_addr.clone(), amount }),
    );
    // call the sender back to let it know the funds were sent to the borrower
    let funds: Vec<Coin> = Vec::new();
    assert(coins_view(funds@) =~= seq![]);
    let callback = SubMsg::reply_on_success(
        CosmosMsg::Wasm(
            WasmMsg::Execute {
                contract_addr: info.sender,
                msg: Payload::Notice(
                    BroadcastMsg::FlashLoanProvided {
                        asset: asset.clone(),
                        borrower_addr: borrower_addr.clone(),
                    },
                ),
                funds,
            },
        ),
        REPLY_ON_ASSET_REPAYMENT,
    );
    let res = Response::new().add_submessage(transfer).add_submessage(callback).add_attribute(
        "module",
        "vault",
    ).add_attribute("action", "execute_provide_asset").set_data(
        Payload::Notice(BroadcastMsg::FlashLoanProvided { asset, borrower_addr }),
    );
    assert(res@.messages =~= seq![transfer@, callback@]);
    assert(res@.attributes =~= seq![
        AttributeView { key: "module"@, value: "vault"@ },
        AttributeView { key: "action"@, value: "execute_provide_asset"@ },
    ]);
    res
}

/// What the vault answers once its notice has been taken.
pub open spec fn repayment_noted() -> ResponseView {
    ResponseView {
        messages: seq![],
        attributes: seq![
            AttributeView { key: "module"@, value: "vault"@ },
            AttributeView { key: "action"@, value: "reply_on_asset_repayment"@ },
        ],
        data: None,
    }
}

/// A sub-message of the vault has come back. Where it failed, the vault fails
/// with the same reason; a tag that the vault never set is refused.
pub open spec fn vault_reply(msg: ReplyView) -> Result<ResponseView, ContractErrorView> {
    match msg.result {
        Err(reason) => Err(ContractErrorView::GenericErr { msg: reason }),
        Ok(_) => if msg.id == REPLY_ON_ASSET_REPAYMENT {
            Ok(repayment_noted())
        } else {
            Err(ContractErrorView::InvalidReplyId { id: msg.id })
        },
    }
}

/// Resumes the vault after a sub-message.
pub fn reply(msg: Reply) -> (res: Result<Response, ContractError>)
    ensures
        match vault_reply(msg@) {
            Ok(response) => res matches Ok(r) && r@ == response,
            Err(e) => res matches Err(err) && err@ == e,
        },
{
    match msg.result {
        Err(reason) => {
            return Err(ContractError::GenericErr { msg: reason });
        },
        Ok(_) => {},
    }
    if msg.id == REPLY_ON_ASSET_REPAYMENT {
        Ok(reply_on_asset_repayment())
    } else {
        Err(ContractError::InvalidReplyId { id: msg.id })
    }
}

/// Takes note that the gateway has heard of the lending. If this step
/// failed, the whole transaction would be undone.
pub fn reply_on_asset_repayment() -> (res: Response)
    ensures
        res@ == repayment_noted(),
{
    let res = Response::new().add_attribute("module", "vault").add_attribute(
        "action",
        "reply_on_asset_repayment",
    );
    assert(res@.attributes =~= seq![
        AttributeView { key: "module"@, value: "vault"@ },
        AttributeView { key: "action"@, value: "reply_on_asset_repayment"@ },
    ]);
    res
}

} // verus!

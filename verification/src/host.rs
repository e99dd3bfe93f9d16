//! What a contract and its host exchange: who called, what came back from a
//! sub-message, and which messages the host is asked to dispatch next.

use crate::coin::{coins_view, Coin, CoinView};
use crate::gateway::msg::{ExecuteMsg as GatewayMsg, ExecuteMsgView as GatewayMsgView};
use crate::vault::msg::{
    BroadcastMsg, BroadcastMsgView, ExecuteMsg as VaultMsg, ExecuteMsgView as VaultMsgView,
};
use vstd::prelude::*;

verus! {

/// The tag of a sub-message whose completion nobody waits for.
pub const UNUSED_MSG_ID: u64 = 0;

/// The mathematical reading of an [`Attribute`].
pub struct AttributeView {
    pub key: Seq<char>,
    pub value: Seq<char>,
}

/// A key and a value that a contract attaches to its response.
#[derive(Clone, Debug, PartialEq, Eq)]
pub struct Attribute {
    pub key: String,
    pub value: String,
}

impl View for Attribute {
    type V = AttributeView;

    open spec fn view(&self) -> AttributeView {
        AttributeView { key: self.key@, value: self.value@ }
    }
}

impl Attribute {
    /// The attribute that gives `key` the value `value`.
    pub fn new(key: &str, value: &str) -> (res: Attribute)
        ensures
            res@ == (AttributeView { key: key@, value: value@ }),
    {
        Attribute { key: key.to_owned(), value: value.to_owned() }
    }
}

/// The views of a list of attributes, in order.
pub open spec fn attributes_view(attributes: Seq<Attribute>) -> Seq<AttributeView> {
    attributes.map_values(|a: Attribute| a@)
}

/// The mathematical reading of a [`Payload`].
pub enum PayloadView {
    Encoded(Seq<u8>),
    Gateway(GatewayMsgView),
    Vault(VaultMsgView),
    Notice(BroadcastMsgView),
}

/// The body of a message that one contract sends to another. The host adapter
/// puts it on the wire: bytes go out as they are, a message of this protocol in
/// the encoding that its receiver reads.
#[derive(Clone, Debug, PartialEq, Eq)]
pub enum Payload {
    /// Bytes that somebody else encoded; they are passed on untouched.
    Encoded(Vec<u8>),
    /// A message for the gateway.
    Gateway(GatewayMsg),
    /// A message for the vault.
    Vault(VaultMsg),
    /// The vault's notice that it has lent an asset.
    Notice(BroadcastMsg),
}

impl View for Payload {
    type V = PayloadView;

    open spec fn view(&self) -> PayloadView {
        match *self {
            Payload::Encoded(bytes) => PayloadView::Encoded(bytes@),
            Payload::Gateway(msg) => PayloadView::Gateway(msg@),
            Payload::Vault(msg) => PayloadView::Vault(msg@),
            Payload::Notice(msg) => PayloadView::Notice(msg@),
        }
    }
}

/// The mathematical reading of a [`BankMsg`].
pub enum BankMsgView {
    Send { to_address: Seq<char>, amount: Seq<CoinView> },
}

/// A request to the host's bank.
#[derive(Clone, Debug, PartialEq, Eq)]
pub enum BankMsg {
    /// Moves `amount` from the contract that asks to `to_address`.
    Send { to_address: String, amount: Vec<Coin> },
}

impl View for BankMsg {
    type V = BankMsgView;

    open spec fn view(&self) -> BankMsgView {
        match *self {
            BankMsg::Send { to_address, amount } => BankMsgView::Send {
                to_address: to_address@,
                amount: coins_view(amount@),
            },
        }
    }
}

/// The mathematical reading of a [`WasmMsg`].
pub enum WasmMsgView {
    Execute { contract_addr: Seq<char>, msg: PayloadView, funds: Seq<CoinView> },
}

/// A request to run another contract.
#[derive(Clone, Debug, PartialEq, Eq)]
pub enum WasmMsg {
    /// Hands `msg` to the contract at `contract_addr`, together with `funds`.
    Execute { contract_addr: String, msg: Payload, funds: Vec<Coin> },
}

impl View for WasmMsg {
    type V = WasmMsgView;

    open spec fn view(&self) -> WasmMsgView {
        match *self {
            WasmMsg::Execute { contract_addr, msg, funds } => WasmMsgView::Execute {
                contract_addr: contract_addr@,
                msg: msg@,
                funds: coins_view(funds@),
            },
        }
    }
}

/// The mathematical reading of a [`CosmosMsg`].
pub enum CosmosMsgView {
    Bank(BankMsgView),
    Wasm(WasmMsgView),
}

/// A message that a contract asks its host to dispatch.
#[derive(Clone, Debug, PartialEq, Eq)]
pub enum CosmosMsg {
    Bank(BankMsg),
    Wasm(WasmMsg),
}

impl View for CosmosMsg {
    type V = CosmosMsgView;

    open spec fn view(&self) -> CosmosMsgView {
        match *self {
            CosmosMsg::Bank(msg) => CosmosMsgView::Bank(msg@),
            CosmosMsg::Wasm(msg) => CosmosMsgView::Wasm(msg@),
        }
    }
}

/// When the host resumes the sender of a sub-message.
#[derive(Clone, Copy, Debug, PartialEq, Eq, Structural)]
pub enum ReplyOn {
    /// After the sub-message, however it ended.
    Always,
    /// Only after the sub-message failed.
    Error,
    /// Only after the sub-message succeeded.
    Success,
    /// Never.
    Never,
}

/// The mathematical reading of a [`SubMsg`].
pub struct SubMsgView {
    pub id: u64,
    pub msg: CosmosMsgView,
    pub gas_limit: Option<u64>,
    pub reply_on: ReplyOn,
}

/// A message together with the tag under which its outcome comes back.
#[derive(Clone, Debug, PartialEq, Eq)]
pub struct SubMsg {
    pub id: u64,
    pub msg: CosmosMsg,
    pub gas_limit: Option<u64>,
    pub reply_on: ReplyOn,
}

impl View for SubMsg {
    type V = SubMsgView;

    open spec fn view(&self) -> SubMsgView {
        SubMsgView {
            id: self.id,
            msg: self.msg@,
            gas_limit: self.gas_limit,
            reply_on: self.reply_on,
        }
    }
}

impl SubMsg {
    /// A message that is sent and forgotten.
    pub fn new(msg: CosmosMsg) -> (res: SubMsg)
        ensures
            res@ == (SubMsgView {
                id: UNUSED_MSG_ID,
                msg: msg@,
                gas_limit: None,
                reply_on: ReplyOn::Never,
            }),
    {
        SubMsg { id: UNUSED_MSG_ID, msg, gas_limit: None, reply_on: ReplyOn::Never }
    }

    /// A message whose success resumes the sender under the tag `id`.
    pub fn reply_on_success(msg: CosmosMsg, id: u64) -> (res: SubMsg)
        ensures
            res@ == (SubMsgView { id, msg: msg@, gas_limit: None, reply_on: ReplyOn::Success }),
    {
        SubMsg { id, msg, gas_limit: None, reply_on: ReplyOn::Success }
    }
}

/// The views of a list of sub-messages, in order.
pub open spec fn submsgs_view(messages: Seq<SubMsg>) -> Seq<SubMsgView> {
    messages.map_values(|m: SubMsg| m@)
}

/// The mathematical reading of a [`Response`].
pub struct ResponseView {
    pub messages: Seq<SubMsgView>,
    pub attributes: Seq<AttributeView>,
    pub data: Option<PayloadView>,
}

/// What a contract answers to a message that it accepted: the sub-messages to
/// dispatch, in this order, the attributes to log, and the data to hand back
/// to whoever waits for the outcome.
#[derive(Clone, Debug, PartialEq, Eq)]
pub struct Response {
    pub messages: Vec<SubMsg>,
    pub attributes: Vec<Attribute>,
    pub data: Option<Payload>,
}

impl View for Response {
    type V = ResponseView;

    open spec fn view(&self) -> ResponseView {
        ResponseView {
            messages: submsgs_view(self.messages@),
            attributes: attributes_view(self.attributes@),
            data: match self.data {
                Some(payload) => Some(payload@),
                None => None,
            },
        }
    }
}

impl Response {
    /// The answer that asks for nothing.
    pub fn new() -> (res: Response)
        ensures
            res@ == (ResponseView { messages: seq![], attributes: seq![], data: None }),
    {
        let res = Response { messages: Vec::new(), attributes: Vec::new(), data: None };
        assert(res@.messages =~= seq![]);
        assert(res@.attributes =~= seq![]);
        res
    }

    /// Logs one more attribute.
    pub fn add_attribute(self, key: &str, value: &str) -> (res: Response)
        ensures
            res@ == (ResponseView {
                attributes: self@.attributes.push(AttributeView { key: key@, value: value@ }),
                ..self@
            }),
    {
        let mut res = self;
        res.attributes.push(Attribute::new(key, value));
        assert(res@.attributes =~= self@.attributes.push(
            AttributeView { key: key@, value: value@ },
        ));
        res
    }

    /// Asks for one more message, sent and forgotten.
    pub fn add_message(self, msg: CosmosMsg) -> (res: Response)
        ensures
            res@ == (ResponseView {
                messages: self@.messages.push(
                    SubMsgView {
                        id: UNUSED_MSG_ID,
                        msg: msg@,
                        gas_limit: None,
                        reply_on: ReplyOn::Never,
                    },
                ),
                ..self@
            }),
    {
        self.add_submessage(SubMsg::new(msg))
    }

    /// Asks for one more sub-message.
    pub fn add_submessage(self, msg: SubMsg) -> (res: Response)
        ensures
            res@ == (ResponseView { messages: self@.messages.push(msg@), ..self@ }),
    {
        let mut res = self;
        res.messages.push(msg);
        assert(res@.messages =~= self@.messages.push(msg@));
        res
    }

    /// Hands `data` back to whoever waits for the outcome.
    pub fn set_data(self, data: Payload) -> (res: Response)
        ensures
            res@ == (ResponseView { data: Some(data@), ..self@ }),
    {
        let mut res = self;
        res.data = Some(data);
        res
    }
}

/// The mathematical reading of a [`MessageInfo`].
pub struct MessageInfoView {
    pub sender: Seq<char>,
    pub funds: Seq<CoinView>,
}

/// Who sent a message, and the funds that came with it.
#[derive(Clone, Debug, PartialEq, Eq)]
pub struct MessageInfo {
    pub sender: String,
    pub funds: Vec<Coin>,
}

impl View for MessageInfo {
    type V = MessageInfoView;

    open spec fn view(&self) -> MessageInfoView {
        MessageInfoView { sender: self.sender@, funds: coins_view(self.funds@) }
    }
}

/// The mathematical reading of a [`SubMsgResponse`].
pub struct SubMsgResponseView {
    pub data: Option<PayloadView>,
}

/// What a sub-message that succeeded hands back.
#[derive(Clone, Debug, PartialEq, Eq)]
pub struct SubMsgResponse {
    /// The data of the response that the sub-message ended with, if it had
    /// any.
    pub data: Option<Payload>,
}

impl View for SubMsgResponse {
    type V = SubMsgResponseView;

    open spec fn view(&self) -> SubMsgResponseView {
        SubMsgResponseView {
            data: match self.data {
                Some(payload) => Some(payload@),
                None => None,
            },
        }
    }
}

/// The mathematical reading of a [`Reply`].
pub struct ReplyView {
    pub id: u64,
    pub result: Result<SubMsgResponseView, Seq<char>>,
}

/// The outcome of a sub-message, handed to the contract that sent it.
#[derive(Debug, PartialEq, Eq)]
pub struct Reply {
    /// The tag that the contract gave the sub-message.
    pub id: u64,
    /// What the sub-message handed back, or the reason for which it failed.
    pub result: Result<SubMsgResponse, String>,
}

impl View for Reply {
    type V = ReplyView;

    open spec fn view(&self) -> ReplyView {
        ReplyView {
            id: self.id,
            result: match self.result {
                Ok(response) => Ok(response@),
                Err(reason) => Err(reason@),
            },
        }
    }
}

} // verus!

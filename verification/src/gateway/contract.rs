//! The gateway's entry points and the steps behind them.
//!
//! Each step is stated twice: as a function on mathematical values, which says
//! what the step does, and as executable code that is proved to do just that.
//! A step that fails leaves the state as it found it and asks for no message.

use crate::coin::{balance_in, balance_of, coins_view, Coin, CoinView};
use crate::error::{ContractError, ContractErrorView};
use crate::gateway::msg::{ExecuteMsg, ExecuteMsgView, InstantiateMsg, QueryMsg};
use crate::gateway::state::{
    Config, ConfigView, FlashLoanState, FlashLoanStateView, State, StateView,
};
use crate::host::{
    AttributeView, BankMsg, BankMsgView, CosmosMsg, CosmosMsgView, MessageInfo, Payload,
    PayloadView, Reply, ReplyOn,
    ReplyView, Response, ResponseView, SubMsg, SubMsgView, WasmMsg, WasmMsgView, UNUSED_MSG_ID,
};
use crate::math::{checked_add, checked_div};
use crate::vault::msg::{
    BroadcastMsg, BroadcastMsgView, ExecuteMsg as VaultMsg, ExecuteMsgView as VaultMsgView,
};
use vstd::prelude::*;

verus! {

/// The gateway keeps one part in this many of the principal as its fee.
pub const GATEWAY_FEE_DIVISOR: u128 = 100;

/// The vault is owed one part in this many of the principal as its fee.
pub const VAULT_FEE_DIVISOR: u128 = 50;

/// The tag under which the vault's funding comes back.
pub const ON_FUNDED: u64 = 1;

/// The tag under which the borrower's callback comes back.
pub const ON_REPAID: u64 = 2;

/// The gateway's fee on a loan of `principal`.
pub open spec fn gateway_fee(principal: nat) -> nat {
    principal / (GATEWAY_FEE_DIVISOR as nat)
}

/// The vault's fee on a loan of `principal`.
pub open spec fn vault_fee(principal: nat) -> nat {
    principal / (VAULT_FEE_DIVISOR as nat)
}

/// What goes back to the vault: the principal and the vault's fee.
pub open spec fn amount_owed_to_vault(principal: nat) -> nat {
    principal + vault_fee(principal)
}

/// What the borrower owes in all: the vault's part and the gateway's fee.
pub open spec fn total_owed(principal: nat) -> nat {
    amount_owed_to_vault(principal) + gateway_fee(principal)
}

/// The debt on a loan of `principal`: the total first, then the vault's part.
pub open spec fn calculate_debt(principal: nat) -> (nat, nat) {
    (total_owed(principal), amount_owed_to_vault(principal))
}

/// What a step of the gateway comes to: the state it leaves and the response
/// it gives, or the reason for which it is refused.
pub type Outcome = Result<(StateView, ResponseView), ContractErrorView>;

/// The outcome of a step that is refused for `reason`.
pub open spec fn refused(reason: ContractErrorView) -> Outcome {
    Err(reason)
}

/// Whether executable code did what `outcome` says: on success the state and
/// the response are those of `outcome`; on failure the error is, and the
/// state is as it was.
pub open spec fn carries_out(
    before: StateView,
    after: StateView,
    res: Result<Response, ContractError>,
    outcome: Outcome,
) -> bool {
    match outcome {
        Ok((next, response)) => res matches Ok(r) && r@ == response && after == next,
        Err(e) => res matches Err(err) && err@ == e && after == before,
    }
}

/// The request for funds that goes to the vault.
pub open spec fn funding_request(
    vault: Seq<char>,
    borrower: Seq<char>,
    asset: CoinView,
) -> ResponseView {
    ResponseView {
        messages: seq![
            SubMsgView {
                id: ON_FUNDED,
                msg: CosmosMsgView::Wasm(
                    WasmMsgView::Execute {
                        contract_addr: vault,
                        msg: PayloadView::Vault(
                            VaultMsgView::ProvideAsset { asset, borrower_addr: borrower },
                        ),
                        funds: seq![],
                    },
                ),
                gas_limit: None,
                reply_on: ReplyOn::Success,
            },
        ],
        attributes: seq![AttributeView { key: "method"@, value: "request_flash_loan"@ }],
        data: None,
    }
}

/// A request for a loan: refused while a loan is in flight, whoever asks and
/// for whatever; otherwise the loan is recorded and the vault is asked for
/// the funds.
pub open spec fn step_request_flash_loan(
    state: StateView,
    sender: Seq<char>,
    asset: CoinView,
    on_funded_msg: Seq<u8>,
) -> Outcome {
    if state.flash_loan_state is Some {
        Err(ContractErrorView::LoanInProgress)
    } else {
        Ok(
            (
                StateView {
                    flash_loan_state: Some(
                        FlashLoanStateView {
                            borrower_contract_addr: sender,
                            borrower_requested_asset: asset,
                            on_funded_msg,
                        },
                    ),
                    ..state
                },
                funding_request(state.config.cw_vault_contract_addr, sender, asset),
            ),
        )
    }
}

/// Records a loan for the sender and asks the vault to fund it.
pub fn execute_request_flash_loan(
    state: &mut State,
    info: MessageInfo,
    asset: Coin,
    on_funded_msg: Vec<u8>,
) -> (res: Result<Response, ContractError>)
    requires
        asset@.amount > 0,
    ensures
        carries_out(
            old(state)@,
            final(state)@,
            res,
            step_request_flash_loan(old(state)@, info@.sender, asset@, on_funded_msg@),
        ),
{
    if state.flash_loan_state.is_some() {
        return Err(ContractError::LoanInProgress);
    }
    let flash_loan_state = FlashLoanState {
        borrower_contract_addr: info.sender,
        borrower_requested_asset: asset.clone(),
        on_funded_msg,
    };
    let lend_asset_msg = VaultMsg::ProvideAsset {
        asset,
        borrower_addr: flash_loan_state.borrower_contract_addr.clone(),
    };
    // firstly, request funds from vault
    let funds: Vec<Coin> = Vec::new();
    assert(coins_view(funds@) =~= seq![]);
    let msg = SubMsg::reply_on_success(
        CosmosMsg::Wasm(
            WasmMsg::Execute {
                contract_addr: state.config.cw_vault_contract_addr.clone(),
                funds,
                msg: Payload::Vault(lend_asset_msg),
            },
        ),
        ON_FUNDED,
    );
    state.flash_loan_state = Some(flash_loan_state);
    let res = Response::new().add_submessage(msg).add_attribute("method", "request_flash_loan");
    assert(res@.messages =~= seq![msg@]);
    assert(res@.attributes =~= seq![
        AttributeView { key: "method"@, value: "request_flash_loan"@ },
    ]);
    Ok(res)
}

/// What is owed on a loan of `base`, as coins of the loan's denomination: the
/// total first, then the part that goes back to the vault. There is no
/// answer where the total leaves the range of amounts.
pub open spec fn debt_on(base: CoinView) -> Result<(CoinView, CoinView), ContractErrorView> {
    let (total, for_vault) = calculate_debt(base.amount);
    if total <= u128::MAX {
        Ok(
            (
                CoinView { denom: base.denom, amount: total },
                CoinView { denom: base.denom, amount: for_vault },
            ),
        )
    } else {
        Err(ContractErrorView::Overflow)
    }
}

/// Works out what is owed on a loan of `repayment_amount_base`: the total
/// first, then the part that goes back to the vault.
pub fn calculate_debt_remaining(repayment_amount_base: &Coin, _vault_addr: &String) -> (res: Result<
    (Coin, Coin),
    ContractError,
>)
    ensures
        match debt_on(repayment_amount_base@) {
            Ok((total, for_vault)) => res matches Ok(debt) && debt.0@ == total && debt.1@
                == for_vault,
            Err(e) => res matches Err(err) && err@ == e,
        },
{
    let repayment_amount_base_gateway_fee = checked_div(
        repayment_amount_base.amount,
        GATEWAY_FEE_DIVISOR,
    )?;
    let repayment_amount_base_vault_fee = checked_div(
        repayment_amount_base.amount,
        VAULT_FEE_DIVISOR,
    )?;
    let repayment_amount_for_vault = checked_add(
        repayment_amount_base.amount,
        repayment_amount_base_vault_fee,
    )?;
    let repayment_total_value = checked_add(
        repayment_amount_for_vault,
        repayment_amount_base_gateway_fee,
    )?;
    Ok(
        (
            Coin { denom: repayment_amount_base.denom.clone(), amount: repayment_total_value },
            Coin { denom: repayment_amount_base.denom.clone(), amount: repayment_amount_for_vault },
        ),
    )
}

/// The borrower's callback: the bytes that it left with its request, sent to
/// the address that the request came from.
pub open spec fn borrower_callback(loan: FlashLoanStateView) -> ResponseView {
    ResponseView {
        messages: seq![
            SubMsgView {
                id: ON_REPAID,
                msg: CosmosMsgView::Wasm(
                    WasmMsgView::Execute {
                        contract_addr: loan.borrower_contract_addr,
                        msg: PayloadView::Encoded(loan.on_funded_msg),
                        funds: seq![],
                    },
                ),
                gas_limit: None,
                reply_on: ReplyOn::Success,
            },
        ],
        attributes: seq![AttributeView { key: "method"@, value: "on_lend_assets_completed"@ }],
        data: None,
    }
}

/// The vault has funded the loan and reports `provided`: unless that is the
/// very asset that was requested, the step is refused; otherwise the borrower
/// is called back. The record of the loan stays as it is.
pub open spec fn step_on_lend_asset_completed(state: StateView, provided: CoinView) -> Outcome {
    match state.flash_loan_state {
        None => Err(ContractErrorView::NotFound),
        Some(loan) => if provided != loan.borrower_requested_asset {
            Err(ContractErrorView::RequestedAssetNotProvided)
        } else {
            Ok((state, borrower_callback(loan)))
        },
    }
}

/// Checks what the vault lent against the record and calls the borrower back.
pub fn reply_on_lend_asset_completed(state: &mut State, provided: &Coin) -> (res: Result<
    Response,
    ContractError,
>)
    ensures
        carries_out(
            old(state)@,
            final(state)@,
            res,
            step_on_lend_asset_completed(old(state)@, provided@),
        ),
{
    let temp_state = match &state.flash_loan_state {
        None => {
            return Err(ContractError::NotFound);
        },
        Some(loan) => loan,
    };
    if !provided.same_as(&temp_state.borrower_requested_asset) {
        return Err(ContractError::RequestedAssetNotProvided);
    }
    // secondly, hand the borrower the message that it asked to be called with
    let funds: Vec<Coin> = Vec::new();
    assert(coins_view(funds@) =~= seq![]);
    let msg = SubMsg::reply_on_success(
        CosmosMsg::Wasm(
            WasmMsg::Execute {
                contract_addr: temp_state.borrower_contract_addr.clone(),
                funds,
                msg: Payload::Encoded(temp_state.on_funded_msg.clone()),
            },
        ),
        ON_REPAID,
    );
    let res = Response::new().add_submessage(msg).add_attribute(
        "method",
        "on_lend_assets_completed",
    );
    assert(res@.messages =~= seq![msg@]);
    assert(res@.attributes =~= seq![
        AttributeView { key: "method"@, value: "on_lend_assets_completed"@ },
    ]);
    Ok(res)
}

/// The repayment: `for_vault` goes from the gateway to the vault.
pub open spec fn repayment(vault: Seq<char>, for_vault: CoinView) -> ResponseView {
    ResponseView {
        messages: seq![
            SubMsgView {
                id: UNUSED_MSG_ID,
                msg: CosmosMsgView::Bank(
                    BankMsgView::Send { to_address: vault, amount: seq![for_vault] },
                ),
                gas_limit: None,
                reply_on: ReplyOn::Never,
            },
        ],
        attributes: seq![
            AttributeView { key: "method"@, value: "on_external_handler_completed"@ },
        ],
        data: None,
    }
}

/// The borrower's callback has returned and the gateway holds `balances`:
/// unless it holds, in the loan's denomination, all that the borrower owes,
/// the step is refused; otherwise the vault is repaid and the record of the
/// loan is cleared.
pub open spec fn step_on_external_handler_completed(
    state: StateView,
    balances: Seq<CoinView>,
) -> Outcome {
    match state.flash_loan_state {
        None => Err(ContractErrorView::NotFound),
        Some(loan) => match debt_on(loan.borrower_requested_asset) {
            Err(e) => Err(e),
            Ok((total, for_vault)) => if balance_in(balances, total.denom) < total.amount {
                Err(ContractErrorView::NotEnoughFundsToCoverLoanRepayment)
            } else {
                Ok(
                    (
                        StateView { flash_loan_state: None, ..state },
                        repayment(state.config.cw_vault_contract_addr, for_vault),
                    ),
                )
            },
        },
    }
}

/// Settles the loan against what the gateway holds.
pub fn reply_on_external_handler_completed(state: &mut State, balances: &Vec<Coin>) -> (res: Result<
    Response,
    ContractError,
>)
    ensures
        carries_out(
            old(state)@,
            final(state)@,
            res,
            step_on_external_handler_completed(old(state)@, coins_view(balances@)),
        ),
{
    let flash_loan_state = match &state.flash_loan_state {
        None => {
            return Err(ContractError::NotFound);
        },
        Some(loan) => loan,
    };
    let repayment_amount_base = &flash_loan_state.borrower_requested_asset;
    let (repayment_amount_total, repayment_amount_vault) = calculate_debt_remaining(
        repayment_amount_base,
        &state.config.cw_vault_contract_addr,
    )?;
    let gateway_current_balance = balance_of(balances, &repayment_amount_base.denom);
    if gateway_current_balance < repayment_amount_total.amount {
        return Err(ContractError::NotEnoughFundsToCoverLoanRepayment);
    }
    let mut amount: Vec<Coin> = Vec::new();
    amount.push(repayment_amount_vault);
    assert(coins_view(amount@) =~= seq![repayment_amount_vault@]);
    let msg = CosmosMsg::Bank(
        BankMsg::Send { to_address: state.config.cw_vault_contract_addr.clone(), amount },
    );
    state.flash_loan_state = None;
    let res = Response::new().add_message(msg).add_attribute(
        "method",
        "on_external_handler_completed",
    );
    assert(res@.messages =~= seq![
        SubMsgView { id: UNUSED_MSG_ID, msg: msg@, gas_limit: None, reply_on: ReplyOn::Never },
    ]);
    assert(res@.attributes =~= seq![
        AttributeView { key: "method"@, value: "on_external_handler_completed"@ },
    ]);
    Ok(res)
}

/// The continuations that the gateway waits for.
#[derive(Clone, Copy, Debug, PartialEq, Eq, Structural)]
pub enum ReplyToGateway {
    OnLendAssetCompleted,
    OnExternalHandlerCompleted,
}

impl ReplyToGateway {
    /// The tag that stands for this continuation.
    pub open spec fn tag(self) -> u64 {
        match self {
            ReplyToGateway::OnLendAssetCompleted => ON_FUNDED,
            ReplyToGateway::OnExternalHandlerCompleted => ON_REPAID,
        }
    }

    /// The tag that stands for this continuation.
    pub fn id(self) -> (res: u64)
        ensures
            res == self.tag(),
    {
        match self {
            ReplyToGateway::OnLendAssetCompleted => ON_FUNDED,
            ReplyToGateway::OnExternalHandlerCompleted => ON_REPAID,
        }
    }

    /// The continuation that the tag `v` stands for, if it stands for one.
    pub fn try_from(v: u64) -> (res: Result<ReplyToGateway, ()>)
        ensures
            v == ON_FUNDED ==> res == Ok::<ReplyToGateway, ()>(
                ReplyToGateway::OnLendAssetCompleted,
            ),
            v == ON_REPAID ==> res == Ok::<ReplyToGateway, ()>(
                ReplyToGateway::OnExternalHandlerCompleted,
            ),
            v != ON_FUNDED && v != ON_REPAID ==> res is Err,
    {
        if v == ReplyToGateway::OnLendAssetCompleted.id() {
            Ok(ReplyToGateway::OnLendAssetCompleted)
        } else if v == ReplyToGateway::OnExternalHandlerCompleted.id() {
            Ok(ReplyToGateway::OnExternalHandlerCompleted)
        } else {
            Err(())
        }
    }
}

/// The asset that the vault reports to have lent, where `data` is the vault's
/// notice of a loan.
pub open spec fn reported_asset(data: Option<PayloadView>) -> Option<CoinView> {
    match data {
        Some(PayloadView::Notice(BroadcastMsgView::FlashLoanProvided { asset, .. })) => Some(asset),
        _ => None,
    }
}

/// A sub-message has come back. Where it failed, the gateway fails with the
/// same reason. Where it succeeded, the tag decides which step follows; a tag
/// that the gateway never set is refused, and so is a funding that comes back
/// without the vault's notice of what it lent.
pub open spec fn step_reply(state: StateView, balances: Seq<CoinView>, msg: ReplyView) -> Outcome {
    match msg.result {
        Err(reason) => Err(ContractErrorView::GenericErr { msg: reason }),
        Ok(response) => if msg.id == ON_FUNDED {
            match reported_asset(response.data) {
                Some(provided) => step_on_lend_asset_completed(state, provided),
                None => Err(ContractErrorView::RequestedAssetNotProvided),
            }
        } else if msg.id == ON_REPAID {
            step_on_external_handler_completed(state, balances)
        } else {
            Err(ContractErrorView::InvalidReplyId { id: msg.id })
        },
    }
}

/// Resumes the gateway after a sub-message. `balances` is what the gateway's
/// own account holds at this moment.
pub fn reply(state: &mut State, balances: &Vec<Coin>, msg: Reply) -> (res: Result<
    Response,
    ContractError,
>)
    ensures
        carries_out(
            old(state)@,
            final(state)@,
            res,
            step_reply(old(state)@, coins_view(balances@), msg@),
        ),
{
    let response = match msg.result {
        Err(reason) => {
            return Err(ContractError::GenericErr { msg: reason });
        },
        Ok(response) => response,
    };
    match ReplyToGateway::try_from(msg.id) {
        Ok(ReplyToGateway::OnLendAssetCompleted) => match response.data {
            Some(Payload::Notice(BroadcastMsg::FlashLoanProvided { asset, .. })) => {
                reply_on_lend_asset_completed(state, &asset)
            },
            _ => Err(ContractError::RequestedAssetNotProvided),
        },
        Ok(ReplyToGateway::OnExternalHandlerCompleted) => {
            reply_on_external_handler_completed(state, balances)
        },
        Err(_) => Err(ContractError::InvalidReplyId { id: msg.id }),
    }
}

/// The vault confirms that it has lent `asset`: the confirmation is held
/// against the record of the loan, and nothing else happens.
pub open spec fn step_flash_loan_provided(state: StateView, asset: CoinView) -> Outcome {
    match state.flash_loan_state {
        None => Err(ContractErrorView::NotFound),
        Some(loan) => if asset != loan.borrower_requested_asset {
            Err(ContractErrorView::RequestedAssetNotProvided)
        } else {
            Ok(
                (
                    state,
                    ResponseView {
                        messages: seq![],
                        attributes: seq![
                            AttributeView { key: "method"@, value: "flash_loan_provided"@ },
                        ],
                        data: None,
                    },
                ),
            )
        },
    }
}

/// Holds the vault's confirmation against the record of the loan.
pub fn execute_flash_loan_provided(state: &mut State, asset: Coin) -> (res: Result<
    Response,
    ContractError,
>)
    ensures
        carries_out(
            old(state)@,
            final(state)@,
            res,
            step_flash_loan_provided(old(state)@, asset@),
        ),
{
    match &state.flash_loan_state {
        None => Err(ContractError::NotFound),
        Some(loan) => {
            if !asset.same_as(&loan.borrower_requested_asset) {
                return Err(ContractError::RequestedAssetNotProvided);
            }
            Ok(Response::new().add_attribute("method", "flash_loan_provided"))
        },
    }
}

/// A message for the gateway, by its kind.
pub open spec fn step_execute(
    state: StateView,
    sender: Seq<char>,
    msg: ExecuteMsgView,
) -> Outcome {
    match msg {
        ExecuteMsgView::RequestFlashLoan { asset, on_funded_msg } => {
            step_request_flash_loan(state, sender, asset, on_funded_msg)
        },
        ExecuteMsgView::FlashLoanProvided { asset } => {
            step_flash_loan_provided(state, asset)
        },
    }
}

/// Takes a message for the gateway.
pub fn execute(state: &mut State, info: MessageInfo, msg: ExecuteMsg) -> (res: Result<
    Response,
    ContractError,
>)
    requires
        msg matches ExecuteMsg::RequestFlashLoan { asset, .. } ==> asset@.amount > 0,
    ensures
        carries_out(
            old(state)@,
            final(state)@,
            res,
            step_execute(old(state)@, info@.sender, msg@),
        ),
{
    match msg {
        ExecuteMsg::RequestFlashLoan { asset, on_funded_msg } => {
            execute_request_flash_loan(state, info, asset, on_funded_msg)
        },
        ExecuteMsg::FlashLoanProvided { asset } => execute_flash_loan_provided(state, asset),
    }
}

/// What `borrower` owes: the total first, then the part that goes back to the
/// vault. There is an answer only while a loan of that borrower is in flight.
pub open spec fn debt_remaining(state: StateView, borrower: Seq<char>) -> Result<
    (CoinView, CoinView),
    ContractErrorView,
> {
    match state.flash_loan_state {
        None => Err(ContractErrorView::NoActiveLoan),
        Some(loan) => if loan.borrower_contract_addr != borrower {
            Err(ContractErrorView::NoActiveLoan)
        } else {
            debt_on(loan.borrower_requested_asset)
        },
    }
}

/// Tells what `borrower` owes.
pub fn query_debt_remaining(state: &State, borrower: &String) -> (res: Result<
    (Coin, Coin),
    ContractError,
>)
    ensures
        match debt_remaining(state@, borrower@) {
            Ok((total, for_vault)) => res matches Ok(debt) && debt.0@ == total && debt.1@
                == for_vault,
            Err(e) => res matches Err(err) && err@ == e,
        },
{
    let flash_loan_state = match &state.flash_loan_state {
        None => {
            return Err(ContractError::NoActiveLoan);
        },
        Some(loan) => loan,
    };
    if flash_loan_state.borrower_contract_addr != *borrower {
        return Err(ContractError::NoActiveLoan);
    }
    calculate_debt_remaining(
        &flash_loan_state.borrower_requested_asset,
        &state.config.cw_vault_contract_addr,
    )
}

/// Answers a question to the gateway. The state is only read.
pub fn query(state: &State, msg: QueryMsg) -> (res: Result<(Coin, Coin), ContractError>)
    ensures
        match debt_remaining(state@, msg->borrower@) {
            Ok((total, for_vault)) => res matches Ok(debt) && debt.0@ == total && debt.1@
                == for_vault,
            Err(e) => res matches Err(err) && err@ == e,
        },
{
    match msg {
        QueryMsg::DebtRemaining { borrower } => query_debt_remaining(state, &borrower),
    }
}

/// Sets the gateway up: it knows its vault, and no loan is in flight.
pub fn instantiate(msg: InstantiateMsg) -> (res: (State, Response))
    ensures
        res.0@ == (StateView {
            config: ConfigView { cw_vault_contract_addr: msg.cw_vault_contract_addr@ },
            flash_loan_state: None,
        }),
        res.1@ == (ResponseView {
            messages: seq![],
            attributes: seq![AttributeView { key: "method"@, value: "instantiate"@ }],
            data: None,
        }),
{
    let state = State {
        config: Config { cw_vault_contract_addr: msg.cw_vault_contract_addr },
        flash_loan_state: None,
    };
    (state, Response::new().add_attribute("method", "instantiate"))
}

} // verus!

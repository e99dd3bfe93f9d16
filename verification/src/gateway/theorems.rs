//! What holds of the gateway's steps, whatever the state, the caller and the
//! amounts.

use crate::coin::{balance_in, CoinView};
use crate::error::ContractErrorView;
use crate::gateway::contract::{
    amount_owed_to_vault, calculate_debt, debt_on, debt_remaining, gateway_fee, refused,
    repayment, step_execute, step_on_external_handler_completed, step_on_lend_asset_completed,
    step_reply, step_request_flash_loan, total_owed, vault_fee, ON_FUNDED, ON_REPAID,
};
use crate::gateway::msg::ExecuteMsgView;
use crate::gateway::state::{FlashLoanStateView, StateView};
use crate::host::{ReplyOn, ReplyView, SubMsgResponseView};
use crate::vault::contract::notice;
use vstd::prelude::*;

verus! {

/// While a loan is in flight, a request for a loan is refused as a loan in
/// progress, whoever sends it, whatever asset it asks for and whatever it
/// wants to be called back with.
pub proof fn theorem_no_reentrant_loan(
    state: StateView,
    sender: Seq<char>,
    asset: CoinView,
    on_funded_msg: Seq<u8>,
)
    requires
        state.flash_loan_state is Some,
    ensures
        step_request_flash_loan(state, sender, asset, on_funded_msg) == refused(
            ContractErrorView::LoanInProgress,
        ),
        step_execute(state, sender, ExecuteMsgView::RequestFlashLoan { asset, on_funded_msg })
            == step_request_flash_loan(state, sender, asset, on_funded_msg),
{
}

/// A request that is accepted takes the lock: the request that follows it is
/// refused, and it is still refused after the vault has funded the first.
pub proof fn theorem_accepted_request_locks(
    state: StateView,
    first_sender: Seq<char>,
    first_asset: CoinView,
    first_msg: Seq<u8>,
    second_sender: Seq<char>,
    second_asset: CoinView,
    second_msg: Seq<u8>,
)
    requires
        step_request_flash_loan(state, first_sender, first_asset, first_msg) is Ok,
    ensures
        ({
            let first = step_request_flash_loan(state, first_sender, first_asset, first_msg);
            let locked = first->Ok_0.0;
            let in_progress = refused(ContractErrorView::LoanInProgress);
            &&& step_request_flash_loan(locked, second_sender, second_asset, second_msg)
                == in_progress
            &&& step_on_lend_asset_completed(locked, first_asset) matches Ok((funded, _))
            &&& step_request_flash_loan(funded, second_sender, second_asset, second_msg)
                == in_progress
        }),
{
}

/// The debt grows with the principal: a larger loan never owes less, neither
/// in all nor to the vault nor in either fee.
pub proof fn theorem_debt_is_monotonic(smaller: nat, larger: nat)
    requires
        smaller <= larger,
    ensures
        gateway_fee(smaller) <= gateway_fee(larger),
        vault_fee(smaller) <= vault_fee(larger),
        calculate_debt(smaller).0 <= calculate_debt(larger).0,
        calculate_debt(smaller).1 <= calculate_debt(larger).1,
{
}

/// The debt covers the principal: the vault gets back at least what it lent,
/// and the borrower owes at least what the vault gets back. The total is the
/// principal, a fiftieth of it and a hundredth of it, each fee rounded down.
pub proof fn theorem_debt_covers_principal(principal: nat)
    ensures
        calculate_debt(principal) == (total_owed(principal), amount_owed_to_vault(principal)),
        principal <= amount_owed_to_vault(principal) <= total_owed(principal),
        amount_owed_to_vault(principal) == principal + principal / 50,
        total_owed(principal) == principal + principal / 50 + principal / 100,
{
}

/// The debt is worked out the same way every time: two loans of the same
/// asset owe the same, and a loan in another denomination owes the same
/// amounts in its own denomination.
pub proof fn theorem_debt_is_a_function_of_the_asset(first: CoinView, second: CoinView)
    requires
        first.amount == second.amount,
    ensures
        first.denom == second.denom ==> debt_on(first) == debt_on(second),
        debt_on(first) is Ok <==> debt_on(second) is Ok,
        debt_on(first) matches Ok((total, for_vault)) ==> {
            &&& debt_on(second) matches Ok((other_total, other_for_vault))
            &&& total.amount == other_total.amount
            &&& for_vault.amount == other_for_vault.amount
            &&& total.denom == first.denom
            &&& for_vault.denom == first.denom
        },
{
}

/// The vault is repaid only when the gateway holds, in the loan's
/// denomination, all that the borrower owes: with less, the step is refused
/// and no message goes out. With enough, and a debt that fits the range of
/// amounts, exactly one message goes out, which sends the vault the principal
/// and the vault's fee.
pub proof fn theorem_settlement_gate(state: StateView, balances: Seq<CoinView>)
    requires
        state.flash_loan_state is Some,
    ensures
        ({
            let asset = state.flash_loan_state->Some_0.borrower_requested_asset;
            let held = balance_in(balances, asset.denom);
            let settled = step_on_external_handler_completed(state, balances);
            &&& settled is Ok <==> held >= total_owed(asset.amount) && total_owed(asset.amount)
                <= u128::MAX
            &&& held < total_owed(asset.amount) && total_owed(asset.amount) <= u128::MAX ==> settled
                == refused(ContractErrorView::NotEnoughFundsToCoverLoanRepayment)
            &&& total_owed(asset.amount) > u128::MAX ==> settled == refused(
                ContractErrorView::Overflow,
            )
            &&& settled matches Ok((_, response)) ==> response == repayment(
                state.config.cw_vault_contract_addr,
                CoinView { denom: asset.denom, amount: amount_owed_to_vault(asset.amount) },
            )
        }),
{
}

/// Once a loan has been settled, no loan is on record, the configuration is
/// what it was, and a question about anybody's debt is answered with no
/// active loan.
pub proof fn theorem_state_clears_on_success(
    state: StateView,
    balances: Seq<CoinView>,
    borrower: Seq<char>,
)
    requires
        step_on_external_handler_completed(state, balances) is Ok,
    ensures
        ({
            let cleared = step_on_external_handler_completed(state, balances)->Ok_0.0;
            &&& cleared.flash_loan_state is None
            &&& cleared.config == state.config
            &&& debt_remaining(cleared, borrower) == Err::<(CoinView, CoinView), ContractErrorView>(
                ContractErrorView::NoActiveLoan,
            )
        }),
{
}

/// A whole cycle: from a state without a loan, a request is accepted; the
/// funding comes back with the asset that was requested and the borrower is
/// called back; the callback comes back while the gateway holds what is owed
/// and the loan is settled. The state is then what it was before the request,
/// and the borrower is told that it has no active loan.
pub proof fn theorem_successful_cycle(
    state: StateView,
    borrower: Seq<char>,
    asset: CoinView,
    on_funded_msg: Seq<u8>,
    balances_when_funded: Seq<CoinView>,
    balances_when_repaid: Seq<CoinView>,
)
    requires
        state.flash_loan_state is None,
        total_owed(asset.amount) <= u128::MAX,
        balance_in(balances_when_repaid, asset.denom) >= total_owed(asset.amount),
    ensures
        ({
            let funded = ReplyView {
                id: ON_FUNDED,
                result: Ok(SubMsgResponseView { data: Some(notice(asset, borrower)) }),
            };
            let repaid = ReplyView { id: ON_REPAID, result: Ok(SubMsgResponseView { data: None }) };
            &&& step_request_flash_loan(state, borrower, asset, on_funded_msg) matches Ok(
                (requested, _),
            )
            &&& debt_remaining(requested, borrower) == debt_on(asset)
            &&& step_reply(requested, balances_when_funded, funded) matches Ok((called_back, _))
            &&& step_reply(called_back, balances_when_repaid, repaid) matches Ok((settled, _))
            &&& settled == state
            &&& debt_remaining(settled, borrower) == Err::<(CoinView, CoinView), ContractErrorView>(
                ContractErrorView::NoActiveLoan,
            )
        }),
{
}

/// A funding that reports another asset than the one on record, be it in
/// another denomination or in another amount, is refused before the borrower
/// is called back.
pub proof fn theorem_wrong_asset_is_refused(
    state: StateView,
    balances: Seq<CoinView>,
    provided: CoinView,
    borrower: Seq<char>,
)
    requires
        state.flash_loan_state is Some,
        provided != state.flash_loan_state->Some_0.borrower_requested_asset,
    ensures
        step_on_lend_asset_completed(state, provided) == refused(
            ContractErrorView::RequestedAssetNotProvided,
        ),
        step_reply(
            state,
            balances,
            ReplyView {
                id: ON_FUNDED,
                result: Ok(SubMsgResponseView { data: Some(notice(provided, borrower)) }),
            },
        ) == step_on_lend_asset_completed(state, provided),
{
}

/// What a message can do to the state: it never touches the configuration;
/// a request that is accepted finds no loan on record and records its own;
/// the vault's confirmation changes nothing.
pub proof fn theorem_record_is_made_by_a_request_only(
    state: StateView,
    sender: Seq<char>,
    msg: ExecuteMsgView,
)
    requires
        step_execute(state, sender, msg) is Ok,
    ensures
        ({
            let next = step_execute(state, sender, msg)->Ok_0.0;
            &&& next.config == state.config
            &&& msg matches ExecuteMsgView::RequestFlashLoan { asset, on_funded_msg } ==> {
                &&& state.flash_loan_state is None
                &&& next.flash_loan_state == Some(
                    FlashLoanStateView {
                        borrower_contract_addr: sender,
                        borrower_requested_asset: asset,
                        on_funded_msg,
                    },
                )
            }
            &&& msg is FlashLoanProvided ==> next == state
        }),
{
}

/// What a continuation can do to the state: it never touches the
/// configuration, and it leaves the record of the loan as it is unless it is
/// the borrower's callback coming back to a gateway that holds what is owed,
/// which clears the record.
pub proof fn theorem_record_is_cleared_by_settlement_only(
    state: StateView,
    balances: Seq<CoinView>,
    msg: ReplyView,
)
    requires
        step_reply(state, balances, msg) is Ok,
    ensures
        ({
            let next = step_reply(state, balances, msg)->Ok_0.0;
            &&& next.config == state.config
            &&& state.flash_loan_state matches Some(loan)
            &&& msg.id == ON_FUNDED || msg.id == ON_REPAID
            &&& msg.id == ON_FUNDED ==> next == state
            &&& msg.id == ON_REPAID ==> next.flash_loan_state is None && balance_in(
                balances,
                loan.borrower_requested_asset.denom,
            ) >= total_owed(loan.borrower_requested_asset.amount)
        }),
{
}

/// A sub-message that failed fails the gateway with the same reason, under
/// whatever tag it comes back.
pub proof fn theorem_failure_is_passed_on(
    state: StateView,
    balances: Seq<CoinView>,
    id: u64,
    reason: Seq<char>,
)
    ensures
        step_reply(state, balances, ReplyView { id, result: Err(reason) }) == refused(
            ContractErrorView::GenericErr { msg: reason },
        ),
{
}

/// A continuation under a tag that the gateway never set is refused.
pub proof fn theorem_unknown_tag_is_refused(
    state: StateView,
    balances: Seq<CoinView>,
    id: u64,
    response: SubMsgResponseView,
)
    requires
        id != ON_FUNDED,
        id != ON_REPAID,
    ensures
        step_reply(state, balances, ReplyView { id, result: Ok(response) }) == refused(
            ContractErrorView::InvalidReplyId { id },
        ),
{
}

/// Each step of a loan waits for the next and for nothing else. A request
/// that is accepted asks for one sub-message, whose success comes back as the
/// funding; a funding that is accepted asks for one sub-message, whose
/// success comes back as the borrower's callback; a settlement asks for one
/// message and waits for nothing.
pub proof fn theorem_each_step_awaits_the_next(
    state: StateView,
    sender: Seq<char>,
    asset: CoinView,
    on_funded_msg: Seq<u8>,
    provided: CoinView,
    balances: Seq<CoinView>,
)
    ensures
        step_request_flash_loan(state, sender, asset, on_funded_msg) matches Ok((_, asked)) ==> {
            &&& asked.messages.len() == 1
            &&& asked.messages[0].id == ON_FUNDED
            &&& asked.messages[0].reply_on == ReplyOn::Success
        },
        step_on_lend_asset_completed(state, provided) matches Ok((_, callback)) ==> {
            &&& callback.messages.len() == 1
            &&& callback.messages[0].id == ON_REPAID
            &&& callback.messages[0].reply_on == ReplyOn::Success
        },
        step_on_external_handler_completed(state, balances) matches Ok((_, repaid)) ==> {
            &&& repaid.messages.len() == 1
            &&& repaid.messages[0].reply_on == ReplyOn::Never
        },
{
}

} // verus!

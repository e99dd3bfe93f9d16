//! How the three contracts fit together: what one of them sends is what the
//! next one takes, from the opening of a loan to its settlement.

use crate::borrower::contract::{loan_repayment, loan_request, step_execute as borrower_step};
use crate::borrower::msg::ExecuteMsgView as BorrowerMsgView;
use crate::borrower::state::ConfigView as BorrowerConfigView;
use crate::coin::{balance_in, CoinView};
use crate::error::ContractErrorView;
use crate::gateway::contract::{
    amount_owed_to_vault, borrower_callback, carries_out, debt_remaining, funding_request,
    repayment, step_execute as gateway_step, step_reply, total_owed, Outcome, ON_FUNDED,
    ON_REPAID,
};
use crate::gateway::msg::ExecuteMsgView as GatewayMsgView;
use crate::gateway::state::StateView;
use crate::host::{
    BankMsgView, CosmosMsgView, PayloadView, ReplyView, ResponseView, SubMsgResponseView,
    WasmMsgView,
};
use crate::vault::contract::{lending, provide_asset, Clearance};
use crate::vault::msg::ExecuteMsgView as VaultMsgView;
use vstd::prelude::*;

verus! {

/// The message that a response asks for at position `i`.
pub open spec fn message(response: ResponseView, i: int) -> CosmosMsgView {
    response.messages[i].msg
}

/// Code that carries out a step that is refused returns the refusal, asks for
/// no message and leaves the state as it found it. Undoing what earlier steps
/// of the same transaction did is the host's part.
pub proof fn theorem_refused_step_leaves_no_trace(
    before: StateView,
    after: StateView,
    res: Result<crate::host::Response, crate::error::ContractError>,
    outcome: Outcome,
)
    requires
        carries_out(before, after, res, outcome),
        outcome is Err,
    ensures
        res is Err,
        after == before,
{
}

/// The vault lends if and only if the caller is a whitelisted gateway and the
/// asset is available; a caller that is not whitelisted is told so before the
/// asset is looked at. What is lent goes to the borrower directly, in one
/// transfer of exactly the asset asked for, and the caller is handed the
/// vault's notice of it.
pub proof fn theorem_vault_lends_only_when_cleared(
    clearance: Clearance,
    gateway: Seq<char>,
    asset: CoinView,
    borrower: Seq<char>,
)
    ensures
        provide_asset(clearance, gateway, asset, borrower) is Ok <==> clearance.gateway_whitelisted
            && clearance.asset_available,
        !clearance.gateway_whitelisted ==> provide_asset(clearance, gateway, asset, borrower)
            == Err::<ResponseView, ContractErrorView>(ContractErrorView::Unauthorized),
        clearance.gateway_whitelisted && !clearance.asset_available ==> provide_asset(
            clearance,
            gateway,
            asset,
            borrower,
        ) == Err::<ResponseView, ContractErrorView>(ContractErrorView::AssetUnavailable),
        provide_asset(clearance, gateway, asset, borrower) matches Ok(lent) ==> message(lent, 0)
            == CosmosMsgView::Bank(BankMsgView::Send { to_address: borrower, amount: seq![asset] }),
{
}

/// One loan, from its opening to its settlement, as the contracts hand it on.
///
/// The borrower at `borrower` opens a loan of `asset` at the gateway at
/// `gateway`, whose state holds no loan. The gateway takes the request and
/// asks its vault for the asset. The vault, which finds the gateway
/// whitelisted and the asset available, sends the asset to the borrower and
/// hands back its notice. The gateway takes the notice, both as a message and
/// as the data of the funding that comes back, and calls the borrower back
/// with the bytes that the borrower left. The borrower asks what it owes and
/// sends the gateway just that. When the callback comes back and the gateway
/// holds what is owed, it sends the vault the principal and the vault's fee,
/// and its state is what it was before the loan.
pub proof fn theorem_contracts_fit_together(
    state: StateView,
    gateway: Seq<char>,
    borrower: Seq<char>,
    asset: CoinView,
    hook: Seq<u8>,
    balances_when_funded: Seq<CoinView>,
    balances_when_repaid: Seq<CoinView>,
)
    requires
        state.flash_loan_state is None,
        total_owed(asset.amount) <= u128::MAX,
        balance_in(balances_when_repaid, asset.denom) >= total_owed(asset.amount),
    ensures
        ({
            let vault = state.config.cw_vault_contract_addr;
            let config = BorrowerConfigView { cw_gateway_contract_addr: gateway };
            let cleared = Clearance { gateway_whitelisted: true, asset_available: true };
            let total = CoinView { denom: asset.denom, amount: total_owed(asset.amount) };
            let for_vault = CoinView {
                denom: asset.denom,
                amount: amount_owed_to_vault(asset.amount),
            };
            let request = GatewayMsgView::RequestFlashLoan { asset, on_funded_msg: hook };
            let provide = VaultMsgView::ProvideAsset { asset, borrower_addr: borrower };
            // the borrower opens the loan
            &&& borrower_step(
                config,
                hook,
                Err(ContractErrorView::NoActiveLoan),
                BorrowerMsgView::OpenFlashLoan { asset_to_borrow: asset },
            ) == Ok::<ResponseView, ContractErrorView>(loan_request(gateway, asset, hook))
            &&& message(loan_request(gateway, asset, hook), 0) == CosmosMsgView::Wasm(
                WasmMsgView::Execute {
                    contract_addr: gateway,
                    msg: PayloadView::Gateway(request),
                    funds: seq![],
                },
            )
            // the gateway takes the request and asks the vault
            &&& gateway_step(state, borrower, request) matches Ok((requested, asked))
            &&& asked == funding_request(vault, borrower, asset)
            &&& message(asked, 0) == CosmosMsgView::Wasm(
                WasmMsgView::Execute {
                    contract_addr: vault,
                    msg: PayloadView::Vault(provide),
                    funds: seq![],
                },
            )
            &&& asked.messages[0].id == ON_FUNDED
            // the vault lends to the borrower and tells the gateway
            &&& provide_asset(cleared, gateway, asset, borrower) == Ok::<
                ResponseView,
                ContractErrorView,
            >(lending(gateway, asset, borrower))
            &&& message(lending(gateway, asset, borrower), 1) matches CosmosMsgView::Wasm(
                WasmMsgView::Execute { contract_addr, msg, .. },
            )
            &&& contract_addr == gateway
            &&& msg == lending(gateway, asset, borrower).data->Some_0
            &&& gateway_step(
                requested,
                vault,
                GatewayMsgView::FlashLoanProvided { asset },
            ) matches Ok((confirmed, _))
            &&& confirmed == requested
            // the funding comes back and the gateway calls the borrower
            &&& step_reply(
                requested,
                balances_when_funded,
                ReplyView {
                    id: ON_FUNDED,
                    result: Ok(
                        SubMsgResponseView { data: lending(gateway, asset, borrower).data },
                    ),
                },
            ) matches Ok((called_back, callback))
            &&& called_back == requested
            &&& callback == borrower_callback(requested.flash_loan_state->Some_0)
            &&& message(callback, 0) == CosmosMsgView::Wasm(
                WasmMsgView::Execute {
                    contract_addr: borrower,
                    msg: PayloadView::Encoded(hook),
                    funds: seq![],
                },
            )
            &&& callback.messages[0].id == ON_REPAID
            // the borrower pays the gateway what the gateway says it owes
            &&& debt_remaining(requested, borrower) == Ok::<
                (CoinView, CoinView),
                ContractErrorView,
            >((total, for_vault))
            &&& borrower_step(
                config,
                hook,
                Ok(total),
                BorrowerMsgView::OnFlashLoanProvided {  },
            ) == Ok::<ResponseView, ContractErrorView>(loan_repayment(gateway, total))
            &&& message(loan_repayment(gateway, total), 0) == CosmosMsgView::Bank(
                BankMsgView::Send { to_address: gateway, amount: seq![total] },
            )
            // the callback comes back and the gateway repays the vault
            &&& step_reply(
                called_back,
                balances_when_repaid,
                ReplyView { id: ON_REPAID, result: Ok(SubMsgResponseView { data: None }) },
            ) matches Ok((settled, repaid))
            &&& repaid == repayment(vault, for_vault)
            &&& message(repaid, 0) == CosmosMsgView::Bank(
                BankMsgView::Send { to_address: vault, amount: seq![for_vault] },
            )
            &&& settled == state
        }),
{
}

} // verus!

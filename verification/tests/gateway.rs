use cw_flash_loan::coin::{coin, Coin};
use cw_flash_loan::error::ContractError;
use cw_flash_loan::gateway::contract::{
    calculate_debt_remaining, execute, execute_flash_loan_provided, execute_request_flash_loan,
    instantiate, query, query_debt_remaining, reply, reply_on_external_handler_completed,
    reply_on_lend_asset_completed, ReplyToGateway, GATEWAY_FEE_DIVISOR, ON_FUNDED, ON_REPAID,
    VAULT_FEE_DIVISOR,
};
use cw_flash_loan::gateway::msg::{ExecuteMsg, InstantiateMsg, QueryMsg};
use cw_flash_loan::gateway::state::{Config, FlashLoanState, State};
use cw_flash_loan::host::{
    Attribute, BankMsg, CosmosMsg, MessageInfo, Payload, Reply, ReplyOn, SubMsg, SubMsgResponse,
    WasmMsg,
};
use cw_flash_loan::vault::msg::{BroadcastMsg, ExecuteMsg as VaultMsg};

const HOOK: &[u8] = br#"{"on_flash_loan_provided":{}}"#;

fn mock_info(sender: &str) -> MessageInfo {
    MessageInfo { sender: String::from(sender), funds: vec![] }
}

fn idle() -> State {
    instantiate(InstantiateMsg { cw_vault_contract_addr: String::from("vault") }).0
}

fn lent(asset: Coin) -> State {
    let mut state = idle();
    execute_request_flash_loan(&mut state, mock_info("borrower"), asset, HOOK.to_vec()).unwrap();
    state
}

/// The vault's funding comes back, with the vault's notice of `provided` if
/// there is one.
fn funded(provided: Option<Coin>) -> Reply {
    let data = provided.map(|asset| {
        Payload::Notice(BroadcastMsg::FlashLoanProvided {
            asset,
            borrower_addr: String::from("borrower"),
        })
    });
    Reply { id: ON_FUNDED, result: Ok(SubMsgResponse { data }) }
}

fn repaid() -> Reply {
    Reply { id: ON_REPAID, result: Ok(SubMsgResponse { data: None }) }
}

#[test]
fn gateway_is_set_up_without_a_loan() {
    let (state, response) =
        instantiate(InstantiateMsg { cw_vault_contract_addr: String::from("vault") });
    assert_eq!(
        state,
        State {
            config: Config { cw_vault_contract_addr: String::from("vault") },
            flash_loan_state: None,
        }
    );
    assert_eq!(response.attributes, vec![Attribute::new("method", "instantiate")]);
    assert!(response.messages.is_empty());
}

#[test]
fn fee_divisors_and_tags() {
    assert_eq!(GATEWAY_FEE_DIVISOR, 100);
    assert_eq!(VAULT_FEE_DIVISOR, 50);
    assert_eq!(ON_FUNDED, 1);
    assert_eq!(ON_REPAID, 2);
    assert_eq!(ReplyToGateway::OnLendAssetCompleted.id(), 1);
    assert_eq!(ReplyToGateway::OnExternalHandlerCompleted.id(), 2);
}

#[test]
fn reply_tags_are_recognised() {
    assert_eq!(ReplyToGateway::try_from(1), Ok(ReplyToGateway::OnLendAssetCompleted));
    assert_eq!(ReplyToGateway::try_from(2), Ok(ReplyToGateway::OnExternalHandlerCompleted));
    assert_eq!(ReplyToGateway::try_from(0), Err(()));
    assert_eq!(ReplyToGateway::try_from(3), Err(()));
    assert_eq!(ReplyToGateway::try_from(u64::MAX), Err(()));
}

#[test]
fn debt_on_175_million_uluna() {
    let (total, for_vault) =
        calculate_debt_remaining(&coin(175_000_000, "uluna"), &String::from("vault")).unwrap();
    // vault fee 3,500,000; gateway fee 1,750,000
    assert_eq!(for_vault, coin(178_500_000, "uluna"));
    assert_eq!(total, coin(180_250_000, "uluna"));
}

#[test]
fn debt_rounds_the_fees_down() {
    let vault = String::from("vault");
    assert_eq!(
        calculate_debt_remaining(&coin(1, "uluna"), &vault),
        Ok((coin(1, "uluna"), coin(1, "uluna")))
    );
    assert_eq!(
        calculate_debt_remaining(&coin(49, "uluna"), &vault),
        Ok((coin(49, "uluna"), coin(49, "uluna")))
    );
    assert_eq!(
        calculate_debt_remaining(&coin(50, "uluna"), &vault),
        Ok((coin(51, "uluna"), coin(51, "uluna")))
    );
    assert_eq!(
        calculate_debt_remaining(&coin(99, "uluna"), &vault),
        Ok((coin(100, "uluna"), coin(100, "uluna")))
    );
    assert_eq!(
        calculate_debt_remaining(&coin(100, "uluna"), &vault),
        Ok((coin(103, "uluna"), coin(102, "uluna")))
    );
    assert_eq!(
        calculate_debt_remaining(&coin(0, "uluna"), &vault),
        Ok((coin(0, "uluna"), coin(0, "uluna")))
    );
}

#[test]
fn debt_keeps_the_denomination() {
    let (total, for_vault) =
        calculate_debt_remaining(&coin(1_000, "uusd"), &String::from("vault")).unwrap();
    assert_eq!(total, coin(1_030, "uusd"));
    assert_eq!(for_vault, coin(1_020, "uusd"));
}

#[test]
fn debt_is_the_same_every_time_and_grows_with_the_principal() {
    let vault = String::from("vault");
    let mut last_total = 0;
    let mut last_for_vault = 0;
    for principal in [1u128, 2, 49, 50, 51, 99, 100, 101, 5_000, 174_999_999, 175_000_000] {
        let once = calculate_debt_remaining(&coin(principal, "uluna"), &vault).unwrap();
        let again = calculate_debt_remaining(&coin(principal, "uluna"), &vault).unwrap();
        assert_eq!(once, again);
        let (total, for_vault) = once;
        assert!(total.amount >= for_vault.amount);
        assert!(for_vault.amount >= principal);
        assert!(total.amount >= last_total);
        assert!(for_vault.amount >= last_for_vault);
        last_total = total.amount;
        last_for_vault = for_vault.amount;
    }
}

#[test]
fn debt_that_does_not_fit_is_an_overflow() {
    let vault = String::from("vault");
    assert_eq!(
        calculate_debt_remaining(&coin(u128::MAX, "uluna"), &vault),
        Err(ContractError::Overflow)
    );
    // the vault's part fits, the total does not
    let principal = u128::MAX / 102 * 100;
    assert!(principal.checked_add(principal / 50).is_some());
    assert_eq!(
        calculate_debt_remaining(&coin(principal, "uluna"), &vault),
        Err(ContractError::Overflow)
    );
}

#[test]
fn request_records_the_loan_and_asks_the_vault() {
    let mut state = idle();
    let response = execute(
        &mut state,
        mock_info("borrower"),
        ExecuteMsg::RequestFlashLoan {
            asset: coin(175_000_000, "uluna"),
            on_funded_msg: HOOK.to_vec(),
        },
    )
    .unwrap();

    assert_eq!(
        state.flash_loan_state,
        Some(FlashLoanState {
            borrower_contract_addr: String::from("borrower"),
            borrower_requested_asset: coin(175_000_000, "uluna"),
            on_funded_msg: HOOK.to_vec(),
        })
    );
    assert_eq!(state.config, Config { cw_vault_contract_addr: String::from("vault") });
    assert_eq!(
        response.messages,
        vec![SubMsg {
            id: ON_FUNDED,
            msg: CosmosMsg::Wasm(WasmMsg::Execute {
                contract_addr: String::from("vault"),
                msg: Payload::Vault(VaultMsg::ProvideAsset {
                    asset: coin(175_000_000, "uluna"),
                    borrower_addr: String::from("borrower"),
                }),
                funds: vec![],
            }),
            gas_limit: None,
            reply_on: ReplyOn::Success,
        }]
    );
    assert_eq!(response.attributes, vec![Attribute::new("method", "request_flash_loan")]);
}

#[test]
fn second_request_is_refused_whatever_it_asks_and_whoever_asks() {
    let mut state = lent(coin(175_000_000, "uluna"));
    let before = state.clone();

    for (sender, asset) in [
        ("borrower", coin(175_000_000, "uluna")),
        ("borrower", coin(1, "uluna")),
        ("somebody_else", coin(175_000_000, "uluna")),
        ("somebody_else", coin(9, "uusd")),
        ("vault", coin(u128::MAX, "uluna")),
    ] {
        let res = execute_request_flash_loan(&mut state, mock_info(sender), asset.clone(), vec![]);
        assert_eq!(res, Err(ContractError::LoanInProgress));
        assert_eq!(state, before);

        let res = execute(
            &mut state,
            mock_info(sender),
            ExecuteMsg::RequestFlashLoan { asset, on_funded_msg: HOOK.to_vec() },
        );
        assert_eq!(res, Err(ContractError::LoanInProgress));
        assert_eq!(state, before);
    }
}

#[test]
fn request_is_still_refused_after_the_funding() {
    let mut state = lent(coin(175_000_000, "uluna"));
    reply(&mut state, &vec![], funded(Some(coin(175_000_000, "uluna")))).unwrap();
    let res = execute_request_flash_loan(&mut state, mock_info("other"), coin(5, "uluna"), vec![]);
    assert_eq!(res, Err(ContractError::LoanInProgress));
}

#[test]
fn funding_calls_the_borrower_back_with_its_own_bytes() {
    let mut state = lent(coin(175_000_000, "uluna"));
    let before = state.clone();

    let response = reply(&mut state, &vec![], funded(Some(coin(175_000_000, "uluna")))).unwrap();

    assert_eq!(state, before);
    assert_eq!(
        response.messages,
        vec![SubMsg {
            id: ON_REPAID,
            msg: CosmosMsg::Wasm(WasmMsg::Execute {
                contract_addr: String::from("borrower"),
                msg: Payload::Encoded(HOOK.to_vec()),
                funds: vec![],
            }),
            gas_limit: None,
            reply_on: ReplyOn::Success,
        }]
    );
    assert_eq!(response.attributes, vec![Attribute::new("method", "on_lend_assets_completed")]);
}

#[test]
fn funding_in_another_denomination_is_refused() {
    let mut state = lent(coin(175_000_000, "uluna"));
    let before = state.clone();
    let res = reply(&mut state, &vec![], funded(Some(coin(175_000_000, "uusd"))));
    assert_eq!(res, Err(ContractError::RequestedAssetNotProvided));
    assert_eq!(state, before);
}

#[test]
fn funding_of_a_lesser_amount_is_refused() {
    let mut state = lent(coin(175_000_000, "uluna"));
    let before = state.clone();
    let res = reply(&mut state, &vec![], funded(Some(coin(174_999_999, "uluna"))));
    assert_eq!(res, Err(ContractError::RequestedAssetNotProvided));
    assert_eq!(state, before);

    let res = reply_on_lend_asset_completed(&mut state, &coin(1, "uluna"));
    assert_eq!(res, Err(ContractError::RequestedAssetNotProvided));
    assert_eq!(state, before);
}

#[test]
fn funding_of_a_greater_amount_is_refused() {
    let mut state = lent(coin(175_000_000, "uluna"));
    let res = reply_on_lend_asset_completed(&mut state, &coin(175_000_001, "uluna"));
    assert_eq!(res, Err(ContractError::RequestedAssetNotProvided));
}

#[test]
fn funding_without_a_report_is_refused() {
    let mut state = lent(coin(175_000_000, "uluna"));
    let before = state.clone();
    let res = reply(&mut state, &vec![], funded(None));
    assert_eq!(res, Err(ContractError::RequestedAssetNotProvided));
    assert_eq!(state, before);
}

#[test]
fn funding_with_other_data_than_the_notice_is_refused() {
    let mut state = lent(coin(175_000_000, "uluna"));
    let before = state.clone();
    for data in [
        Payload::Encoded(HOOK.to_vec()),
        Payload::Vault(VaultMsg::ProvideAsset {
            asset: coin(175_000_000, "uluna"),
            borrower_addr: String::from("borrower"),
        }),
        Payload::Gateway(ExecuteMsg::FlashLoanProvided { asset: coin(175_000_000, "uluna") }),
    ] {
        let msg = Reply { id: ON_FUNDED, result: Ok(SubMsgResponse { data: Some(data) }) };
        let res = reply(&mut state, &vec![], msg);
        assert_eq!(res, Err(ContractError::RequestedAssetNotProvided));
        assert_eq!(state, before);
    }
}

#[test]
fn funding_without_a_loan_finds_no_record() {
    let mut state = idle();
    let res = reply(&mut state, &vec![], funded(Some(coin(175_000_000, "uluna"))));
    assert_eq!(res, Err(ContractError::NotFound));
    assert_eq!(state, idle());
}

#[test]
fn vault_confirmation_is_held_against_the_record() {
    let mut state = lent(coin(175_000_000, "uluna"));
    let before = state.clone();

    let response = execute(
        &mut state,
        mock_info("vault"),
        ExecuteMsg::FlashLoanProvided { asset: coin(175_000_000, "uluna") },
    )
    .unwrap();
    assert!(response.messages.is_empty());
    assert_eq!(response.attributes, vec![Attribute::new("method", "flash_loan_provided")]);
    assert_eq!(state, before);

    let res = execute_flash_loan_provided(&mut state, coin(175_000_000, "uusd"));
    assert_eq!(res, Err(ContractError::RequestedAssetNotProvided));
    let res = execute_flash_loan_provided(&mut state, coin(100, "uluna"));
    assert_eq!(res, Err(ContractError::RequestedAssetNotProvided));
    assert_eq!(state, before);

    let mut state = idle();
    let res = execute_flash_loan_provided(&mut state, coin(175_000_000, "uluna"));
    assert_eq!(res, Err(ContractError::NotFound));
}

#[test]
fn failed_sub_message_fails_the_gateway_with_its_reason() {
    let mut state = lent(coin(175_000_000, "uluna"));
    let before = state.clone();
    for id in [ON_FUNDED, ON_REPAID, 0, 77] {
        let res = reply(
            &mut state,
            &vec![coin(180_250_000, "uluna")],
            Reply { id, result: Err(String::from("vault is empty")) },
        );
        assert_eq!(res, Err(ContractError::GenericErr { msg: String::from("vault is empty") }));
        assert_eq!(state, before);
    }
}

#[test]
fn unknown_reply_tag_is_refused() {
    let mut state = lent(coin(175_000_000, "uluna"));
    let before = state.clone();
    for id in [0u64, 3, 4, u64::MAX] {
        let res = reply(
            &mut state,
            &vec![coin(180_250_000, "uluna")],
            Reply { id, result: Ok(SubMsgResponse { data: None }) },
        );
        assert_eq!(res, Err(ContractError::InvalidReplyId { id }));
        assert_eq!(state, before);
    }
}

#[test]
fn settlement_fails_one_unit_short() {
    let mut state = lent(coin(175_000_000, "uluna"));
    let before = state.clone();

    let res = reply(&mut state, &vec![coin(180_249_999, "uluna")], repaid());

    assert_eq!(res, Err(ContractError::NotEnoughFundsToCoverLoanRepayment));
    assert_eq!(state, before);
}

#[test]
fn settlement_succeeds_at_exactly_what_is_owed() {
    let mut state = lent(coin(175_000_000, "uluna"));

    let response = reply(&mut state, &vec![coin(180_250_000, "uluna")], repaid()).unwrap();

    assert_eq!(
        response.messages,
        vec![SubMsg::new(CosmosMsg::Bank(BankMsg::Send {
            to_address: String::from("vault"),
            amount: vec![coin(178_500_000, "uluna")],
        }))]
    );
    assert_eq!(
        response.attributes,
        vec![Attribute::new("method", "on_external_handler_completed")]
    );
    assert_eq!(state, idle());
    // what the gateway held, less what it sends on, is its fee
    assert_eq!(180_250_000u128 - 178_500_000, 175_000_000 / 100);
}

#[test]
fn settlement_looks_at_the_denomination_of_the_loan_only() {
    let mut state = lent(coin(175_000_000, "uluna"));
    let before = state.clone();

    let res = reply_on_external_handler_completed(&mut state, &vec![coin(u128::MAX, "uusd")]);
    assert_eq!(res, Err(ContractError::NotEnoughFundsToCoverLoanRepayment));
    assert_eq!(state, before);

    let res = reply_on_external_handler_completed(&mut state, &vec![]);
    assert_eq!(res, Err(ContractError::NotEnoughFundsToCoverLoanRepayment));
    assert_eq!(state, before);

    let held = vec![coin(1, "uusd"), coin(200_000_000, "uluna")];
    assert!(reply_on_external_handler_completed(&mut state, &held).is_ok());
    assert_eq!(state.flash_loan_state, None);
}

#[test]
fn settlement_without_a_loan_finds_no_record() {
    let mut state = idle();
    let res = reply(&mut state, &vec![coin(180_250_000, "uluna")], repaid());
    assert_eq!(res, Err(ContractError::NotFound));
    assert_eq!(state, idle());
}

#[test]
fn settlement_of_a_debt_that_does_not_fit_is_an_overflow() {
    let mut state = lent(coin(u128::MAX, "uluna"));
    let before = state.clone();
    let res = reply(&mut state, &vec![coin(u128::MAX, "uluna")], repaid());
    assert_eq!(res, Err(ContractError::Overflow));
    assert_eq!(state, before);
}

#[test]
fn debt_remaining_while_the_loan_is_in_flight() {
    let state = lent(coin(175_000_000, "uluna"));
    let before = state.clone();

    let debt = query(&state, QueryMsg::DebtRemaining { borrower: String::from("borrower") });
    assert_eq!(debt, Ok((coin(180_250_000, "uluna"), coin(178_500_000, "uluna"))));
    assert_eq!(query_debt_remaining(&state, &String::from("borrower")), debt);
    assert_eq!(state, before);
}

#[test]
fn debt_remaining_of_somebody_else_is_no_active_loan() {
    let state = lent(coin(175_000_000, "uluna"));
    assert_eq!(
        query(&state, QueryMsg::DebtRemaining { borrower: String::from("somebody_else") }),
        Err(ContractError::NoActiveLoan)
    );
    assert_eq!(
        query_debt_remaining(&state, &String::from("")),
        Err(ContractError::NoActiveLoan)
    );
}

#[test]
fn debt_remaining_without_a_loan_is_no_active_loan() {
    assert_eq!(
        query(&idle(), QueryMsg::DebtRemaining { borrower: String::from("borrower") }),
        Err(ContractError::NoActiveLoan)
    );
}

#[test]
fn successful_cycle_clears_the_loan() {
    let mut state = idle();
    let asset = coin(175_000_000, "uluna");

    execute_request_flash_loan(&mut state, mock_info("borrower"), asset.clone(), HOOK.to_vec())
        .unwrap();
    reply(&mut state, &vec![], funded(Some(asset))).unwrap();
    reply(&mut state, &vec![coin(180_250_000, "uluna")], repaid()).unwrap();

    assert_eq!(state.flash_loan_state, None);
    assert_eq!(state, idle());
    assert_eq!(
        query(&state, QueryMsg::DebtRemaining { borrower: String::from("borrower") }),
        Err(ContractError::NoActiveLoan)
    );
    // the lock is free again
    assert!(execute_request_flash_loan(&mut state, mock_info("next"), coin(1, "uluna"), vec![])
        .is_ok());
}

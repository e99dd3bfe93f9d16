use cw_flash_loan::borrower::contract::{
    execute, execute_on_flash_loan_provided, execute_open_flash_loan, instantiate,
};
use cw_flash_loan::borrower::msg::{ExecuteMsg, InstantiateMsg};
use cw_flash_loan::error::ContractError;
use cw_flash_loan::borrower::state::Config;
use cw_flash_loan::coin::coin;
use cw_flash_loan::gateway::helpers::{Contract, RequestFlashLoanProps};
use cw_flash_loan::gateway::msg::ExecuteMsg as GatewayMsg;
use cw_flash_loan::host::{Attribute, BankMsg, CosmosMsg, Payload, SubMsg, WasmMsg};

const HOOK: &[u8] = br#"{"on_flash_loan_provided":{}}"#;

fn config() -> Config {
    Config { cw_gateway_contract_addr: String::from("gateway") }
}

#[test]
fn borrower_is_set_up_with_its_gateway() {
    let (config, response) =
        instantiate(InstantiateMsg { cw_gateway_contract_addr: String::from("gateway") });
    assert_eq!(config, Config { cw_gateway_contract_addr: String::from("gateway") });
    assert_eq!(response.attributes, vec![Attribute::new("method", "instantiate")]);
    assert!(response.messages.is_empty());
}

#[test]
fn opening_a_loan_asks_the_gateway() {
    let response = execute_open_flash_loan(&config(), coin(175_000_000, "uluna"), HOOK.to_vec());

    assert_eq!(
        response.messages,
        vec![SubMsg::new(CosmosMsg::Wasm(WasmMsg::Execute {
            contract_addr: String::from("gateway"),
            msg: Payload::Gateway(GatewayMsg::RequestFlashLoan {
                asset: coin(175_000_000, "uluna"),
                on_funded_msg: HOOK.to_vec(),
            }),
            funds: vec![],
        }))]
    );
    assert_eq!(
        response.attributes,
        vec![
            Attribute::new("module", "borrower"),
            Attribute::new("action", "execute_open_flash_loan"),
        ]
    );
    assert_eq!(response.data, None);
}

#[test]
fn funded_borrower_pays_the_gateway_what_it_owes() {
    let response = execute_on_flash_loan_provided(&config(), coin(180_250_000, "uluna"));

    assert_eq!(
        response.messages,
        vec![SubMsg::new(CosmosMsg::Bank(BankMsg::Send {
            to_address: String::from("gateway"),
            amount: vec![coin(180_250_000, "uluna")],
        }))]
    );
    assert_eq!(
        response.attributes,
        vec![
            Attribute::new("module", "borrower"),
            Attribute::new("action", "execute_on_flash_loan_provided"),
        ]
    );
}

#[test]
fn borrower_opens_a_loan_whatever_the_gateway_says_of_its_debt() {
    let msg = ExecuteMsg::OpenFlashLoan { asset_to_borrow: coin(175_000_000, "uluna") };
    let expected = execute_open_flash_loan(&config(), coin(175_000_000, "uluna"), HOOK.to_vec());

    let res = execute(&config(), HOOK.to_vec(), Err(ContractError::NoActiveLoan), msg.clone());
    assert_eq!(res, Ok(expected.clone()));

    let res = execute(&config(), HOOK.to_vec(), Ok(coin(7, "uluna")), msg);
    assert_eq!(res, Ok(expected));
}

#[test]
fn borrower_pays_back_what_the_gateway_names() {
    let res = execute(
        &config(),
        HOOK.to_vec(),
        Ok(coin(180_250_000, "uluna")),
        ExecuteMsg::OnFlashLoanProvided {},
    );
    assert_eq!(res, Ok(execute_on_flash_loan_provided(&config(), coin(180_250_000, "uluna"))));
}

#[test]
fn borrower_fails_as_the_gateway_does_when_it_names_no_debt() {
    for e in [ContractError::NoActiveLoan, ContractError::Overflow] {
        let msg = ExecuteMsg::OnFlashLoanProvided {};
        let res = execute(&config(), HOOK.to_vec(), Err(e.clone()), msg);
        assert_eq!(res, Err(e));
    }
}

#[test]
fn gateway_handle_builds_messages_for_its_address() {
    let gateway = Contract(String::from("gateway"));
    assert_eq!(gateway.addr(), "gateway");

    let msg = GatewayMsg::FlashLoanProvided { asset: coin(1, "uluna") };
    assert_eq!(
        gateway.call(msg.clone(), Some(vec![coin(5, "uusd")])),
        CosmosMsg::Wasm(WasmMsg::Execute {
            contract_addr: String::from("gateway"),
            msg: Payload::Gateway(msg.clone()),
            funds: vec![coin(5, "uusd")],
        })
    );
    assert_eq!(
        gateway.call(msg.clone(), None),
        CosmosMsg::Wasm(WasmMsg::Execute {
            contract_addr: String::from("gateway"),
            msg: Payload::Gateway(msg),
            funds: vec![],
        })
    );
    assert_eq!(
        gateway.request_flash_loan(RequestFlashLoanProps {
            asset: coin(2, "uluna"),
            on_flash_loan_provided_hook: vec![1, 2, 3],
        }),
        CosmosMsg::Wasm(WasmMsg::Execute {
            contract_addr: String::from("gateway"),
            msg: Payload::Gateway(GatewayMsg::RequestFlashLoan {
                asset: coin(2, "uluna"),
                on_funded_msg: vec![1, 2, 3],
            }),
            funds: vec![],
        })
    );
    assert_eq!(
        gateway.repay_flash_loan(coin(3, "uluna")),
        CosmosMsg::Bank(BankMsg::Send {
            to_address: String::from("gateway"),
            amount: vec![coin(3, "uluna")],
        })
    );
}

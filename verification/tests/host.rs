use cw_flash_loan::coin::coin;
use cw_flash_loan::host::{
    Attribute, BankMsg, CosmosMsg, Payload, ReplyOn, Response, SubMsg, WasmMsg, UNUSED_MSG_ID,
};

fn transfer(to: &str, amount: u128) -> CosmosMsg {
    CosmosMsg::Bank(BankMsg::Send {
        to_address: String::from(to),
        amount: vec![coin(amount, "uluna")],
    })
}

#[test]
fn attribute_holds_key_and_value() {
    let attribute = Attribute::new("method", "instantiate");
    assert_eq!(attribute.key, "method");
    assert_eq!(attribute.value, "instantiate");
}

#[test]
fn plain_sub_message_is_sent_and_forgotten() {
    let sub = SubMsg::new(transfer("vault", 5));
    assert_eq!(UNUSED_MSG_ID, 0);
    assert_eq!(sub.id, 0);
    assert_eq!(sub.gas_limit, None);
    assert_eq!(sub.reply_on, ReplyOn::Never);
    assert_eq!(sub.msg, transfer("vault", 5));
}

#[test]
fn sub_message_with_a_tag_comes_back_on_success() {
    let call = CosmosMsg::Wasm(WasmMsg::Execute {
        contract_addr: String::from("borrower"),
        msg: Payload::Encoded(vec![1, 2, 3]),
        funds: vec![],
    });
    let sub = SubMsg::reply_on_success(call.clone(), 2);
    assert_eq!(sub, SubMsg { id: 2, msg: call, gas_limit: None, reply_on: ReplyOn::Success });
}

#[test]
fn new_response_asks_for_nothing() {
    assert_eq!(Response::new(), Response { messages: vec![], attributes: vec![], data: None });
}

#[test]
fn response_keeps_the_order_of_what_is_added() {
    let response = Response::new()
        .add_attribute("module", "vault")
        .add_message(transfer("a", 1))
        .add_submessage(SubMsg::reply_on_success(transfer("b", 2), 7))
        .add_attribute("action", "lend")
        .add_message(transfer("c", 3))
        .set_data(Payload::Encoded(vec![9]));

    assert_eq!(
        response.messages,
        vec![
            SubMsg::new(transfer("a", 1)),
            SubMsg::reply_on_success(transfer("b", 2), 7),
            SubMsg::new(transfer("c", 3)),
        ]
    );
    assert_eq!(
        response.attributes,
        vec![Attribute::new("module", "vault"), Attribute::new("action", "lend")]
    );
    assert_eq!(response.data, Some(Payload::Encoded(vec![9])));
}

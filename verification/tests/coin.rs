use cw_flash_loan::coin::{balance_of, coin, Coin};
use cw_flash_loan::error::ContractError;
use cw_flash_loan::math::{checked_add, checked_div};

#[test]
fn coin_holds_what_it_was_made_of() {
    let c = coin(990, "uluna");
    assert_eq!(c.amount, 990);
    assert_eq!(c.denom, "uluna");
    assert_eq!(c, Coin::new(990, "uluna"));
    assert_eq!(c.clone(), c);
}

#[test]
fn coins_are_the_same_only_in_denom_and_amount() {
    assert!(coin(10, "uluna").same_as(&coin(10, "uluna")));
    assert!(!coin(10, "uluna").same_as(&coin(9, "uluna")));
    assert!(!coin(10, "uluna").same_as(&coin(10, "uusd")));
}

#[test]
fn balance_of_finds_the_denomination() {
    let held = vec![coin(5, "uusd"), coin(180_250_000, "uluna"), coin(7, "ukrw")];
    assert_eq!(balance_of(&held, &String::from("uluna")), 180_250_000);
    assert_eq!(balance_of(&held, &String::from("uusd")), 5);
    assert_eq!(balance_of(&held, &String::from("ukrw")), 7);
}

#[test]
fn balance_of_is_nothing_where_the_denomination_is_missing() {
    let held = vec![coin(5, "uusd")];
    assert_eq!(balance_of(&held, &String::from("uluna")), 0);
    assert_eq!(balance_of(&vec![], &String::from("uluna")), 0);
}

#[test]
fn balance_of_reads_the_first_entry_of_a_denomination() {
    let held = vec![coin(3, "uluna"), coin(4, "uluna")];
    assert_eq!(balance_of(&held, &String::from("uluna")), 3);
}

#[test]
fn checked_add_adds() {
    assert_eq!(checked_add(175_000_000, 3_500_000), Ok(178_500_000));
    assert_eq!(checked_add(0, 0), Ok(0));
    assert_eq!(checked_add(u128::MAX - 1, 1), Ok(u128::MAX));
}

#[test]
fn checked_add_fails_on_overflow() {
    assert_eq!(checked_add(u128::MAX, 1), Err(ContractError::Overflow));
    assert_eq!(checked_add(u128::MAX, u128::MAX), Err(ContractError::Overflow));
}

#[test]
fn checked_div_rounds_down() {
    assert_eq!(checked_div(175_000_000, 100), Ok(1_750_000));
    assert_eq!(checked_div(199, 100), Ok(1));
    assert_eq!(checked_div(99, 100), Ok(0));
    assert_eq!(checked_div(7, 7), Ok(1));
}

#[test]
fn checked_div_fails_on_zero() {
    assert_eq!(checked_div(175_000_000, 0), Err(ContractError::DivideByZero));
}

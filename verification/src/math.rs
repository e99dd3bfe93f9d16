//! Checked arithmetic on amounts.

use crate::error::ContractError;
use cosmwasm_std::{DivideByZeroError, OverflowError, Uint128};
use vstd::prelude::*;

verus! {

/// `cosmwasm_std::OverflowError`, the error of an operation whose result
/// leaves the range of its type. Nothing is claimed of what it holds.
#[verifier::external_type_specification]
#[verifier::external_body]
pub struct ExOverflowError(cosmwasm_std::OverflowError);

/// `cosmwasm_std::DivideByZeroError`, the error of a division by zero.
/// Nothing is claimed of what it holds.
#[verifier::external_type_specification]
#[verifier::external_body]
pub struct ExDivideByZeroError(cosmwasm_std::DivideByZeroError);

/// Calls `cosmwasm_std::Uint128::checked_add` on two amounts. It is taken to
/// return the sum where the sum fits in 128 bits, and an error where it does
/// not.
#[verifier::external_body]
fn uint128_checked_add(a: u128, b: u128) -> (res: Result<u128, OverflowError>)
    ensures
        res is Ok <==> a + b <= u128::MAX,
        res matches Ok(sum) ==> sum == a + b,
{
    match Uint128::new(a).checked_add(Uint128::new(b)) {
        Ok(sum) => Ok(sum.u128()),
        Err(e) => Err(e),
    }
}

/// Calls `cosmwasm_std::Uint128::checked_div` on two amounts. It is taken to
/// return the quotient, rounded down, where the divisor is not zero, and an
/// error where it is.
#[verifier::external_body]
fn uint128_checked_div(a: u128, b: u128) -> (res: Result<u128, DivideByZeroError>)
    ensures
        res is Ok <==> b != 0,
        res matches Ok(quotient) ==> quotient == a / b,
{
    match Uint128::new(a).checked_div(Uint128::new(b)) {
        Ok(quotient) => Ok(quotient.u128()),
        Err(e) => Err(e),
    }
}

/// The sum of two amounts, or [`ContractError::Overflow`] where it does not
/// fit in 128 bits.
pub fn checked_add(a: u128, b: u128) -> (res: Result<u128, ContractError>)
    ensures
        a + b <= u128::MAX ==> res == Ok::<u128, ContractError>((a + b) as u128),
        a + b > u128::MAX ==> res == Err::<u128, ContractError>(ContractError::Overflow),
{
    match uint128_checked_add(a, b) {
        Ok(sum) => Ok(sum),
        Err(_) => Err(ContractError::Overflow),
    }
}

/// The quotient of two amounts, rounded down, or
/// [`ContractError::DivideByZero`] where the divisor is zero.
pub fn checked_div(a: u128, b: u128) -> (res: Result<u128, ContractError>)
    ensures
        b != 0 ==> res == Ok::<u128, ContractError>(a / b),
        b == 0 ==> res == Err::<u128, ContractError>(ContractError::DivideByZero),
{
    match uint128_checked_div(a, b) {
        Ok(quotient) => Ok(quotient),
        Err(_) => Err(ContractError::DivideByZero),
    }
}

} // verus!

//! The ways in which a step of the protocol fails.

use vstd::prelude::*;

verus! {

/// The mathematical reading of a [`ContractError`].
pub enum ContractErrorView {
    Unauthorized,
    AssetUnavailable,
    LoanInProgress,
    RequestedAssetNotProvided,
    InvalidReplyId { id: u64 },
    NotEnoughFundsToCoverLoanRepayment,
    NoActiveLoan,
    Overflow,
    DivideByZero,
    NotFound,
    GenericErr { msg: Seq<char> },
}

/// Why a step of the protocol was refused. Every one of them is fatal to the
/// transaction that the step belongs to.
#[derive(Clone, Debug, PartialEq, Eq)]
pub enum ContractError {
    /// The caller is not a gateway that the vault lends through.
    Unauthorized,
    /// The vault cannot lend the asset that was asked for.
    AssetUnavailable,
    /// A loan was requested while another one is still in flight.
    LoanInProgress,
    /// The asset that the vault reports is not the one that was requested.
    RequestedAssetNotProvided,
    /// A continuation came back under a tag that the gateway never set.
    InvalidReplyId { id: u64 },
    /// The gateway holds less than the borrower owes when the loan is settled.
    NotEnoughFundsToCoverLoanRepayment,
    /// No loan is recorded for the borrower that was asked about.
    NoActiveLoan,
    /// An amount left the range of 128-bit unsigned integers.
    Overflow,
    /// An amount was divided by zero.
    DivideByZero,
    /// A record that a step relies on is missing.
    NotFound,
    /// A sub-message failed; `msg` is the failure that it reported.
    GenericErr { msg: String },
}

impl View for ContractError {
    type V = ContractErrorView;

    open spec fn view(&self) -> ContractErrorView {
        match *self {
            ContractError::Unauthorized => ContractErrorView::Unauthorized,
            ContractError::AssetUnavailable => ContractErrorView::AssetUnavailable,
            ContractError::LoanInProgress => ContractErrorView::LoanInProgress,
            ContractError::RequestedAssetNotProvided => {
                ContractErrorView::RequestedAssetNotProvided
            },
            ContractError::InvalidReplyId { id } => ContractErrorView::InvalidReplyId { id },
            ContractError::NotEnoughFundsToCoverLoanRepayment => {
                ContractErrorView::NotEnoughFundsToCoverLoanRepayment
            },
            ContractError::NoActiveLoan => ContractErrorView::NoActiveLoan,
            ContractError::Overflow => ContractErrorView::Overflow,
            ContractError::DivideByZero => ContractErrorView::DivideByZero,
            ContractError::NotFound => ContractErrorView::NotFound,
            ContractError::GenericErr { msg } => ContractErrorView::GenericErr { msg: msg@ },
        }
    }
}

} // verus!

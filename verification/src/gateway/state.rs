//! What the gateway keeps between two messages.

use crate::coin::{Coin, CoinView};
use vstd::prelude::*;

verus! {

/// The mathematical reading of a [`Config`].
pub struct ConfigView {
    pub cw_vault_contract_addr: Seq<char>,
}

/// Set once, when the gateway is set up.
#[derive(Clone, Debug, PartialEq, Eq)]
pub struct Config {
    /// The vault that this gateway borrows from.
    pub cw_vault_contract_addr: String,
}

impl View for Config {
    type V = ConfigView;

    open spec fn view(&self) -> ConfigView {
        ConfigView { cw_vault_contract_addr: self.cw_vault_contract_addr@ }
    }
}

/// The mathematical reading of a [`FlashLoanState`].
pub struct FlashLoanStateView {
    pub borrower_contract_addr: Seq<char>,
    pub borrower_requested_asset: CoinView,
    pub on_funded_msg: Seq<u8>,
}

/// The record of the loan in flight.
#[derive(Clone, Debug, PartialEq, Eq)]
pub struct FlashLoanState {
    /// Who asked for the loan.
    pub borrower_contract_addr: String,
    /// What was asked for.
    pub borrower_requested_asset: Coin,
    /// What the borrower wants to be called back with.
    pub on_funded_msg: Vec<u8>,
}

impl View for FlashLoanState {
    type V = FlashLoanStateView;

    open spec fn view(&self) -> FlashLoanStateView {
        FlashLoanStateView {
            borrower_contract_addr: self.borrower_contract_addr@,
            borrower_requested_asset: self.borrower_requested_asset@,
            on_funded_msg: self.on_funded_msg@,
        }
    }
}

/// The mathematical reading of a [`State`].
pub struct StateView {
    pub config: ConfigView,
    pub flash_loan_state: Option<FlashLoanStateView>,
}

/// Everything the gateway keeps: its configuration and one slot for the loan
/// in flight. The slot is the lock: it is taken from the moment a loan is
/// requested until the loan is settled.
#[derive(Clone, Debug, PartialEq, Eq)]
pub struct State {
    pub config: Config,
    pub flash_loan_state: Option<FlashLoanState>,
}

impl View for State {
    type V = StateView;

    open spec fn view(&self) -> StateView {
        StateView {
            config: self.config@,
            flash_loan_state: match self.flash_loan_state {
                Some(loan) => Some(loan@),
                None => None,
            },
        }
    }
}

} // verus!

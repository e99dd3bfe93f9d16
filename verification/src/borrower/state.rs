//! What the borrower keeps between two messages.

use vstd::prelude::*;

verus! {

/// The mathematical reading of a [`Config`].
pub struct ConfigView {
    pub cw_gateway_contract_addr: Seq<char>,
}

/// Set once, when the borrower is set up.
#[derive(Clone, Debug, PartialEq, Eq)]
pub struct Config {
    /// The gateway that this borrower borrows through.
    pub cw_gateway_contract_addr: String,
}

impl View for Config {
    type V = ConfigView;

    open spec fn view(&self) -> ConfigView {
        ConfigView { cw_gateway_contract_addr: self.cw_gateway_contract_addr@ }
    }
}

} // verus!

//! The conditions on which the marketplace rejects a call.

use cosmwasm_std::StdError;
use vstd::prelude::*;

verus! {

/// Why the coins attached to a call are not the one payment asked for.
#[derive(Clone, Debug, PartialEq)]
pub enum PaymentError {
    /// One coin was attached, but of another denomination than the one named.
    MissingDenom(String),
    /// A coin of a denomination that is not accepted was attached.
    ExtraDenom(String),
    /// More than one coin was attached.
    MultipleDenoms {},
    /// No coin was attached, or one with amount zero.
    NoFunds {},
    /// Coins were attached to a call that takes none.
    NonPayable {},
}

/// A payment error as a mathematical value.
pub enum PaymentErrorView {
    MissingDenom(Seq<char>),
    ExtraDenom(Seq<char>),
    MultipleDenoms,
    NoFunds,
    NonPayable,
}

impl View for PaymentError {
    type V = PaymentErrorView;

    open spec fn view(&self) -> PaymentErrorView {
        match self {
            PaymentError::MissingDenom(d) => PaymentErrorView::MissingDenom(d@),
            PaymentError::ExtraDenom(d) => PaymentErrorView::ExtraDenom(d@),
            PaymentError::MultipleDenoms {  } => PaymentErrorView::MultipleDenoms,
            PaymentError::NoFunds {  } => PaymentErrorView::NoFunds,
            PaymentError::NonPayable {  } => PaymentErrorView::NonPayable,
        }
    }
}

/// Why the marketplace rejected a call.
#[derive(Debug)]
pub enum ContractError {
    /// A read of the storage found nothing where something is needed, or a
    /// migration was rejected.
    Std(StdError),
    /// A purchase in the native coin named a token for which no ask stands.
    TokenNotListedForSale {},
    /// A withdrawal named a token that the caller has not deposited.
    NoCw721ToWithdraw {},
    /// The caller is not the owner that the operation is reserved for.
    UnauthorizedOwner {},
    /// Another rejection, told apart by its text.
    CustomError { val: String },
    /// The coins attached to a purchase are not one payment in the configured
    /// denomination.
    Payment(PaymentError),
}

impl ContractError {
    /// Whether this is the custom error with the given text.
    pub open spec fn is_custom(self, text: Seq<char>) -> bool {
        self matches ContractError::CustomError { val } && val@ == text
    }

    /// Whether this is the payment error with the given value.
    pub open spec fn is_payment(self, error: PaymentErrorView) -> bool {
        self matches ContractError::Payment(e) && e@ == error
    }
}

} // verus!

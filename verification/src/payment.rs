//! The one payment that a purchase in the native coin must carry.

use vstd::prelude::*;

use crate::error::PaymentError;
use crate::error::PaymentErrorView;
use crate::host::coins_view;
use crate::host::CoinView;
use crate::host::MessageInfo;

verus! {

/// What is paid in `denom` by the coins `funds`: the amount where they are
/// one coin of that denomination and not zero, and else the reason why not.
pub open spec fn payment_of(funds: Seq<CoinView>, denom: Seq<char>) -> Result<
    u128,
    PaymentErrorView,
> {
    if funds.len() == 0 {
        Err(PaymentErrorView::NoFunds)
    } else if funds.len() > 1 {
        Err(PaymentErrorView::MultipleDenoms)
    } else if funds[0].amount == 0 {
        Err(PaymentErrorView::NoFunds)
    } else if funds[0].denom != denom {
        Err(PaymentErrorView::MissingDenom(denom))
    } else {
        Ok(funds[0].amount)
    }
}

/// The outcome of a payment check, as a mathematical value.
pub open spec fn payment_view(r: Result<u128, PaymentError>) -> Result<u128, PaymentErrorView> {
    match r {
        Ok(amount) => Ok(amount),
        Err(e) => Err(e@),
    }
}

/// `cw_utils::must_pay`: the amount that the call carries in `denom`, where it
/// carries exactly one coin, of that denomination and not zero; and else which
/// of these is not so.
#[verifier::external_body]
pub(crate) fn must_pay(info: &MessageInfo, denom: &String) -> (r: Result<u128, PaymentError>)
    ensures
        payment_view(r) == payment_of(coins_view(info.funds@), denom@),
{
    let funds = info.funds.iter().map(|c| cosmwasm_std::coin(c.amount, &c.denom)).collect();
    let sender = cosmwasm_std::Addr::unchecked(&info.sender);
    match cw_utils::must_pay(&cosmwasm_std::MessageInfo { sender, funds }, denom) {
        Ok(amount) => Ok(amount.u128()),
        Err(cw_utils::PaymentError::MissingDenom(d)) => Err(PaymentError::MissingDenom(d)),
        Err(cw_utils::PaymentError::ExtraDenom(d)) => Err(PaymentError::ExtraDenom(d)),
        Err(cw_utils::PaymentError::MultipleDenoms {  }) => Err(PaymentError::MultipleDenoms {  }),
        Err(cw_utils::PaymentError::NoFunds {  }) => Err(PaymentError::NoFunds {  }),
        Err(cw_utils::PaymentError::NonPayable {  }) => Err(PaymentError::NonPayable {  }),
    }
}

} // verus!

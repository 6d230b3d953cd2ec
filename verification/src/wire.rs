//! The messages that the marketplace sends to the contracts it works with,
//! and their encoding.

use cosmwasm_std::StdError;
use vstd::prelude::*;

verus! {

/// A message for another contract.
#[derive(Clone, Debug, PartialEq)]
pub enum ContractCall {
    /// Tells a collection to hand the token to `recipient`.
    TransferNft { recipient: String, token_id: String },
    /// Tells a fungible-token contract to pay `amount` to `recipient`.
    Transfer { recipient: String, amount: u128 },
}

/// A message for another contract, as a mathematical value.
pub enum ContractCallView {
    TransferNft { recipient: Seq<char>, token_id: Seq<char> },
    Transfer { recipient: Seq<char>, amount: u128 },
}

impl View for ContractCall {
    type V = ContractCallView;

    open spec fn view(&self) -> ContractCallView {
        match self {
            ContractCall::TransferNft { recipient, token_id } => ContractCallView::TransferNft {
                recipient: recipient@,
                token_id: token_id@,
            },
            ContractCall::Transfer { recipient, amount } => ContractCallView::Transfer {
                recipient: recipient@,
                amount: *amount,
            },
        }
    }
}

/// The JSON of a message, as the contract it is for reads it.
pub uninterp spec fn json_of(call: ContractCallView) -> Seq<u8>;

/// `cosmwasm_std::to_json_binary`, on the transfer message of `cw721_base` or
/// of `cw20`: the bytes are the JSON of the message. Either message holds
/// strings and a number written as a string, which the encoder writes without
/// fail.
#[verifier::external_body]
pub(crate) fn to_binary(call: &ContractCall) -> (r: Result<Vec<u8>, StdError>)
    ensures
        r is Ok,
        r matches Ok(bytes) ==> bytes@ == json_of(call@),
{
    let sent = match call {
        ContractCall::TransferNft { recipient, token_id } => {
            let (recipient, token_id) = (recipient.clone(), token_id.clone());
            cosmwasm_std::to_json_binary(
                &cw721_base::ExecuteMsg::<cosmwasm_std::Empty>::TransferNft { recipient, token_id },
            )
        },
        ContractCall::Transfer { recipient, amount } => {
            let (recipient, amount) = (recipient.clone(), cosmwasm_std::Uint128::new(*amount));
            cosmwasm_std::to_json_binary(&cw20::Cw20ExecuteMsg::Transfer { recipient, amount })
        },
    };
    sent.map(|binary| binary.0)
}

} // verus!

//! The messages the marketplace takes and the answers it gives.

use vstd::prelude::*;

use crate::state::Ask;
use crate::state::AskKey;
use crate::state::AskView;
use crate::state::Cw721Deposits;
use crate::state::DepositView;

verus! {

/// Sets the marketplace up.
#[derive(Clone, Debug, PartialEq)]
pub struct InstantiateMsg {
    /// The denomination accepted for purchases paid in the native coin.
    pub native_denom: String,
}

/// What a buyer asks for with a payment in a fungible token.
#[derive(Clone, Debug, PartialEq)]
pub enum Cw20HookMsg {
    /// Buy the token `token_id` of the collection `cw721_contract`.
    Purchase { cw721_contract: String, token_id: String },
}

/// What a seller asks for with the deposit of a token.
#[derive(Clone, Debug, PartialEq)]
pub enum Cw721HookMsg {
    /// List the token for `amount`, to be paid in the fungible token
    /// `cw20_contract`, or in the native coin where that is `None`. Who the
    /// owner is and which token it is, the marketplace takes from the
    /// notification that brings this intent, not from `owner` and `token_id`.
    SetListing { owner: String, token_id: String, cw20_contract: Option<String>, amount: u128 },
}

/// The notification that a fungible-token contract sends when `sender` has
/// transferred `amount` to the marketplace.
#[derive(Clone, Debug, PartialEq)]
pub struct Cw20ReceiveMsg {
    pub sender: String,
    pub amount: u128,
    /// The intent that came with the transfer; `None` where what came with it
    /// was not the encoding of one.
    pub msg: Option<Cw20HookMsg>,
}

/// The notification that a collection sends when `sender` has transferred the
/// token `token_id` to the marketplace.
#[derive(Clone, Debug, PartialEq)]
pub struct Cw721ReceiveMsg {
    pub sender: String,
    pub token_id: String,
    /// The intent that came with the transfer; `None` where what came with it
    /// was not the encoding of one.
    pub msg: Option<Cw721HookMsg>,
}

/// A call that may change the ledgers.
#[derive(Clone, Debug, PartialEq)]
pub enum ExecuteMsg {
    /// A payment in a fungible token has arrived.
    Receive(Cw20ReceiveMsg),
    /// A token has been deposited.
    ReceiveNft(Cw721ReceiveMsg),
    /// Buy a token with the native coins attached to the call.
    PurchaseNative { collection: String, token_id: String },
    /// Take a listing back, and with it the token.
    RemoveListing { collection: String, token_id: String },
}

/// A question about the ledgers.
#[derive(Clone, Debug, PartialEq)]
pub enum QueryMsg {
    /// The tokens that `owner` has deposited from `collection`.
    Cw721Deposits { owner: String, collection: String },
    /// The ask for one token.
    Ask { collection: String, token_id: String },
    /// Every ask.
    GetAllAsks {},
}

/// The deposits of one owner in one collection, each with its token id.
#[derive(Clone, Debug, PartialEq)]
pub struct Cw721DepositResponse {
    pub deposits: Vec<(String, Cw721Deposits)>,
}

/// The ask for one token, if there is one.
#[derive(Clone, Debug, PartialEq)]
pub struct AskResponse {
    pub ask: Option<Ask>,
}

/// Every ask, each with its key: collection and token id.
#[derive(Clone, Debug, PartialEq)]
pub struct GetAllAsksResponse {
    pub asks: Vec<((String, String), Ask)>,
}

/// The answer to a question about the ledgers.
#[derive(Clone, Debug, PartialEq)]
pub enum QueryResponse {
    Cw721Deposits(Cw721DepositResponse),
    Ask(AskResponse),
    GetAllAsks(GetAllAsksResponse),
}

/// What a migration is called with: nothing.
#[derive(Clone, Debug, PartialEq)]
pub struct MigrateMsg {}

/// The deposits of a list, as mathematical values.
pub open spec fn deposits_view(deposits: Seq<(String, Cw721Deposits)>) -> Seq<
    (Seq<char>, DepositView),
> {
    deposits.map_values(|d: (String, Cw721Deposits)| (d.0@, d.1@))
}

/// The asks of a list, as mathematical values.
pub open spec fn asks_view(asks: Seq<((String, String), Ask)>) -> Seq<(AskKey, AskView)> {
    asks.map_values(|a: ((String, String), Ask)| ((a.0.0@, a.0.1@), a.1@))
}

impl View for Cw721DepositResponse {
    type V = Seq<(Seq<char>, DepositView)>;

    open spec fn view(&self) -> Seq<(Seq<char>, DepositView)> {
        deposits_view(self.deposits@)
    }
}

impl View for AskResponse {
    type V = Option<AskView>;

    open spec fn view(&self) -> Option<AskView> {
        match self.ask {
            Some(ask) => Some(ask@),
            None => None,
        }
    }
}

impl View for GetAllAsksResponse {
    type V = Seq<(AskKey, AskView)>;

    open spec fn view(&self) -> Seq<(AskKey, AskView)> {
        asks_view(self.asks@)
    }
}

} // verus!

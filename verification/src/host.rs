//! What the host ledger hands to the marketplace with a call, and what the
//! marketplace hands back: the caller and the coins attached, and a response
//! made of attributes and of messages that the host carries out afterwards.

use vstd::prelude::*;

verus! {

/// An amount of a native coin.
#[derive(Clone, Debug, PartialEq)]
pub struct Coin {
    pub denom: String,
    pub amount: u128,
}

/// A coin as a mathematical value.
pub struct CoinView {
    pub denom: Seq<char>,
    pub amount: u128,
}

impl View for Coin {
    type V = CoinView;

    open spec fn view(&self) -> CoinView {
        CoinView { denom: self.denom@, amount: self.amount }
    }
}

/// The coins of a list, as mathematical values.
pub open spec fn coins_view(coins: Seq<Coin>) -> Seq<CoinView> {
    coins.map_values(|c: Coin| c@)
}

/// Who made a call, as the host authenticated them, and what they attached.
#[derive(Clone, Debug, PartialEq)]
pub struct MessageInfo {
    pub sender: String,
    pub funds: Vec<Coin>,
}

/// A key and a value that describe what a call did.
#[derive(Clone, Debug, PartialEq)]
pub struct Attribute {
    pub key: String,
    pub value: String,
}

/// A message that the host carries out once the call has returned.
#[derive(Clone, Debug, PartialEq)]
pub enum CosmosMsg {
    /// Call the contract at `contract_addr` with the JSON message `msg`.
    Execute { contract_addr: String, msg: Vec<u8>, funds: Vec<Coin> },
    /// Pay `amount` to `to_address` in native coins.
    Send { to_address: String, amount: Vec<Coin> },
}

/// A message as a mathematical value.
pub enum CosmosMsgView {
    Execute { contract_addr: Seq<char>, msg: Seq<u8>, funds: Seq<CoinView> },
    Send { to_address: Seq<char>, amount: Seq<CoinView> },
}

impl View for CosmosMsg {
    type V = CosmosMsgView;

    open spec fn view(&self) -> CosmosMsgView {
        match self {
            CosmosMsg::Execute { contract_addr, msg, funds } => CosmosMsgView::Execute {
                contract_addr: contract_addr@,
                msg: msg@,
                funds: coins_view(funds@),
            },
            CosmosMsg::Send { to_address, amount } => CosmosMsgView::Send {
                to_address: to_address@,
                amount: coins_view(amount@),
            },
        }
    }
}

/// What a call returns on success: the messages to carry out, in order, and
/// the attributes that describe it.
#[derive(Clone, Debug, PartialEq)]
pub struct Response {
    pub messages: Vec<CosmosMsg>,
    pub attributes: Vec<Attribute>,
}

/// A response as a mathematical value.
pub struct ResponseView {
    pub messages: Seq<CosmosMsgView>,
    pub attributes: Seq<(Seq<char>, Seq<char>)>,
}

impl View for Response {
    type V = ResponseView;

    open spec fn view(&self) -> ResponseView {
        ResponseView {
            messages: self.messages@.map_values(|m: CosmosMsg| m@),
            attributes: self.attributes@.map_values(|a: Attribute| (a.key@, a.value@)),
        }
    }
}

impl Response {
    /// A response without messages and without attributes.
    pub fn new() -> (r: Response)
        ensures
            r@.messages == Seq::<CosmosMsgView>::empty(),
            r@.attributes == Seq::<(Seq<char>, Seq<char>)>::empty(),
    {
        Response { messages: Vec::new(), attributes: Vec::new() }
    }

    /// The response with one attribute more, at the end.
    pub fn add_attribute(self, key: &str, value: &str) -> (r: Response)
        ensures
            r@.messages == self@.messages,
            r@.attributes == self@.attributes.push((key@, value@)),
    {
        let mut r = self;
        let attribute = Attribute { key: key.to_string(), value: value.to_string() };
        r.attributes.push(attribute);
        r
    }

    /// The response with one message more, at the end.
    pub fn add_message(self, msg: CosmosMsg) -> (r: Response)
        ensures
            r@.messages == self@.messages.push(msg@),
            r@.attributes == self@.attributes,
    {
        let mut r = self;
        r.messages.push(msg);
        r
    }
}

} // verus!

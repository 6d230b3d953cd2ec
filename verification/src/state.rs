//! The records the marketplace keeps, and the mathematical model of its two
//! ledgers.

use vstd::prelude::*;
use vstd::utf8::encode_utf8;

verus! {

/// The marketplace's configuration, written once when it is set up.
#[derive(Clone, Debug, PartialEq)]
pub struct Config {
    /// The denomination accepted for purchases paid in the native coin.
    pub native_denom: String,
}

/// A token held in escrow: who deposited it, and from which collection.
#[derive(Clone, Debug, PartialEq)]
pub struct Cw721Deposits {
    pub owner: String,
    pub collection: String,
    pub token_id: String,
}

/// An offer to sell an escrowed token at a fixed price.
#[derive(Clone, Debug, PartialEq)]
pub struct Ask {
    pub collection: String,
    pub token_id: String,
    pub seller: String,
    /// The price, in the smallest unit of the currency.
    pub price: u128,
    /// The fungible token the seller accepts; `None` for the native coin.
    pub cw20_contract: Option<String>,
}

/// A deposit as a mathematical value.
pub struct DepositView {
    pub owner: Seq<char>,
    pub collection: Seq<char>,
    pub token_id: Seq<char>,
}

/// An ask as a mathematical value.
pub struct AskView {
    pub collection: Seq<char>,
    pub token_id: Seq<char>,
    pub seller: Seq<char>,
    pub price: u128,
    pub cw20_contract: Option<Seq<char>>,
}

/// The characters of an optional string.
pub open spec fn option_view(s: Option<String>) -> Option<Seq<char>> {
    match s {
        Some(s) => Some(s@),
        None => None,
    }
}

impl View for Config {
    type V = Seq<char>;

    open spec fn view(&self) -> Seq<char> {
        self.native_denom@
    }
}

impl View for Cw721Deposits {
    type V = DepositView;

    open spec fn view(&self) -> DepositView {
        DepositView { owner: self.owner@, collection: self.collection@, token_id: self.token_id@ }
    }
}

impl View for Ask {
    type V = AskView;

    open spec fn view(&self) -> AskView {
        AskView {
            collection: self.collection@,
            token_id: self.token_id@,
            seller: self.seller@,
            price: self.price,
            cw20_contract: option_view(self.cw20_contract),
        }
    }
}

/// The key of a deposit: collection, owner, token id.
pub type DepositKey = (Seq<char>, Seq<char>, Seq<char>);

/// The key of an ask: collection, token id.
pub type AskKey = (Seq<char>, Seq<char>);

/// Whether a string can stand in a key before the last place: the storage
/// puts the length of such a part in front of it, in two bytes.
pub open spec fn key_part_fits(part: Seq<char>) -> bool {
    encode_utf8(part).len() <= 0xFFFF
}

/// Whether `part` can stand in a key before the last place.
pub fn fits_key_part(part: &str) -> (r: bool)
    ensures
        r == key_part_fits(part@),
{
    part.as_bytes().len() <= 0xFFFF
}

/// Everything the marketplace keeps, as mathematical values.
pub struct Ledger {
    /// The configured native denomination, once set up.
    pub config: Option<Seq<char>>,
    /// The recorded contract name and version, once set up.
    pub version: Option<(Seq<char>, Seq<char>)>,
    /// The custody ledger.
    pub deposits: Map<DepositKey, DepositView>,
    /// The ask ledger.
    pub asks: Map<AskKey, AskView>,
}

impl Ledger {
    /// The ledger of a marketplace that was never set up.
    pub open spec fn empty() -> Ledger {
        Ledger { config: None, version: None, deposits: Map::empty(), asks: Map::empty() }
    }

    /// The ledger with `denom` as its configuration.
    pub open spec fn with_config(self, denom: Seq<char>) -> Ledger {
        Ledger { config: Some(denom), ..self }
    }

    /// The ledger with `contract` and `version` as its recorded version.
    pub open spec fn with_version(self, contract: Seq<char>, version: Seq<char>) -> Ledger {
        Ledger { version: Some((contract, version)), ..self }
    }

    /// The ledger with `deposit` under `key` in the custody ledger.
    pub open spec fn put_deposit(self, key: DepositKey, deposit: DepositView) -> Ledger {
        Ledger { deposits: self.deposits.insert(key, deposit), ..self }
    }

    /// The ledger with nothing under `key` in the custody ledger.
    pub open spec fn drop_deposit(self, key: DepositKey) -> Ledger {
        Ledger { deposits: self.deposits.remove(key), ..self }
    }

    /// The ledger with `ask` under `key` in the ask ledger.
    pub open spec fn put_ask(self, key: AskKey, ask: AskView) -> Ledger {
        Ledger { asks: self.asks.insert(key, ask), ..self }
    }

    /// The ledger with nothing under `key` in the ask ledger.
    pub open spec fn drop_ask(self, key: AskKey) -> Ledger {
        Ledger { asks: self.asks.remove(key), ..self }
    }

    /// The ledger after `owner` has listed a token of `collection` for
    /// `amount`: its deposit and its ask are recorded.
    pub open spec fn listed(
        self,
        collection: Seq<char>,
        owner: Seq<char>,
        token_id: Seq<char>,
        cw20_contract: Option<Seq<char>>,
        amount: u128,
    ) -> Ledger {
        self.put_deposit(
            (collection, owner, token_id),
            DepositView { owner, collection, token_id },
        ).put_ask(
            (collection, token_id),
            AskView { collection, token_id, seller: owner, price: amount, cw20_contract },
        )
    }

    /// The ledger after `owner` has taken a token back: its deposit and its
    /// ask are cleared.
    pub open spec fn withdrawn(
        self,
        collection: Seq<char>,
        owner: Seq<char>,
        token_id: Seq<char>,
    ) -> Ledger {
        self.drop_deposit((collection, owner, token_id)).drop_ask((collection, token_id))
    }

    /// The ledger after a token has been sold: its ask is cleared, and with it
    /// the deposit of its seller.
    pub open spec fn sold(self, collection: Seq<char>, token_id: Seq<char>) -> Ledger {
        self.withdrawn(collection, self.asks[(collection, token_id)].seller, token_id)
    }

    /// Whether some owner has the token in escrow.
    pub open spec fn in_escrow(self, collection: Seq<char>, token_id: Seq<char>) -> bool {
        exists|owner: Seq<char>| #[trigger]
            self.deposits.contains_key((collection, owner, token_id))
    }

    /// Whether every key of the two ledgers is one that the storage can hold.
    pub open spec fn keys_fit(self) -> bool {
        &&& forall|key: AskKey| #[trigger] self.asks.contains_key(key) ==> key_part_fits(key.0)
        &&& forall|key: DepositKey| #[trigger]
            self.deposits.contains_key(key) ==> key_part_fits(key.0) && key_part_fits(key.1)
    }

    /// Whether the two ledgers agree: every ask stands under its own
    /// collection and token id and has the deposit of its seller beside it, and
    /// every deposit stands under its own collection, owner and token id and
    /// has an ask of its owner beside it.
    pub open spec fn escrow_consistent(self) -> bool {
        &&& forall|key: AskKey| #[trigger]
            self.asks.contains_key(key) ==> {
                &&& self.asks[key].collection == key.0
                &&& self.asks[key].token_id == key.1
                &&& self.deposits.contains_key((key.0, self.asks[key].seller, key.1))
            }
        &&& forall|key: DepositKey| #[trigger]
            self.deposits.contains_key(key) ==> {
                &&& self.deposits[key] == DepositView {
                    owner: key.1,
                    collection: key.0,
                    token_id: key.2,
                }
                &&& self.asks.contains_key((key.0, key.2))
                &&& self.asks[(key.0, key.2)].seller == key.1
            }
    }
}

/// Where the ledgers agree, a token is in escrow exactly where an ask stands
/// for it.
pub proof fn lemma_deposit_iff_ask(ledger: Ledger, collection: Seq<char>, token_id: Seq<char>)
    requires
        ledger.escrow_consistent(),
    ensures
        ledger.in_escrow(collection, token_id) <==> ledger.asks.contains_key(
            (collection, token_id),
        ),
{
    if ledger.asks.contains_key((collection, token_id)) {
        let seller = ledger.asks[(collection, token_id)].seller;
        assert(ledger.deposits.contains_key((collection, seller, token_id)));
    }
}

/// Where the ledgers agree, a token is in escrow for at most one owner.
pub proof fn lemma_single_owner(
    ledger: Ledger,
    collection: Seq<char>,
    token_id: Seq<char>,
    first: Seq<char>,
    second: Seq<char>,
)
    requires
        ledger.escrow_consistent(),
        ledger.deposits.contains_key((collection, first, token_id)),
        ledger.deposits.contains_key((collection, second, token_id)),
    ensures
        first == second,
{
}

/// The empty ledger agrees with itself.
pub proof fn lemma_empty_consistent()
    ensures
        Ledger::empty().escrow_consistent(),
{
}

/// Listing a token that is not in escrow keeps the ledgers in agreement, and
/// puts the token in escrow with an ask beside it.
pub proof fn lemma_listed_agrees(
    ledger: Ledger,
    collection: Seq<char>,
    owner: Seq<char>,
    token_id: Seq<char>,
    cw20_contract: Option<Seq<char>>,
    amount: u128,
)
    requires
        ledger.escrow_consistent(),
        !ledger.in_escrow(collection, token_id),
    ensures
        ledger.listed(collection, owner, token_id, cw20_contract, amount).escrow_consistent(),
        ledger.listed(collection, owner, token_id, cw20_contract, amount).in_escrow(
            collection,
            token_id,
        ),
        ledger.listed(collection, owner, token_id, cw20_contract, amount).asks.contains_key(
            (collection, token_id),
        ),
{
    let after = ledger.listed(collection, owner, token_id, cw20_contract, amount);
    lemma_deposit_iff_ask(ledger, collection, token_id);
    assert(after.deposits.contains_key((collection, owner, token_id)));
}

/// Taking back a token that is in escrow keeps the ledgers in agreement, and
/// leaves neither a deposit of the token nor an ask for it.
pub proof fn lemma_withdrawn_agrees(
    ledger: Ledger,
    collection: Seq<char>,
    owner: Seq<char>,
    token_id: Seq<char>,
)
    requires
        ledger.escrow_consistent(),
        ledger.deposits.contains_key((collection, owner, token_id)),
    ensures
        ledger.withdrawn(collection, owner, token_id).escrow_consistent(),
        !ledger.withdrawn(collection, owner, token_id).in_escrow(collection, token_id),
        !ledger.withdrawn(collection, owner, token_id).asks.contains_key((collection, token_id)),
        ledger.withdrawn(collection, owner, token_id) == ledger.sold(collection, token_id),
{
    let after = ledger.withdrawn(collection, owner, token_id);
    assert forall|other: Seq<char>| !after.deposits.contains_key(
        (collection, other, token_id),
    ) by {
        if ledger.deposits.contains_key((collection, other, token_id)) {
            lemma_single_owner(ledger, collection, token_id, owner, other);
        }
    }
}

/// Selling a token for which an ask stands keeps the ledgers in agreement,
/// and leaves neither a deposit of the token nor an ask for it.
pub proof fn lemma_sold_agrees(ledger: Ledger, collection: Seq<char>, token_id: Seq<char>)
    requires
        ledger.escrow_consistent(),
        ledger.asks.contains_key((collection, token_id)),
    ensures
        ledger.sold(collection, token_id).escrow_consistent(),
        !ledger.sold(collection, token_id).in_escrow(collection, token_id),
        !ledger.sold(collection, token_id).asks.contains_key((collection, token_id)),
{
    lemma_withdrawn_agrees(
        ledger,
        collection,
        ledger.asks[(collection, token_id)].seller,
        token_id,
    );
}

/// Selling a token, or taking it back, undoes its listing: the ledger is as
/// it was before the token was listed.
pub proof fn lemma_listing_undone(
    ledger: Ledger,
    collection: Seq<char>,
    owner: Seq<char>,
    token_id: Seq<char>,
    cw20_contract: Option<Seq<char>>,
    amount: u128,
)
    requires
        ledger.escrow_consistent(),
        !ledger.in_escrow(collection, token_id),
    ensures
        ledger.listed(collection, owner, token_id, cw20_contract, amount).sold(
            collection,
            token_id,
        ) == ledger,
        ledger.listed(collection, owner, token_id, cw20_contract, amount).withdrawn(
            collection,
            owner,
            token_id,
        ) == ledger,
{
    let listed = ledger.listed(collection, owner, token_id, cw20_contract, amount);
    let undone = listed.withdrawn(collection, owner, token_id);
    lemma_deposit_iff_ask(ledger, collection, token_id);
    assert(undone.deposits =~= ledger.deposits);
    assert(undone.asks =~= ledger.asks);
}

} // verus!

//! The marketplace's storage: an in-memory key-value store, read and written
//! through the typed items and maps of `cw_storage_plus`. Nothing in this file
//! is proved: each item says what is taken on trust of the code it calls.
//!
//! What is written is made of strings, of a number written as a string and
//! of an optional string. The JSON encoder writes each of these without fail
//! and never writes nothing, so a save returns `Ok`.
//!
//! Two conditions stand in front of the calls. The storage must be readable
//! (see [`readable`]): on one that is not, a load may fail and a listing may
//! panic. And each part of a key but the last must fit (see
//! [`key_part_fits`]): the maps put the length of such a part in front of it
//! in two bytes, and panic on a longer one.

use cosmwasm_std::MemoryStorage;
use cosmwasm_std::StdError;
use vstd::prelude::*;

use crate::msg::asks_view;
use crate::msg::deposits_view;
use crate::order::lists_asks;
use crate::order::lists_deposits;
use crate::state::key_part_fits;
use crate::state::Ask;
use crate::state::Config;
use crate::state::Cw721Deposits;
use crate::state::Ledger;

verus! {

/// `cosmwasm_std::MemoryStorage`: an ordered map from byte keys to byte values.
#[verifier::external_type_specification]
#[verifier::external_body]
pub struct ExMemoryStorage(cosmwasm_std::MemoryStorage);

/// `cosmwasm_std::StdError`: the error of a storage or encoding call.
#[verifier::external_type_specification]
#[verifier::external_body]
pub struct ExStdError(cosmwasm_std::StdError);

/// What a storage holds for the marketplace: the configuration under the key
/// `config`, the contract version under `contract_info`, the deposits under the
/// namespace `cw721deposits` and the asks under the namespace `asks`, each
/// entry decoded from its bytes.
pub uninterp spec fn ledger_of(store: MemoryStorage) -> Ledger;

/// Whether every entry that a storage holds under those keys is one that the
/// functions of this file read back: the value under `config` is the JSON of a
/// string; the value under `contract_info` is the JSON of a contract version;
/// each key under `cw721deposits` is the encoding of three strings, and its
/// value the JSON array of a deposit's owner, collection and token id; each
/// key under `asks` is the encoding of two strings, and its value the JSON
/// array of an ask's collection, token id, seller, price and accepted token.
/// The storage without entries is readable, and the functions of this file
/// keep a storage readable: what they write, they read back as it was. A
/// storage that holds these records in another shape, such as JSON objects
/// with named fields, is not readable.
pub uninterp spec fn readable(store: MemoryStorage) -> bool;

/// `MemoryStorage::new`: a storage without entries. It is readable and holds
/// the empty ledger.
pub assume_specification[ MemoryStorage::new ]() -> (store: MemoryStorage)
    ensures
        readable(store),
        ledger_of(store) == Ledger::empty(),
;

/// `cw_storage_plus::Item::save` on the key `config`: writes the denomination
/// as a JSON string, which does not fail. Afterwards the ledger holds it as
/// its configuration and nothing else has changed.
#[verifier::external_body]
pub(crate) fn config_save(store: &mut MemoryStorage, config: &Config) -> (r: Result<(), StdError>)
    requires
        readable(*old(store)),
    ensures
        r is Ok,
        readable(*final(store)),
        ledger_of(*final(store)) == ledger_of(*old(store)).with_config(config@),
{
    cw_storage_plus::Item::<String>::new("config").save(store, &config.native_denom)
}

/// `cw_storage_plus::Item::load` on the key `config`: fails where nothing is
/// stored there, and else, the storage being readable, returns the
/// configuration that the ledger holds.
#[verifier::external_body]
pub(crate) fn config_load(store: &MemoryStorage) -> (r: Result<Config, StdError>)
    requires
        readable(*store),
    ensures
        r is Ok <==> ledger_of(*store).config is Some,
        r matches Ok(config) ==> ledger_of(*store).config == Some(config@),
{
    cw_storage_plus::Item::<String>::new("config").load(store).map(
        |native_denom| Config { native_denom },
    )
}

/// `cw2::set_contract_version`: writes the contract's name and version, as
/// the JSON of two strings, under the key `contract_info`, which does not
/// fail. Afterwards the ledger holds them and nothing else has changed.
#[verifier::external_body]
pub(crate) fn version_save(store: &mut MemoryStorage, contract: &str, version: &str) -> (r: Result<
    (),
    StdError,
>)
    requires
        readable(*old(store)),
    ensures
        r is Ok,
        readable(*final(store)),
        ledger_of(*final(store)) == ledger_of(*old(store)).with_version(contract@, version@),
{
    cw2::set_contract_version(store, contract, version)
}

/// `cw2::get_contract_version`: fails where no version is stored, and else,
/// the storage being readable, returns the name and the version that the
/// ledger holds.
#[verifier::external_body]
pub(crate) fn version_load(store: &MemoryStorage) -> (r: Result<(String, String), StdError>)
    requires
        readable(*store),
    ensures
        r is Ok <==> ledger_of(*store).version is Some,
        r matches Ok(found) ==> ledger_of(*store).version == Some((found.0@, found.1@)),
{
    cw2::get_contract_version(store).map(|found| (found.contract, found.version))
}

/// `cw_storage_plus::Map::has` on the namespace `cw721deposits`: whether the
/// custody ledger holds a deposit under the key.
#[verifier::external_body]
pub(crate) fn deposit_has(
    store: &MemoryStorage,
    collection: &String,
    owner: &String,
    token_id: &String,
) -> (r: bool)
    requires
        readable(*store),
        key_part_fits(collection@),
        key_part_fits(owner@),
    ensures
        r == ledger_of(*store).deposits.contains_key((collection@, owner@, token_id@)),
{
    cw_storage_plus::Map::<(&str, &str, &str), (String, String, String)>::new("cw721deposits").has(
        store,
        (collection.as_str(), owner.as_str(), token_id.as_str()),
    )
}

/// `cw_storage_plus::Map::save` on the namespace `cw721deposits`: writes the
/// deposit, as the JSON array of its three strings, under the key, which does
/// not fail. Afterwards the custody ledger maps the key to the deposit and
/// nothing else has changed.
#[verifier::external_body]
pub(crate) fn deposit_save(
    store: &mut MemoryStorage,
    collection: &String,
    owner: &String,
    token_id: &String,
    deposit: &Cw721Deposits,
) -> (r: Result<(), StdError>)
    requires
        readable(*old(store)),
        key_part_fits(collection@),
        key_part_fits(owner@),
    ensures
        r is Ok,
        readable(*final(store)),
        ledger_of(*final(store)) == ledger_of(*old(store)).put_deposit(
            (collection@, owner@, token_id@),
            deposit@,
        ),
{
    let record = (deposit.owner.clone(), deposit.collection.clone(), deposit.token_id.clone());
    cw_storage_plus::Map::<(&str, &str, &str), _>::new("cw721deposits").save(
        store,
        (collection.as_str(), owner.as_str(), token_id.as_str()),
        &record,
    )
}

/// `cw_storage_plus::Map::remove` on the namespace `cw721deposits`: afterwards
/// the custody ledger holds nothing under the key, and nothing else has
/// changed.
#[verifier::external_body]
pub(crate) fn deposit_remove(
    store: &mut MemoryStorage,
    collection: &String,
    owner: &String,
    token_id: &String,
)
    requires
        readable(*old(store)),
        key_part_fits(collection@),
        key_part_fits(owner@),
    ensures
        readable(*final(store)),
        ledger_of(*final(store)) == ledger_of(*old(store)).drop_deposit(
            (collection@, owner@, token_id@),
        ),
{
    cw_storage_plus::Map::<(&str, &str, &str), (String, String, String)>::new(
        "cw721deposits",
    ).remove(store, (collection.as_str(), owner.as_str(), token_id.as_str()))
}

/// `cw_storage_plus::Map::prefix` and `Prefix::range` on the namespace
/// `cw721deposits`, ascending and without bounds, collected: the deposits that
/// the owner has in the collection, each with its token id, in the order of
/// their storage keys. The storage being readable, no entry fails to decode.
#[verifier::external_body]
pub(crate) fn deposits_range(store: &MemoryStorage, collection: &String, owner: &String) -> (r:
    Result<Vec<(String, Cw721Deposits)>, StdError>)
    requires
        readable(*store),
        key_part_fits(collection@),
        key_part_fits(owner@),
    ensures
        r is Ok,
        r matches Ok(found) ==> lists_deposits(
            ledger_of(*store),
            collection@,
            owner@,
            deposits_view(found@),
        ),
{
    cw_storage_plus::Map::<(&str, &str, &str), (String, String, String)>::new("cw721deposits")
        .prefix((collection.as_str(), owner.as_str()))
        .range(store, None, None, cosmwasm_std::Order::Ascending)
        .map(|item| item.map(|(token_id, r)| (
            token_id,
            Cw721Deposits { owner: r.0, collection: r.1, token_id: r.2 },
        )))
        .collect()
}

/// `cw_storage_plus::Map::may_load` on the namespace `asks`: the ask that the
/// ask ledger holds under the key, or `None` where it holds none. The storage
/// being readable, what is found does not fail to decode.
#[verifier::external_body]
pub(crate) fn ask_may_load(store: &MemoryStorage, collection: &String, token_id: &String) -> (r:
    Result<Option<Ask>, StdError>)
    requires
        readable(*store),
        key_part_fits(collection@),
    ensures
        r is Ok,
        r matches Ok(Some(ask)) ==> ledger_of(*store).asks.contains_key((collection@, token_id@))
            && ledger_of(*store).asks[(collection@, token_id@)] == ask@,
        r matches Ok(None) ==> !ledger_of(*store).asks.contains_key((collection@, token_id@)),
{
    cw_storage_plus::Map::<
        (&str, &str),
        (String, String, String, cosmwasm_std::Uint128, Option<String>),
    >::new("asks")
        .may_load(store, (collection.as_str(), token_id.as_str()))
        .map(|found| found.map(|r| Ask {
            collection: r.0,
            token_id: r.1,
            seller: r.2,
            price: r.3.u128(),
            cw20_contract: r.4,
        }))
}

/// `cw_storage_plus::Map::save` on the namespace `asks`: writes the ask, as
/// the JSON array of its five fields, under the key, which does not fail.
/// Afterwards the ask ledger maps the key to the ask and nothing else has
/// changed.
#[verifier::external_body]
pub(crate) fn ask_save(
    store: &mut MemoryStorage,
    collection: &String,
    token_id: &String,
    ask: &Ask,
) -> (r: Result<(), StdError>)
    requires
        readable(*old(store)),
        key_part_fits(collection@),
    ensures
        r is Ok,
        readable(*final(store)),
        ledger_of(*final(store)) == ledger_of(*old(store)).put_ask(
            (collection@, token_id@),
            ask@,
        ),
{
    let record = (
        ask.collection.clone(),
        ask.token_id.clone(),
        ask.seller.clone(),
        cosmwasm_std::Uint128::new(ask.price),
        ask.cw20_contract.clone(),
    );
    cw_storage_plus::Map::<(&str, &str), _>::new("asks").save(
        store,
        (collection.as_str(), token_id.as_str()),
        &record,
    )
}

/// `cw_storage_plus::Map::remove` on the namespace `asks`: afterwards the ask
/// ledger holds nothing under the key, and nothing else has changed.
#[verifier::external_body]
pub(crate) fn ask_remove(store: &mut MemoryStorage, collection: &String, token_id: &String)
    requires
        readable(*old(store)),
        key_part_fits(collection@),
    ensures
        readable(*final(store)),
        ledger_of(*final(store)) == ledger_of(*old(store)).drop_ask((collection@, token_id@)),
{
    cw_storage_plus::Map::<
        (&str, &str),
        (String, String, String, cosmwasm_std::Uint128, Option<String>),
    >::new("asks")
        .remove(store, (collection.as_str(), token_id.as_str()))
}

/// `cw_storage_plus::Map::range` on the namespace `asks`, ascending and
/// without bounds, collected: every ask with its key, in the order of their
/// storage keys. The storage being readable, no entry fails to decode.
#[verifier::external_body]
pub(crate) fn asks_range(store: &MemoryStorage) -> (r: Result<
    Vec<((String, String), Ask)>,
    StdError,
>)
    requires
        readable(*store),
    ensures
        r is Ok,
        r matches Ok(found) ==> lists_asks(ledger_of(*store), asks_view(found@)),
{
    cw_storage_plus::Map::<
        (&str, &str),
        (String, String, String, cosmwasm_std::Uint128, Option<String>),
    >::new("asks")
        .range(store, None, None, cosmwasm_std::Order::Ascending)
        .map(|item| item.map(|(key, r)| {
            let price = r.3.u128();
            (key, Ask { collection: r.0, token_id: r.1, seller: r.2, price, cw20_contract: r.4 })
        }))
        .collect()
}

} // verus!

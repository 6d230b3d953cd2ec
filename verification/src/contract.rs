//! The operations of the marketplace: setting it up, listing a token,
//! buying one, taking a listing back, and reading the ledgers.

use cosmwasm_std::MemoryStorage;
use cosmwasm_std::StdError;
use vstd::prelude::*;

use crate::error::ContractError;
use crate::error::PaymentErrorView;
use crate::host::coins_view;
use crate::host::Coin;
use crate::host::CoinView;
use crate::host::CosmosMsg;
use crate::host::CosmosMsgView;
use crate::host::MessageInfo;
use crate::host::Response;
use crate::host::ResponseView;
use crate::msg::AskResponse;
use crate::msg::Cw20HookMsg;
use crate::msg::Cw20ReceiveMsg;
use crate::msg::Cw721DepositResponse;
use crate::msg::Cw721HookMsg;
use crate::msg::Cw721ReceiveMsg;
use crate::msg::ExecuteMsg;
use crate::msg::GetAllAsksResponse;
use crate::msg::InstantiateMsg;
use crate::msg::QueryMsg;
use crate::msg::QueryResponse;
use crate::order::lists_asks;
use crate::order::lists_deposits;
use crate::payment::must_pay;
use crate::payment::payment_of;
use crate::state::key_part_fits;
use crate::state::option_view;
use crate::state::Ask;
use crate::state::AskView;
use crate::state::Config;
use crate::state::Cw721Deposits;
use crate::state::Ledger;
use crate::storage::ask_may_load;
use crate::storage::ask_remove;
use crate::storage::ask_save;
use crate::storage::asks_range;
use crate::storage::config_load;
use crate::storage::config_save;
use crate::storage::deposit_has;
use crate::storage::deposit_remove;
use crate::storage::deposit_save;
use crate::storage::deposits_range;
use crate::storage::ledger_of;
use crate::storage::readable;
use crate::storage::version_save;
use crate::wire::json_of;
use crate::wire::to_binary;
use crate::wire::ContractCall;
use crate::wire::ContractCallView;

verus! {

/// The name under which the marketplace records its version.
pub const CONTRACT_NAME: &'static str = "crates.io:nft-marketplace";

/// The version that the marketplace records.
pub const CONTRACT_VERSION: &'static str = "0.1.0";

/// Whether a storage is one that the marketplace can work on: it is
/// readable, its keys fit, and its two ledgers agree.
pub open spec fn well_formed(store: MemoryStorage) -> bool {
    &&& readable(store)
    &&& ledger_of(store).keys_fit()
    &&& ledger_of(store).escrow_consistent()
}

/// A storage without entries, on which the marketplace can be set up.
pub fn new_storage() -> (store: MemoryStorage)
    ensures
        well_formed(store),
        ledger_of(store) == Ledger::empty(),
{
    MemoryStorage::new()
}

/// The custom error with the given text.
fn custom_error(text: &str) -> (e: ContractError)
    ensures
        e.is_custom(text@),
{
    ContractError::CustomError { val: text.to_string() }
}

/// What setting the marketplace up does: it records the denomination and the
/// contract's version, and answers with an empty response.
pub open spec fn instantiate_spec(
    before: Ledger,
    native_denom: Seq<char>,
    after: Ledger,
    r: Result<Response, ContractError>,
) -> bool {
    &&& r matches Ok(response)
    &&& after == before.with_config(native_denom).with_version(CONTRACT_NAME@, CONTRACT_VERSION@)
    &&& response@.messages.len() == 0
    &&& response@.attributes.len() == 0
}

/// Sets the marketplace up with the denomination that purchases in the
/// native coin are paid in.
pub fn instantiate(store: &mut MemoryStorage, _info: MessageInfo, msg: InstantiateMsg) -> (r:
    Result<Response, ContractError>)
    requires
        well_formed(*old(store)),
    ensures
        well_formed(*final(store)),
        instantiate_spec(ledger_of(*old(store)), msg.native_denom@, ledger_of(*final(store)), r),
{
    let config = Config { native_denom: msg.native_denom };
    match config_save(store, &config) {
        Err(e) => {
            return Err(ContractError::Std(e));
        },
        Ok(_) => {},
    }
    match version_save(store, CONTRACT_NAME, CONTRACT_VERSION) {
        Err(e) => {
            return Err(ContractError::Std(e));
        },
        Ok(_) => {},
    }
    Ok(Response::new())
}

/// The response to a listing.
pub open spec fn listing_response(
    collection: Seq<char>,
    owner: Seq<char>,
    token_id: Seq<char>,
) -> ResponseView {
    ResponseView {
        messages: Seq::empty(),
        attributes: seq![
            ("execute"@, "cw721_deposit"@),
            ("owner"@, owner),
            ("contract"@, collection),
            ("token_id"@, token_id),
        ],
    }
}

/// What listing a token does. Where the token is already in escrow, for this
/// owner or for another, the listing is rejected and nothing changes. Else
/// the listing is accepted, and the deposit and the ask are recorded
/// together.
pub open spec fn set_listing_spec(
    before: Ledger,
    collection: Seq<char>,
    owner: Seq<char>,
    token_id: Seq<char>,
    cw20_contract: Option<Seq<char>>,
    amount: u128,
    after: Ledger,
    r: Result<Response, ContractError>,
) -> bool {
    if before.in_escrow(collection, token_id) {
        &&& r matches Err(e)
        &&& e.is_custom("Already deposited"@)
        &&& after == before
    } else {
        &&& r matches Ok(response)
        &&& after == before.listed(collection, owner, token_id, cw20_contract, amount)
        &&& response@ == listing_response(collection, owner, token_id)
    }
}

/// A token is never in escrow twice. Where it is in escrow, for whatever
/// owner, a listing is rejected and the ledgers stay as they are; and once a
/// listing is accepted, the token is in escrow for the one who listed it and
/// for no other.
pub proof fn lemma_no_double_escrow(
    before: Ledger,
    collection: Seq<char>,
    owner: Seq<char>,
    token_id: Seq<char>,
    cw20_contract: Option<Seq<char>>,
    amount: u128,
    after: Ledger,
    r: Result<Response, ContractError>,
    other: Seq<char>,
)
    requires
        before.escrow_consistent(),
        set_listing_spec(before, collection, owner, token_id, cw20_contract, amount, after, r),
    ensures
        r is Err <==> before.in_escrow(collection, token_id),
        r is Err ==> after == before,
        r is Ok && after.deposits.contains_key((collection, other, token_id)) ==> other == owner,
        after.escrow_consistent(),
{
    if r is Ok {
        crate::state::lemma_listed_agrees(
            before,
            collection,
            owner,
            token_id,
            cw20_contract,
            amount,
        );
        if after.deposits.contains_key((collection, other, token_id)) {
            crate::state::lemma_single_owner(after, collection, token_id, owner, other);
        }
    }
}

/// Records that the collection that makes the call has handed the token
/// `token_id` of `owner` to the marketplace, to be sold for `amount`.
pub fn execute_set_listing(
    store: &mut MemoryStorage,
    info: MessageInfo,
    owner: String,
    token_id: String,
    cw20_contract: Option<String>,
    amount: u128,
) -> (r: Result<Response, ContractError>)
    requires
        well_formed(*old(store)),
        key_part_fits(info.sender@),
        key_part_fits(owner@),
    ensures
        well_formed(*final(store)),
        set_listing_spec(
            ledger_of(*old(store)),
            info.sender@,
            owner@,
            token_id@,
            option_view(cw20_contract),
            amount,
            ledger_of(*final(store)),
            r,
        ),
{
    let ghost before = ledger_of(*store);
    let collection = info.sender;
    proof {
        crate::state::lemma_deposit_iff_ask(before, collection@, token_id@);
    }
    if deposit_has(store, &collection, &owner, &token_id) {
        return Err(custom_error("Already deposited"));
    }
    match ask_may_load(store, &collection, &token_id) {
        Ok(Some(_)) => {
            return Err(custom_error("Already deposited"));
        },
        _ => {},
    }
    let deposit = Cw721Deposits {
        owner: owner.clone(),
        collection: collection.clone(),
        token_id: token_id.clone(),
    };
    match deposit_save(store, &collection, &owner, &token_id, &deposit) {
        Err(e) => {
            return Err(ContractError::Std(e));
        },
        Ok(_) => {},
    }
    let ask = Ask {
        collection: collection.clone(),
        token_id: token_id.clone(),
        seller: owner.clone(),
        price: amount,
        cw20_contract,
    };
    match ask_save(store, &collection, &token_id, &ask) {
        Err(e) => {
            return Err(ContractError::Std(e));
        },
        Ok(_) => {},
    }
    let response = Response::new().add_attribute("execute", "cw721_deposit").add_attribute(
        "owner",
        owner.as_str(),
    ).add_attribute("contract", collection.as_str()).add_attribute("token_id", token_id.as_str());
    proof {
        let expected = listing_response(collection@, owner@, token_id@);
        assert(response@.attributes =~= expected.attributes);
        assert(response@.messages =~= expected.messages);
    }
    Ok(response)
}

/// A call of the contract at `contract_addr` with the message `msg`, with no
/// coins attached.
pub open spec fn execute_call(contract_addr: Seq<char>, msg: Seq<u8>) -> CosmosMsgView {
    CosmosMsgView::Execute { contract_addr, msg, funds: Seq::empty() }
}

/// A call of the contract at `contract_addr` with the message `msg`, with no
/// coins attached.
fn wasm_execute(contract_addr: String, msg: Vec<u8>) -> (call: CosmosMsg)
    ensures
        call@ == execute_call(contract_addr@, msg@),
{
    let call = CosmosMsg::Execute { contract_addr, msg, funds: Vec::new() };
    assert(call@->Execute_funds =~= Seq::empty());
    call
}

/// The response to a withdrawal: one message, which tells the collection to
/// hand the token back.
pub open spec fn withdrawal_response(collection: Seq<char>, transfer: Seq<u8>) -> ResponseView {
    ResponseView {
        messages: seq![execute_call(collection, transfer)],
        attributes: seq![("execute"@, "withdraw"@)],
    }
}

/// Clears the listing of a token that `owner` has deposited, and answers with
/// the message `transfer` for the collection.
pub fn complete_withdrawal(
    store: &mut MemoryStorage,
    collection: String,
    owner: String,
    token_id: String,
    transfer: Vec<u8>,
) -> (response: Response)
    requires
        well_formed(*old(store)),
        ledger_of(*old(store)).deposits.contains_key((collection@, owner@, token_id@)),
    ensures
        well_formed(*final(store)),
        ledger_of(*final(store)) == ledger_of(*old(store)).withdrawn(
            collection@,
            owner@,
            token_id@,
        ),
        response@ == withdrawal_response(collection@, transfer@),
{
    deposit_remove(store, &collection, &owner, &token_id);
    ask_remove(store, &collection, &token_id);
    let response = Response::new().add_attribute("execute", "withdraw").add_message(
        wasm_execute(collection, transfer),
    );
    proof {
        let expected = withdrawal_response(collection@, transfer@);
        assert(response@.attributes =~= expected.attributes);
        assert(response@.messages =~= expected.messages);
    }
    response
}

/// What taking a listing back does. Where the caller has not deposited the
/// token, the call is rejected and nothing changes. Else the deposit and the
/// ask are cleared together and the collection is told to hand the token back
/// to the caller.
pub open spec fn remove_listing_spec(
    before: Ledger,
    owner: Seq<char>,
    collection: Seq<char>,
    token_id: Seq<char>,
    after: Ledger,
    r: Result<Response, ContractError>,
) -> bool {
    if !before.deposits.contains_key((collection, owner, token_id)) {
        &&& r matches Err(e)
        &&& e is NoCw721ToWithdraw
        &&& after == before
    } else {
        &&& r matches Ok(response)
        &&& after == before.withdrawn(collection, owner, token_id)
        &&& response@ == withdrawal_response(
            collection,
            json_of(ContractCallView::TransferNft { recipient: owner, token_id }),
        )
    }
}

/// A withdrawal is all or nothing, and is accepted exactly where the caller
/// has the token in escrow: then the deposit and the ask are both cleared and
/// one message is handed back; else the ledgers are as before.
pub proof fn lemma_withdrawal_atomic(
    before: Ledger,
    owner: Seq<char>,
    collection: Seq<char>,
    token_id: Seq<char>,
    after: Ledger,
    r: Result<Response, ContractError>,
)
    requires
        before.escrow_consistent(),
        remove_listing_spec(before, owner, collection, token_id, after, r),
    ensures
        r is Ok <==> before.deposits.contains_key((collection, owner, token_id)),
        match r {
            Ok(response) => {
                &&& !after.asks.contains_key((collection, token_id))
                &&& !after.in_escrow(collection, token_id)
                &&& after.escrow_consistent()
                &&& response@.messages.len() == 1
            },
            Err(_) => after == before,
        },
{
    if r is Ok {
        crate::state::lemma_withdrawn_agrees(before, collection, owner, token_id);
    }
}

/// Takes back the listing of a token that the caller has deposited.
pub fn execute_remove_listing(
    store: &mut MemoryStorage,
    info: MessageInfo,
    collection: String,
    token_id: String,
) -> (r: Result<Response, ContractError>)
    requires
        well_formed(*old(store)),
        key_part_fits(collection@),
        key_part_fits(info.sender@),
    ensures
        well_formed(*final(store)),
        remove_listing_spec(
            ledger_of(*old(store)),
            info.sender@,
            collection@,
            token_id@,
            ledger_of(*final(store)),
            r,
        ),
{
    let owner = info.sender;
    if !deposit_has(store, &collection, &owner, &token_id) {
        return Err(ContractError::NoCw721ToWithdraw {  });
    }
    let call = ContractCall::TransferNft { recipient: owner.clone(), token_id: token_id.clone() };
    match to_binary(&call) {
        Err(e) => Err(ContractError::Std(e)),
        Ok(transfer) => Ok(complete_withdrawal(store, collection, owner, token_id, transfer)),
    }
}

/// Clears the ask for a token and the deposit of its seller.
fn clear_listing(store: &mut MemoryStorage, collection: &String, token_id: &String, seller: &String)
    requires
        well_formed(*old(store)),
        ledger_of(*old(store)).asks.contains_key((collection@, token_id@)),
        ledger_of(*old(store)).asks[(collection@, token_id@)].seller == seller@,
    ensures
        well_formed(*final(store)),
        ledger_of(*final(store)) == ledger_of(*old(store)).sold(collection@, token_id@),
{
    deposit_remove(store, collection, seller, token_id);
    ask_remove(store, collection, token_id);
}

/// The response to a purchase paid in a fungible token: the collection is
/// told to hand the token over, then the token contract to pay the seller.
pub open spec fn purchase_response(
    cw721_contract: Seq<char>,
    cw20_contract: Seq<char>,
    transfer: Seq<u8>,
    payment: Seq<u8>,
) -> ResponseView {
    ResponseView {
        messages: seq![
            execute_call(cw721_contract, transfer),
            execute_call(cw20_contract, payment),
        ],
        attributes: seq![("execute"@, "purchase"@)],
    }
}

/// Settles a purchase paid in a fungible token: clears the listing, and
/// answers with the message `transfer` for the collection and the message
/// `payment` for the token contract.
pub fn complete_purchase(
    store: &mut MemoryStorage,
    cw721_contract: String,
    token_id: String,
    seller: &String,
    cw20_contract: String,
    transfer: Vec<u8>,
    payment: Vec<u8>,
) -> (response: Response)
    requires
        well_formed(*old(store)),
        ledger_of(*old(store)).asks.contains_key((cw721_contract@, token_id@)),
        ledger_of(*old(store)).asks[(cw721_contract@, token_id@)].seller == seller@,
    ensures
        well_formed(*final(store)),
        ledger_of(*final(store)) == ledger_of(*old(store)).sold(cw721_contract@, token_id@),
        response@ == purchase_response(cw721_contract@, cw20_contract@, transfer@, payment@),
{
    clear_listing(store, &cw721_contract, &token_id, seller);
    let response = Response::new().add_attribute("execute", "purchase").add_message(
        wasm_execute(cw721_contract, transfer),
    ).add_message(wasm_execute(cw20_contract, payment));
    proof {
        let expected = purchase_response(cw721_contract@, cw20_contract@, transfer@, payment@);
        assert(response@.attributes =~= expected.attributes);
        assert(response@.messages =~= expected.messages);
    }
    response
}

/// What a purchase paid in a fungible token does. Where no ask stands for the
/// token, or the amount paid is not its price, the purchase is rejected and
/// nothing changes. Else the listing is cleared and two messages are handed
/// back, the token for the buyer and the payment for the seller.
pub open spec fn purchase_spec(
    before: Ledger,
    cw20_contract: Seq<char>,
    cw721_contract: Seq<char>,
    token_id: Seq<char>,
    buyer: Seq<char>,
    amount: u128,
    after: Ledger,
    r: Result<Response, ContractError>,
) -> bool {
    let key = (cw721_contract, token_id);
    if !before.asks.contains_key(key) {
        &&& r matches Err(e)
        &&& e.is_custom("No such ask"@)
        &&& after == before
    } else if amount != before.asks[key].price {
        &&& r matches Err(e)
        &&& e.is_custom("Invalid amount"@)
        &&& after == before
    } else {
        &&& r matches Ok(response)
        &&& after == before.sold(cw721_contract, token_id)
        &&& response@ == purchase_response(
            cw721_contract,
            cw20_contract,
            json_of(ContractCallView::TransferNft { recipient: buyer, token_id }),
            json_of(
                ContractCallView::Transfer {
                    recipient: before.asks[key].seller,
                    amount: before.asks[key].price,
                },
            ),
        )
    }
}

/// A purchase paid in a fungible token is all or nothing: either the ask and
/// the deposit are both cleared and two messages are handed back, or the
/// ledgers are as before and no message is handed back.
pub proof fn lemma_purchase_atomic(
    before: Ledger,
    cw20_contract: Seq<char>,
    cw721_contract: Seq<char>,
    token_id: Seq<char>,
    buyer: Seq<char>,
    amount: u128,
    after: Ledger,
    r: Result<Response, ContractError>,
)
    requires
        before.escrow_consistent(),
        purchase_spec(before, cw20_contract, cw721_contract, token_id, buyer, amount, after, r),
    ensures
        r is Ok <==> before.asks.contains_key((cw721_contract, token_id)) && before.asks[(
            cw721_contract,
            token_id,
        )].price == amount,
        match r {
            Ok(response) => {
                &&& before.asks.contains_key((cw721_contract, token_id))
                &&& before.in_escrow(cw721_contract, token_id)
                &&& !after.asks.contains_key((cw721_contract, token_id))
                &&& !after.in_escrow(cw721_contract, token_id)
                &&& response@.messages.len() == 2
            },
            Err(_) => after == before,
        },
{
    if r is Ok {
        crate::state::lemma_sold_agrees(before, cw721_contract, token_id);
        crate::state::lemma_deposit_iff_ask(before, cw721_contract, token_id);
    }
}

/// Sells the token `token_id` of the collection `cw721_contract` to the
/// sender of the payment `msg`, which the token contract that makes the call
/// has received for the marketplace.
pub fn execute_purchase(
    store: &mut MemoryStorage,
    info: MessageInfo,
    cw721_contract: String,
    token_id: String,
    msg: Cw20ReceiveMsg,
) -> (r: Result<Response, ContractError>)
    requires
        well_formed(*old(store)),
        key_part_fits(cw721_contract@),
    ensures
        well_formed(*final(store)),
        purchase_spec(
            ledger_of(*old(store)),
            info.sender@,
            cw721_contract@,
            token_id@,
            msg.sender@,
            msg.amount,
            ledger_of(*final(store)),
            r,
        ),
{
    let cw20_contract = info.sender;
    match ask_may_load(store, &cw721_contract, &token_id) {
        Ok(Some(ask)) => {
            if msg.amount != ask.price {
                return Err(custom_error("Invalid amount"));
            }
            let transfer_call = ContractCall::TransferNft {
                recipient: msg.sender,
                token_id: token_id.clone(),
            };
            let transfer = match to_binary(&transfer_call) {
                Ok(bytes) => bytes,
                Err(e) => {
                    return Err(ContractError::Std(e));
                },
            };
            let payment_call = ContractCall::Transfer {
                recipient: ask.seller.clone(),
                amount: ask.price,
            };
            let payment = match to_binary(&payment_call) {
                Ok(bytes) => bytes,
                Err(e) => {
                    return Err(ContractError::Std(e));
                },
            };
            Ok(
                complete_purchase(
                    store,
                    cw721_contract,
                    token_id,
                    &ask.seller,
                    cw20_contract,
                    transfer,
                    payment,
                ),
            )
        },
        _ => Err(custom_error("No such ask")),
    }
}

/// The coins `amount` of `denom`, as the one entry of a list.
pub open spec fn one_coin(amount: u128, denom: Seq<char>) -> Seq<CoinView> {
    seq![CoinView { denom, amount }]
}

/// The response to a purchase paid in the native coin: the collection is
/// told to hand the token over, then the host to pay the seller.
pub open spec fn native_purchase_response(
    collection: Seq<char>,
    token_id: Seq<char>,
    buyer: Seq<char>,
    seller: Seq<char>,
    transfer: Seq<u8>,
    price: u128,
    denom: Seq<char>,
) -> ResponseView {
    ResponseView {
        messages: seq![
            execute_call(collection, transfer),
            CosmosMsgView::Send { to_address: seller, amount: one_coin(price, denom) },
        ],
        attributes: seq![
            ("execute"@, "purchase_native"@),
            ("collection"@, collection),
            ("token_id"@, token_id),
            ("buyer"@, buyer),
            ("seller"@, seller),
        ],
    }
}

/// Settles a purchase paid in the native coin: clears the listing, and
/// answers with the message `transfer` for the collection and the payment of
/// `price` in `denom` to the seller.
pub fn complete_purchase_native(
    store: &mut MemoryStorage,
    collection: String,
    token_id: String,
    buyer: String,
    seller: String,
    transfer: Vec<u8>,
    price: u128,
    denom: String,
) -> (response: Response)
    requires
        well_formed(*old(store)),
        ledger_of(*old(store)).asks.contains_key((collection@, token_id@)),
        ledger_of(*old(store)).asks[(collection@, token_id@)].seller == seller@,
    ensures
        well_formed(*final(store)),
        ledger_of(*final(store)) == ledger_of(*old(store)).sold(collection@, token_id@),
        response@ == native_purchase_response(
            collection@,
            token_id@,
            buyer@,
            seller@,
            transfer@,
            price,
            denom@,
        ),
{
    clear_listing(store, &collection, &token_id, &seller);
    let mut amount: Vec<Coin> = Vec::new();
    amount.push(Coin { denom, amount: price });
    let payment = CosmosMsg::Send { to_address: seller.clone(), amount };
    assert(payment@->Send_amount =~= one_coin(price, denom@));
    let response = Response::new().add_attribute("execute", "purchase_native").add_attribute(
        "collection",
        collection.as_str(),
    ).add_attribute("token_id", token_id.as_str()).add_attribute(
        "buyer",
        buyer.as_str(),
    ).add_attribute("seller", seller.as_str()).add_message(
        wasm_execute(collection, transfer),
    ).add_message(payment);
    proof {
        let expected = native_purchase_response(
            collection@,
            token_id@,
            buyer@,
            seller@,
            transfer@,
            price,
            denom@,
        );
        assert(response@.attributes =~= expected.attributes);
        assert(response@.messages =~= expected.messages);
    }
    response
}

/// What a purchase paid in the native coin does. It is rejected, and nothing
/// changes, where the marketplace was not set up; where the coins attached
/// are not one payment in the configured denomination; where no ask stands
/// for the token; and where the amount paid is not its price. Else the
/// listing is cleared and two messages are handed back, the token for the
/// buyer and the payment for the seller.
pub open spec fn purchase_native_spec(
    before: Ledger,
    buyer: Seq<char>,
    funds: Seq<CoinView>,
    collection: Seq<char>,
    token_id: Seq<char>,
    after: Ledger,
    r: Result<Response, ContractError>,
) -> bool {
    let key = (collection, token_id);
    match before.config {
        None => r matches Err(e) && e is Std && after == before,
        Some(denom) => match payment_of(funds, denom) {
            Err(reason) => r matches Err(e) && e.is_payment(reason) && after == before,
            Ok(paid) => if !before.asks.contains_key(key) {
                r matches Err(e) && e is TokenNotListedForSale && after == before
            } else if paid != before.asks[key].price {
                r matches Err(e) && e.is_custom("Invalid amount"@) && after == before
            } else {
                &&& r matches Ok(response)
                &&& after == before.sold(collection, token_id)
                &&& response@ == native_purchase_response(
                    collection,
                    token_id,
                    buyer,
                    before.asks[key].seller,
                    json_of(ContractCallView::TransferNft { recipient: buyer, token_id }),
                    before.asks[key].price,
                    denom,
                )
            },
        },
    }
}

/// A purchase paid in the native coin is all or nothing: either the ask and
/// the deposit are both cleared and two messages are handed back, or the
/// ledgers are as before and no message is handed back.
pub proof fn lemma_purchase_native_atomic(
    before: Ledger,
    buyer: Seq<char>,
    funds: Seq<CoinView>,
    collection: Seq<char>,
    token_id: Seq<char>,
    after: Ledger,
    r: Result<Response, ContractError>,
)
    requires
        before.escrow_consistent(),
        purchase_native_spec(before, buyer, funds, collection, token_id, after, r),
    ensures
        r is Ok <==> before.config is Some && before.asks.contains_key((collection, token_id))
            && payment_of(funds, before.config->0) == Ok::<u128, PaymentErrorView>(
            before.asks[(collection, token_id)].price,
        ),
        match r {
            Ok(response) => {
                &&& before.asks.contains_key((collection, token_id))
                &&& before.in_escrow(collection, token_id)
                &&& !after.asks.contains_key((collection, token_id))
                &&& !after.in_escrow(collection, token_id)
                &&& response@.messages.len() == 2
            },
            Err(_) => after == before,
        },
{
    if r is Ok {
        crate::state::lemma_sold_agrees(before, collection, token_id);
        crate::state::lemma_deposit_iff_ask(before, collection, token_id);
    }
}

/// Sells the token `token_id` of `collection` to the caller, for the native
/// coins attached to the call.
pub fn execute_purchase_native(
    store: &mut MemoryStorage,
    info: MessageInfo,
    collection: String,
    token_id: String,
) -> (r: Result<Response, ContractError>)
    requires
        well_formed(*old(store)),
        key_part_fits(collection@),
    ensures
        well_formed(*final(store)),
        purchase_native_spec(
            ledger_of(*old(store)),
            info.sender@,
            coins_view(info.funds@),
            collection@,
            token_id@,
            ledger_of(*final(store)),
            r,
        ),
{
    let config = match config_load(store) {
        Ok(config) => config,
        Err(e) => {
            return Err(ContractError::Std(e));
        },
    };
    let funds_sent = match must_pay(&info, &config.native_denom) {
        Ok(amount) => amount,
        Err(e) => {
            return Err(ContractError::Payment(e));
        },
    };
    let buyer = info.sender;
    match ask_may_load(store, &collection, &token_id) {
        Ok(Some(ask)) => {
            if funds_sent != ask.price {
                return Err(custom_error("Invalid amount"));
            }
            let transfer_call = ContractCall::TransferNft {
                recipient: buyer.clone(),
                token_id: ask.token_id,
            };
            let transfer = match to_binary(&transfer_call) {
                Ok(bytes) => bytes,
                Err(e) => {
                    return Err(ContractError::Std(e));
                },
            };
            Ok(
                complete_purchase_native(
                    store,
                    collection,
                    token_id,
                    buyer,
                    ask.seller,
                    transfer,
                    ask.price,
                    config.native_denom,
                ),
            )
        },
        Ok(None) => Err(ContractError::TokenNotListedForSale {  }),
        Err(e) => Err(ContractError::Std(e)),
    }
}

/// What a payment notification does: the purchase that it asks for, or a
/// rejection where it carries no purchase intent.
pub open spec fn receive_cw20_spec(
    before: Ledger,
    cw20_contract: Seq<char>,
    msg: Cw20ReceiveMsg,
    after: Ledger,
    r: Result<Response, ContractError>,
) -> bool {
    match msg.msg {
        Some(Cw20HookMsg::Purchase { cw721_contract, token_id }) => purchase_spec(
            before,
            cw20_contract,
            cw721_contract@,
            token_id@,
            msg.sender@,
            msg.amount,
            after,
            r,
        ),
        None => r matches Err(e) && e.is_custom("Invalid Cw20HookMsg"@) && after == before,
    }
}

/// Whether the keys that a payment notification names are ones that the
/// storage can hold.
pub open spec fn receive_cw20_admits(msg: Cw20ReceiveMsg) -> bool {
    msg.msg matches Some(Cw20HookMsg::Purchase { cw721_contract, token_id }) ==> key_part_fits(
        cw721_contract@,
    )
}

/// Takes the notification of a fungible-token contract, which makes the
/// call, that a payment for the marketplace has arrived.
pub fn receive_cw20(store: &mut MemoryStorage, info: MessageInfo, cw20_msg: Cw20ReceiveMsg) -> (r:
    Result<Response, ContractError>)
    requires
        well_formed(*old(store)),
        receive_cw20_admits(cw20_msg),
    ensures
        well_formed(*final(store)),
        receive_cw20_spec(
            ledger_of(*old(store)),
            info.sender@,
            cw20_msg,
            ledger_of(*final(store)),
            r,
        ),
{
    match &cw20_msg.msg {
        Some(Cw20HookMsg::Purchase { cw721_contract, token_id }) => {
            let cw721_contract = cw721_contract.clone();
            let token_id = token_id.clone();
            execute_purchase(store, info, cw721_contract, token_id, cw20_msg)
        },
        None => Err(custom_error("Invalid Cw20HookMsg")),
    }
}

/// What a deposit notification does: the listing that it asks for, or a
/// rejection where it carries no listing intent. The owner and the token are
/// those that the collection names in the notification; the intent says for
/// how much the token is listed and in which currency.
pub open spec fn receive_cw721_spec(
    before: Ledger,
    collection: Seq<char>,
    msg: Cw721ReceiveMsg,
    after: Ledger,
    r: Result<Response, ContractError>,
) -> bool {
    match msg.msg {
        Some(Cw721HookMsg::SetListing { owner, token_id, cw20_contract, amount }) => {
            set_listing_spec(
                before,
                collection,
                msg.sender@,
                msg.token_id@,
                option_view(cw20_contract),
                amount,
                after,
                r,
            )
        },
        None => r matches Err(e) && e.is_custom("Invalid Cw721HookMsg"@) && after == before,
    }
}

/// Whether the keys that a deposit notification names are ones that the
/// storage can hold.
pub open spec fn receive_cw721_admits(collection: Seq<char>, msg: Cw721ReceiveMsg) -> bool {
    msg.msg is Some ==> key_part_fits(collection) && key_part_fits(msg.sender@)
}

/// Takes the notification of a collection, which makes the call, that a
/// token has been handed to the marketplace.
pub fn receive_cw721(
    store: &mut MemoryStorage,
    info: MessageInfo,
    cw721_msg: Cw721ReceiveMsg,
) -> (r: Result<Response, ContractError>)
    requires
        well_formed(*old(store)),
        receive_cw721_admits(info.sender@, cw721_msg),
    ensures
        well_formed(*final(store)),
        receive_cw721_spec(
            ledger_of(*old(store)),
            info.sender@,
            cw721_msg,
            ledger_of(*final(store)),
            r,
        ),
{
    match cw721_msg.msg {
        Some(Cw721HookMsg::SetListing { owner: _, token_id: _, cw20_contract, amount }) => {
            execute_set_listing(
                store,
                info,
                cw721_msg.sender,
                cw721_msg.token_id,
                cw20_contract,
                amount,
            )
        },
        None => Err(custom_error("Invalid Cw721HookMsg")),
    }
}

/// What a call does, by its message.
pub open spec fn execute_spec(
    before: Ledger,
    info: MessageInfo,
    msg: ExecuteMsg,
    after: Ledger,
    r: Result<Response, ContractError>,
) -> bool {
    match msg {
        ExecuteMsg::Receive(cw20_msg) => receive_cw20_spec(
            before,
            info.sender@,
            cw20_msg,
            after,
            r,
        ),
        ExecuteMsg::ReceiveNft(cw721_msg) => receive_cw721_spec(
            before,
            info.sender@,
            cw721_msg,
            after,
            r,
        ),
        ExecuteMsg::PurchaseNative { collection, token_id } => purchase_native_spec(
            before,
            info.sender@,
            coins_view(info.funds@),
            collection@,
            token_id@,
            after,
            r,
        ),
        ExecuteMsg::RemoveListing { collection, token_id } => remove_listing_spec(
            before,
            info.sender@,
            collection@,
            token_id@,
            after,
            r,
        ),
    }
}

/// Whether the keys that a call names are ones that the storage can hold.
pub open spec fn execute_admits(info: MessageInfo, msg: ExecuteMsg) -> bool {
    match msg {
        ExecuteMsg::Receive(cw20_msg) => receive_cw20_admits(cw20_msg),
        ExecuteMsg::ReceiveNft(cw721_msg) => receive_cw721_admits(info.sender@, cw721_msg),
        ExecuteMsg::PurchaseNative { collection, token_id } => key_part_fits(collection@),
        ExecuteMsg::RemoveListing { collection, token_id } => key_part_fits(collection@)
            && key_part_fits(info.sender@),
    }
}

/// Carries out a call.
pub fn execute(store: &mut MemoryStorage, info: MessageInfo, msg: ExecuteMsg) -> (r: Result<
    Response,
    ContractError,
>)
    requires
        well_formed(*old(store)),
        execute_admits(info, msg),
    ensures
        well_formed(*final(store)),
        execute_spec(ledger_of(*old(store)), info, msg, ledger_of(*final(store)), r),
{
    match msg {
        ExecuteMsg::Receive(cw20_msg) => receive_cw20(store, info, cw20_msg),
        ExecuteMsg::ReceiveNft(cw721_msg) => receive_cw721(store, info, cw721_msg),
        ExecuteMsg::PurchaseNative { collection, token_id } => execute_purchase_native(
            store,
            info,
            collection,
            token_id,
        ),
        ExecuteMsg::RemoveListing { collection, token_id } => execute_remove_listing(
            store,
            info,
            collection,
            token_id,
        ),
    }
}

/// The deposits that `owner` has in `collection`, each with its token id, in
/// ascending order of the token ids.
pub fn query_cw721_deposits(store: &MemoryStorage, owner: String, collection: String) -> (r:
    Result<Cw721DepositResponse, StdError>)
    requires
        well_formed(*store),
        key_part_fits(owner@),
        key_part_fits(collection@),
    ensures
        r matches Ok(response) && lists_deposits(
            ledger_of(*store),
            collection@,
            owner@,
            response@,
        ),
{
    let deposits = deposits_range(store, &collection, &owner)?;
    Ok(Cw721DepositResponse { deposits })
}

/// The ask that stands for a token, if one does.
pub open spec fn ask_answer(ledger: Ledger, collection: Seq<char>, token_id: Seq<char>) -> Option<
    AskView,
> {
    if ledger.asks.contains_key((collection, token_id)) {
        Some(ledger.asks[(collection, token_id)])
    } else {
        None
    }
}

/// The ask that stands for the token `token_id` of `collection`, or `None`
/// where none does.
pub fn query_ask(store: &MemoryStorage, collection: String, token_id: String) -> (r: Result<
    AskResponse,
    StdError,
>)
    requires
        well_formed(*store),
        key_part_fits(collection@),
    ensures
        r matches Ok(response) && response@ == ask_answer(
            ledger_of(*store),
            collection@,
            token_id@,
        ),
{
    let ask = ask_may_load(store, &collection, &token_id)?;
    Ok(AskResponse { ask })
}

/// Every ask with its key, in ascending order of the keys.
pub fn query_all_asks(store: &MemoryStorage) -> (r: Result<GetAllAsksResponse, StdError>)
    requires
        well_formed(*store),
    ensures
        r matches Ok(response) && lists_asks(ledger_of(*store), response@),
{
    let asks = asks_range(store)?;
    Ok(GetAllAsksResponse { asks })
}

/// Whether `response` answers the question `msg` about `ledger`.
pub open spec fn query_spec(ledger: Ledger, msg: QueryMsg, response: QueryResponse) -> bool {
    match msg {
        QueryMsg::Cw721Deposits { owner, collection } => {
            &&& response matches QueryResponse::Cw721Deposits(deposits)
            &&& lists_deposits(ledger, collection@, owner@, deposits@)
        },
        QueryMsg::Ask { collection, token_id } => {
            &&& response matches QueryResponse::Ask(ask)
            &&& ask@ == ask_answer(ledger, collection@, token_id@)
        },
        QueryMsg::GetAllAsks {  } => {
            &&& response matches QueryResponse::GetAllAsks(asks)
            &&& lists_asks(ledger, asks@)
        },
    }
}

/// Whether the keys that a question names are ones that the storage can hold.
pub open spec fn query_admits(msg: QueryMsg) -> bool {
    match msg {
        QueryMsg::Cw721Deposits { owner, collection } => key_part_fits(owner@) && key_part_fits(
            collection@,
        ),
        QueryMsg::Ask { collection, token_id } => key_part_fits(collection@),
        QueryMsg::GetAllAsks {  } => true,
    }
}

/// Answers a question about the ledgers.
pub fn query(store: &MemoryStorage, msg: QueryMsg) -> (r: Result<QueryResponse, StdError>)
    requires
        well_formed(*store),
        query_admits(msg),
    ensures
        r matches Ok(response) && query_spec(ledger_of(*store), msg, response),
{
    match msg {
        QueryMsg::Cw721Deposits { owner, collection } => {
            let deposits = query_cw721_deposits(store, owner, collection)?;
            Ok(QueryResponse::Cw721Deposits(deposits))
        },
        QueryMsg::Ask { collection, token_id } => {
            let ask = query_ask(store, collection, token_id)?;
            Ok(QueryResponse::Ask(ask))
        },
        QueryMsg::GetAllAsks {  } => {
            let asks = query_all_asks(store)?;
            Ok(QueryResponse::GetAllAsks(asks))
        },
    }
}

} // verus!

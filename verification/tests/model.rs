use std::collections::BTreeMap;

use cosmwasm_std::MemoryStorage;
use nft_marketplace::contract::execute_purchase;
use nft_marketplace::contract::execute_purchase_native;
use nft_marketplace::contract::execute_remove_listing;
use nft_marketplace::contract::execute_set_listing;
use nft_marketplace::contract::instantiate;
use nft_marketplace::contract::new_storage;
use nft_marketplace::contract::query_all_asks;
use nft_marketplace::contract::query_ask;
use nft_marketplace::contract::query_cw721_deposits;
use nft_marketplace::error::ContractError;
use nft_marketplace::host::Coin;
use nft_marketplace::host::MessageInfo;
use nft_marketplace::msg::Cw20ReceiveMsg;
use nft_marketplace::msg::InstantiateMsg;
use nft_marketplace::state::Ask;

const DENOM: &str = "ujunox";
const NAMES: [&str; 6] = ["", "a", "b", "ab", "é", "a\u{0}"];
const TOKENS: [&str; 5] = ["", "0", "1", "10", "猫"];

// A listing as the model keeps it: the bytes that order it, then the ask.
type Model = BTreeMap<Vec<u8>, Ask>;

fn order_key(collection: &str, token_id: &str) -> Vec<u8> {
    let mut key = vec![(collection.len() / 256) as u8, (collection.len() % 256) as u8];
    key.extend_from_slice(collection.as_bytes());
    key.extend_from_slice(token_id.as_bytes());
    key
}

fn info(sender: &str, funds: Vec<Coin>) -> MessageInfo {
    MessageInfo { sender: sender.to_string(), funds }
}

fn next(seed: &mut u64) -> usize {
    *seed = seed.wrapping_mul(6364136223846793005).wrapping_add(1442695040888963407);
    (*seed >> 33) as usize
}

fn step(store: &mut MemoryStorage, model: &mut Model, seed: &mut u64) {
    let collection = NAMES[next(seed) % NAMES.len()];
    let token_id = TOKENS[next(seed) % TOKENS.len()];
    let who = NAMES[next(seed) % NAMES.len()];
    let amount = (next(seed) % 3) as u128 + 1;
    let key = order_key(collection, token_id);
    let listed = model.get(&key).cloned();
    match next(seed) % 4 {
        0 => {
            let cw20 = if amount == 2 { Some("token".to_string()) } else { None };
            let result = execute_set_listing(
                store,
                info(collection, vec![]),
                who.to_string(),
                token_id.to_string(),
                cw20.clone(),
                amount,
            );
            if listed.is_some() {
                assert!(matches!(result, Err(ContractError::CustomError { val }) if val == "Already deposited"));
            } else {
                assert!(result.is_ok());
                let ask = Ask {
                    collection: collection.to_string(),
                    token_id: token_id.to_string(),
                    seller: who.to_string(),
                    price: amount,
                    cw20_contract: cw20,
                };
                model.insert(key, ask);
            }
        }
        1 => {
            let result = execute_remove_listing(
                store,
                info(who, vec![]),
                collection.to_string(),
                token_id.to_string(),
            );
            if listed.map(|ask| ask.seller == who).unwrap_or(false) {
                assert_eq!(result.unwrap().messages.len(), 1);
                model.remove(&key);
            } else {
                assert!(matches!(result, Err(ContractError::NoCw721ToWithdraw {})));
            }
        }
        2 => {
            let funds = vec![Coin { denom: DENOM.to_string(), amount }];
            let result = execute_purchase_native(
                store,
                info(who, funds),
                collection.to_string(),
                token_id.to_string(),
            );
            match listed {
                None => assert!(matches!(result, Err(ContractError::TokenNotListedForSale {}))),
                Some(ask) if ask.price != amount => {
                    assert!(matches!(result, Err(ContractError::CustomError { val }) if val == "Invalid amount"))
                }
                Some(_) => {
                    assert_eq!(result.unwrap().messages.len(), 2);
                    model.remove(&key);
                }
            }
        }
        _ => {
            let paid = Cw20ReceiveMsg { sender: who.to_string(), amount, msg: None };
            let result = execute_purchase(
                store,
                info("token", vec![]),
                collection.to_string(),
                token_id.to_string(),
                paid,
            );
            match listed {
                None => {
                    assert!(matches!(result, Err(ContractError::CustomError { val }) if val == "No such ask"))
                }
                Some(ask) if ask.price != amount => {
                    assert!(matches!(result, Err(ContractError::CustomError { val }) if val == "Invalid amount"))
                }
                Some(_) => {
                    assert_eq!(result.unwrap().messages.len(), 2);
                    model.remove(&key);
                }
            }
        }
    }
}

fn compare(store: &MemoryStorage, model: &Model) {
    let asks = query_all_asks(store).unwrap().asks;
    let expected: Vec<((String, String), Ask)> = model
        .values()
        .map(|ask| ((ask.collection.clone(), ask.token_id.clone()), ask.clone()))
        .collect();
    assert_eq!(asks, expected);
    for collection in NAMES {
        for token_id in TOKENS {
            let found = query_ask(store, collection.to_string(), token_id.to_string()).unwrap();
            assert_eq!(found.ask.as_ref(), model.get(&order_key(collection, token_id)));
        }
        for owner in NAMES {
            let deposits =
                query_cw721_deposits(store, owner.to_string(), collection.to_string()).unwrap();
            let mut held: Vec<&Ask> = model
                .values()
                .filter(|ask| ask.collection == collection && ask.seller == owner)
                .collect();
            held.sort_by(|a, b| a.token_id.as_bytes().cmp(b.token_id.as_bytes()));
            let ids: Vec<&str> = deposits.deposits.iter().map(|(id, _)| id.as_str()).collect();
            let expected: Vec<&str> = held.iter().map(|ask| ask.token_id.as_str()).collect();
            assert_eq!(ids, expected);
            for (id, deposit) in &deposits.deposits {
                assert_eq!(&deposit.token_id, id);
                assert_eq!(deposit.owner, owner);
                assert_eq!(deposit.collection, collection);
            }
        }
    }
}

#[test]
fn ledgers_follow_a_model_through_many_calls() {
    for run in 0..8u64 {
        let mut store = new_storage();
        let msg = InstantiateMsg { native_denom: DENOM.to_string() };
        instantiate(&mut store, info("admin", vec![]), msg).unwrap();
        let mut model = Model::new();
        let mut seed = 0x9E3779B97F4A7C15u64.wrapping_mul(run + 1);
        for round in 0..400 {
            step(&mut store, &mut model, &mut seed);
            if round % 25 == 0 {
                compare(&store, &model);
            }
        }
        compare(&store, &model);
    }
}

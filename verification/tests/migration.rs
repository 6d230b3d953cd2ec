use cosmwasm_std::MemoryStorage;
use nft_marketplace::contract::instantiate;
use nft_marketplace::contract::new_storage;
use nft_marketplace::contract::query_ask;
use nft_marketplace::contract::execute_set_listing;
use nft_marketplace::contract::CONTRACT_NAME;
use nft_marketplace::contract::CONTRACT_VERSION;
use nft_marketplace::error::ContractError;
use nft_marketplace::host::MessageInfo;
use nft_marketplace::host::Response;
use nft_marketplace::msg::InstantiateMsg;
use nft_marketplace::msg::QueryMsg;
use nft_marketplace::version::complete_migration;
use nft_marketplace::version::migrate;
use nft_marketplace::version::VersionOrder;

fn market_at(contract: &str, version: &str) -> MemoryStorage {
    let mut store = new_storage();
    let info = MessageInfo { sender: "ADMIN".to_string(), funds: vec![] };
    instantiate(&mut store, info, InstantiateMsg { native_denom: "ujunox".to_string() }).unwrap();
    cw2::set_contract_version(&mut store, contract, version).unwrap();
    store
}

fn recorded(store: &MemoryStorage) -> (String, String) {
    let version = cw2::get_contract_version(store).unwrap();
    (version.contract, version.version)
}

fn run(store: &mut MemoryStorage) -> Result<Response, ContractError> {
    migrate(store, QueryMsg::GetAllAsks {})
}

fn rejection(result: Result<Response, ContractError>) -> String {
    match result {
        Err(ContractError::Std(e)) => e.to_string(),
        other => panic!("not a rejection: {:?}", other),
    }
}

fn empty() -> Response {
    Response { messages: vec![], attributes: vec![] }
}

#[test]
fn names_are_those_of_the_marketplace() {
    assert_eq!(CONTRACT_NAME, "crates.io:nft-marketplace");
    assert_eq!(CONTRACT_VERSION, "0.1.0");
}

#[test]
fn migration_from_an_older_version_records_the_current_one() {
    for older in ["0.0.9", "0.0.0", "0.1.0-alpha", "0.1.0-rc.1", "0.0.10"] {
        let mut store = market_at(CONTRACT_NAME, older);
        assert_eq!(run(&mut store).unwrap(), empty());
        assert_eq!(recorded(&store), (CONTRACT_NAME.to_string(), CONTRACT_VERSION.to_string()));
    }
}

#[test]
fn migration_from_the_same_version_writes_nothing() {
    let mut store = market_at(CONTRACT_NAME, "0.1.0");
    assert_eq!(run(&mut store).unwrap(), empty());
    assert_eq!(recorded(&store), (CONTRACT_NAME.to_string(), "0.1.0".to_string()));
}

#[test]
fn migration_from_a_newer_version_is_rejected() {
    for newer in ["0.1.1", "0.2.0", "1.0.0", "0.10.0", "0.1.0+build"] {
        let mut store = market_at(CONTRACT_NAME, newer);
        assert_eq!(
            rejection(run(&mut store)),
            "Generic error: Cannot upgrade to a previous contract version"
        );
        assert_eq!(recorded(&store), (CONTRACT_NAME.to_string(), newer.to_string()));
    }
}

#[test]
fn migration_of_another_contract_is_rejected() {
    let mut store = market_at("crates.io:cw20-base", "0.0.1");
    assert_eq!(rejection(run(&mut store)), "Generic error: Cannot upgrade to a different contract");
    assert_eq!(recorded(&store), ("crates.io:cw20-base".to_string(), "0.0.1".to_string()));
}

#[test]
fn migration_from_a_version_that_is_none_is_rejected() {
    for text in ["one", "", "1.0", "v0.0.1", "0.0.1 "] {
        let mut store = market_at(CONTRACT_NAME, text);
        assert_eq!(rejection(run(&mut store)), "Generic error: Invalid contract version");
        assert_eq!(recorded(&store), (CONTRACT_NAME.to_string(), text.to_string()));
    }
}

#[test]
fn migration_without_a_recorded_version_is_rejected() {
    let mut store = new_storage();
    assert!(matches!(run(&mut store), Err(ContractError::Std(_))));
    assert!(cw2::get_contract_version(&store).is_err());
}

#[test]
fn migration_goes_by_the_order_it_is_given() {
    let mut store = market_at(CONTRACT_NAME, "7.7.7");
    assert_eq!(
        rejection(complete_migration(&mut store, None)),
        "Generic error: Invalid contract version"
    );
    assert_eq!(
        rejection(complete_migration(&mut store, Some(VersionOrder::Newer))),
        "Generic error: Cannot upgrade to a previous contract version"
    );
    assert_eq!(complete_migration(&mut store, Some(VersionOrder::Same)).unwrap(), empty());
    assert_eq!(recorded(&store).1, "7.7.7");
    assert_eq!(complete_migration(&mut store, Some(VersionOrder::Older)).unwrap(), empty());
    assert_eq!(recorded(&store).1, CONTRACT_VERSION);
}

#[test]
fn migration_leaves_the_ledgers() {
    let mut store = market_at(CONTRACT_NAME, "0.0.1");
    let info = MessageInfo { sender: "collection".to_string(), funds: vec![] };
    execute_set_listing(&mut store, info, "owner".to_string(), "7".to_string(), None, 12).unwrap();
    run(&mut store).unwrap();
    let ask = query_ask(&store, "collection".to_string(), "7".to_string()).unwrap().ask.unwrap();
    assert_eq!(ask.price, 12);
    assert_eq!(ask.seller, "owner");
    let denom = cw_storage_plus::Item::<String>::new("config").load(&store).unwrap();
    assert_eq!(denom, "ujunox");
}

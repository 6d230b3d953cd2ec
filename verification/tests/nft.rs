use cosmwasm_std::testing::mock_dependencies;
use cosmwasm_std::testing::mock_env;
use cosmwasm_std::testing::mock_info;
use cosmwasm_std::Empty;
use cw721::Cw721Query;
use cw721_base::Cw721Contract;
use cw721_base::ExecuteMsg;
use cw721_base::InstantiateMsg;
use cw721_base::MintMsg;
use nft_marketplace::nft::execute_update_on_chain_metadata;
use nft_marketplace::nft::Metadata;
use nft_marketplace::nft::NftError;
use nft_marketplace::nft::TokenMetadata;
use nft_marketplace::nft::Trait;
use serde_json::Value;

const CREATOR: &str = "creator";

// The collection keeps the metadata as JSON: the fields under their names.

fn optional(text: &Option<String>) -> Value {
    text.clone().map(Value::String).unwrap_or(Value::Null)
}

fn optional_list(texts: &Option<Vec<String>>) -> Value {
    match texts {
        Some(texts) => Value::Array(texts.iter().cloned().map(Value::String).collect()),
        None => Value::Null,
    }
}

fn trait_json(value: &Trait) -> Value {
    let mut fields = serde_json::Map::new();
    fields.insert("display_type".to_string(), optional(&value.display_type));
    fields.insert("trait_type".to_string(), Value::String(value.trait_type.clone()));
    fields.insert("value".to_string(), Value::String(value.value.clone()));
    Value::Object(fields)
}

fn metadata_json(metadata: &Metadata) -> Value {
    let mut fields = serde_json::Map::new();
    fields.insert("name".to_string(), optional(&metadata.name));
    fields.insert("image".to_string(), optional(&metadata.image));
    fields.insert("cohort".to_string(), optional(&metadata.cohort));
    fields.insert("description".to_string(), optional(&metadata.description));
    fields.insert(
        "attributes".to_string(),
        match &metadata.attributes {
            Some(attributes) => Value::Array(attributes.iter().map(trait_json).collect()),
            None => Value::Null,
        },
    );
    fields.insert("badges".to_string(), optional_list(&metadata.badges));
    fields.insert("skills".to_string(), optional_list(&metadata.skills));
    fields.insert("github_url".to_string(), optional(&metadata.github_url));
    fields.insert("is_for_hire".to_string(), Value::Bool(metadata.is_for_hire));
    Value::Object(fields)
}

fn text_of(value: &Value) -> Option<String> {
    value.as_str().map(|s| s.to_string())
}

fn list_of(value: &Value) -> Option<Vec<String>> {
    value.as_array().map(|items| items.iter().map(|i| i.as_str().unwrap().to_string()).collect())
}

fn metadata_of(value: &Value) -> Metadata {
    Metadata {
        name: text_of(&value["name"]),
        image: text_of(&value["image"]),
        cohort: text_of(&value["cohort"]),
        description: text_of(&value["description"]),
        attributes: value["attributes"].as_array().map(|items| {
            items
                .iter()
                .map(|i| Trait {
                    display_type: text_of(&i["display_type"]),
                    trait_type: i["trait_type"].as_str().unwrap().to_string(),
                    value: i["value"].as_str().unwrap().to_string(),
                })
                .collect()
        }),
        badges: list_of(&value["badges"]),
        skills: list_of(&value["skills"]),
        github_url: text_of(&value["github_url"]),
        is_for_hire: value["is_for_hire"].as_bool().unwrap(),
    }
}

#[test]
fn use_metadata_extension() {
    let mut deps = mock_dependencies();
    let contract = Cw721Contract::<Option<Value>, Empty>::default();

    let info = mock_info(CREATOR, &[]);
    let init_msg = InstantiateMsg {
        name: "SpaceShips".to_string(),
        symbol: "SPACE".to_string(),
        minter: CREATOR.to_string(),
    };
    contract.instantiate(deps.as_mut(), mock_env(), info.clone(), init_msg).unwrap();

    let token_id = "Enterprise";
    let extension = Some(Metadata {
        description: Some("Spaceship with Warp Drive".into()),
        name: Some("Starship USS Enterprise".to_string()),
        ..Metadata::default()
    });
    let mint_msg = MintMsg {
        token_id: token_id.to_string(),
        owner: "john".to_string(),
        token_uri: Some("https://starships.example.com/Starship/Enterprise.json".into()),
        extension: extension.as_ref().map(metadata_json),
    };
    let exec_msg = ExecuteMsg::Mint(mint_msg.clone());
    contract.execute(deps.as_mut(), mock_env(), info, exec_msg).unwrap();

    let res = contract.nft_info(deps.as_ref(), token_id.into()).unwrap();
    assert_eq!(res.token_uri, mint_msg.token_uri);
    assert_eq!(res.extension, mint_msg.extension);
    assert_eq!(res.extension.as_ref().map(metadata_of), extension);
}

#[test]
fn minter_rewrites_metadata_on_chain() {
    let mut deps = mock_dependencies();
    let contract = Cw721Contract::<Option<Value>, Empty>::default();
    let info = mock_info(CREATOR, &[]);
    let init_msg = InstantiateMsg {
        name: "SpaceShips".to_string(),
        symbol: "SPACE".to_string(),
        minter: CREATOR.to_string(),
    };
    contract.instantiate(deps.as_mut(), mock_env(), info.clone(), init_msg).unwrap();
    let mint_msg = MintMsg {
        token_id: "Enterprise".to_string(),
        owner: "john".to_string(),
        token_uri: None,
        extension: None,
    };
    contract.execute(deps.as_mut(), mock_env(), info, ExecuteMsg::Mint(mint_msg)).unwrap();

    let metadata = Metadata {
        name: Some("Starship USS Enterprise".to_string()),
        attributes: Some(vec![Trait {
            display_type: None,
            trait_type: "drive".to_string(),
            value: "warp".to_string(),
        }]),
        skills: Some(vec!["rust".to_string()]),
        is_for_hire: true,
        ..Metadata::default()
    };
    let minter = contract.minter.load(&deps.storage).unwrap().to_string();
    let mut token = contract.tokens.load(&deps.storage, "Enterprise").unwrap();
    let held = TokenMetadata {
        token_uri: token.token_uri.clone(),
        extension: token.extension.as_ref().map(metadata_of),
    };
    let updated = execute_update_on_chain_metadata(
        &CREATOR.to_string(),
        &minter,
        Some(held),
        "ipfs://enterprise".to_string(),
        metadata.clone(),
    )
    .unwrap();
    token.token_uri = updated.token_uri;
    token.extension = updated.extension.as_ref().map(metadata_json);
    contract.tokens.save(&mut deps.storage, "Enterprise", &token).unwrap();

    let res = contract.nft_info(deps.as_ref(), "Enterprise".to_string()).unwrap();
    assert_eq!(res.token_uri, Some("ipfs://enterprise".to_string()));
    assert_eq!(res.extension.as_ref().map(metadata_of), Some(metadata));
}

#[test]
fn update_is_for_the_minter_and_for_tokens_that_exist() {
    let held = TokenMetadata { token_uri: Some("old".to_string()), extension: None };
    let metadata = Metadata { cohort: Some("first".to_string()), ..Metadata::default() };
    let minter = "minter".to_string();

    let by_other = execute_update_on_chain_metadata(
        &"someone".to_string(),
        &minter,
        Some(held.clone()),
        "new".to_string(),
        metadata.clone(),
    );
    assert_eq!(by_other, Err(NftError::Unauthorized));

    let by_other_on_none = execute_update_on_chain_metadata(
        &"someone".to_string(),
        &minter,
        None,
        "new".to_string(),
        metadata.clone(),
    );
    assert_eq!(by_other_on_none, Err(NftError::Unauthorized));

    let on_none =
        execute_update_on_chain_metadata(&minter, &minter, None, "new".to_string(), metadata.clone());
    assert_eq!(on_none, Err(NftError::Unauthorized));

    let updated = execute_update_on_chain_metadata(
        &minter,
        &minter,
        Some(held),
        "new".to_string(),
        metadata.clone(),
    );
    assert_eq!(
        updated,
        Ok(TokenMetadata { token_uri: Some("new".to_string()), extension: Some(metadata) })
    );
}

#[test]
fn metadata_starts_empty() {
    let metadata = Metadata::default();
    assert_eq!(metadata.name, None);
    assert_eq!(metadata.attributes, None);
    assert!(!metadata.is_for_hire);
    let value = Trait::default();
    assert_eq!(value.display_type, None);
    assert_eq!(value.trait_type, "");
    assert_eq!(value.value, "");
}

use aptos_client::address::Address;
use aptos_client::client::{Account, Client};
use aptos_client::coin::CoinClient;
use aptos_client::error::ClientError;
use aptos_client::json::Json;
use aptos_client::token::TokenClient;
use aptos_client::transport::{Body, Expect, Method, Reply, Request};
use aptos_client::types::{ChainId, U64};

const NODE: &str = "https://node.example/v1";

fn node() -> Client {
    Client::new(NODE, ChainId(4))
}

fn long_address() -> Address {
    let mut bytes = [0u8; 32];
    bytes[0] = 0x1b;
    bytes[31] = 0x07;
    Address::new(bytes)
}

fn assert_get(request: &Request, url: &str) {
    assert_eq!(request.method, Method::Get);
    assert_eq!(request.url, url);
    assert!(matches!(request.body, Body::Empty));
    assert_eq!(request.expect, Expect::Json);
}

fn member<'a>(json: &'a Json, index: usize) -> (&'a str, &'a Json) {
    match json {
        Json::Object(members) => (members[index].0.as_str(), &members[index].1),
        _ => panic!("no object"),
    }
}

fn text_of(json: &Json) -> &str {
    match json {
        Json::Text(text) => text.as_str(),
        _ => panic!("no string"),
    }
}

#[test]
fn client_keeps_what_it_was_made_with() {
    let client = node();
    assert_eq!(client.base_url(), NODE);
    assert_eq!(client.chain_id(), ChainId(4));
}

#[test]
fn ledger_request_asks_the_base_address() {
    assert_get(&Client::ledger_info_request_at(NODE), NODE);
    assert_get(&node().ledger_info_request(), NODE);
}

#[test]
fn client_takes_its_chain_id_from_the_ledger_reply() {
    let reply = Reply::Answer(Json::Object(vec![
        ("chain_id".to_string(), Json::Number("27".to_string())),
        ("ledger_version".to_string(), Json::Text("1".to_string())),
    ]));
    let client = Client::connect(NODE, &reply).unwrap();
    assert_eq!(client.chain_id(), ChainId(27));
    assert_eq!(client.base_url(), NODE);
    assert_eq!(Client::connect(NODE, &Reply::Unreachable).err(), Some(ClientError::TransportError));
    assert_eq!(Client::connect(NODE, &Reply::Status(404)).err(), Some(ClientError::NotFound));
    assert_eq!(
        Client::connect(NODE, &Reply::Answer(Json::Null)).err(),
        Some(ClientError::DecodeError)
    );
}

#[test]
fn account_requests_name_the_address() {
    let client = node();
    assert_get(
        &client.account_request(&long_address()),
        "https://node.example/v1/accounts/0x1b00000000000000000000000000000000000000000000000000000000000007",
    );
    assert_get(
        &client.account_request(&Address::from_low_byte(1)),
        "https://node.example/v1/accounts/0x1",
    );
    assert_get(
        &client.account_resource_request(&Address::from_low_byte(1), "0x3::token::Collections"),
        "https://node.example/v1/accounts/0x1/resource/0x3::token::Collections",
    );
}

#[test]
fn event_request_names_the_address_in_short() {
    let mut bytes = [0u8; 32];
    bytes[30] = 0x12;
    bytes[31] = 0x34;
    let request = node().events_by_event_handle_request(
        &Address::new(bytes),
        "0x3::token::TokenStore",
        "deposit_events",
    );
    assert_get(
        &request,
        "https://node.example/v1/accounts/0x1234/events/0x3::token::TokenStore/deposit_events",
    );
}

#[test]
fn transaction_lookup_names_the_hash() {
    assert_get(
        &node().transaction_by_hash_request("0xabc"),
        "https://node.example/v1/transactions/by_hash/0xabc",
    );
}

#[test]
fn collection_lookup_names_handle_types_and_key() {
    let tokens = TokenClient::new(node());
    let request = tokens.collection_data_request("0x1b", "MyCollection");
    assert_eq!(request.method, Method::Post);
    assert_eq!(request.url, "https://node.example/v1/tables/0x1b/item");
    assert_eq!(request.expect, Expect::Json);
    let body = match &request.body {
        Body::Json(json) => json,
        _ => panic!("no JSON body"),
    };
    assert!(matches!(body, Json::Object(members) if members.len() == 3));
    assert_eq!(member(body, 0).0, "key_type");
    assert_eq!(text_of(member(body, 0).1), "0x1::string::String");
    assert_eq!(member(body, 1).0, "value_type");
    assert_eq!(text_of(member(body, 1).1), "0x3::token::CollectionData");
    assert_eq!(member(body, 2).0, "key");
    assert_eq!(text_of(member(body, 2).1), "MyCollection");
}

#[test]
fn same_lookup_gives_the_same_request() {
    let tokens = TokenClient::new(node());
    let first = tokens.collection_data_request("0x1b", "MyCollection");
    let second = tokens.collection_data_request("0x1b", "MyCollection");
    assert_eq!(first.method, second.method);
    assert_eq!(first.url, second.url);
    assert_eq!(first.expect, second.expect);
    let (a, b) = match (&first.body, &second.body) {
        (Body::Json(a), Body::Json(b)) => (a, b),
        _ => panic!("no JSON body"),
    };
    for index in 0..3 {
        assert_eq!(member(a, index).0, member(b, index).0);
        assert_eq!(text_of(member(a, index).1), text_of(member(b, index).1));
    }
}

#[test]
fn table_item_request_carries_the_key_as_given() {
    let key = Json::List(vec![Json::Bool(true), Json::Null]);
    let request = node().table_item_request("0xfeed", "vector<bool>", "u8", key);
    assert_eq!(request.url, "https://node.example/v1/tables/0xfeed/item");
    let body = match &request.body {
        Body::Json(json) => json,
        _ => panic!("no JSON body"),
    };
    assert_eq!(text_of(member(body, 0).1), "vector<bool>");
    assert_eq!(text_of(member(body, 1).1), "u8");
    assert!(
        matches!(member(body, 2).1, Json::List(items) if items.len() == 2 && matches!(items[0], Json::Bool(true)))
    );
}

#[test]
fn token_lookups_build_their_keys() {
    let tokens = TokenClient::new(node());
    let creator = Address::from_low_byte(0x2a);
    let request = tokens.token_data_request("0xh", &creator, "Coll", "Tok");
    assert_eq!(request.url, "https://node.example/v1/tables/0xh/item");
    let body = match &request.body {
        Body::Json(json) => json,
        _ => panic!("no JSON body"),
    };
    assert_eq!(text_of(member(body, 0).1), "0x3::token::TokenDataId");
    assert_eq!(text_of(member(body, 1).1), "0x3::token::TokenData");
    let key = member(body, 2).1;
    assert_eq!(member(key, 0).0, "creator");
    assert_eq!(text_of(member(key, 0).1), "0x2a");
    assert_eq!(member(key, 1).0, "collection");
    assert_eq!(text_of(member(key, 1).1), "Coll");
    assert_eq!(member(key, 2).0, "name");
    assert_eq!(text_of(member(key, 2).1), "Tok");

    let request = tokens.token_request("0xh2", &creator, "Coll", "Tok", 7);
    assert_eq!(request.url, "https://node.example/v1/tables/0xh2/item");
    let body = match &request.body {
        Body::Json(json) => json,
        _ => panic!("no JSON body"),
    };
    assert_eq!(text_of(member(body, 0).1), "0x3::token::TokenId");
    assert_eq!(text_of(member(body, 1).1), "0x3::token::Token");
    let key = member(body, 2).1;
    assert!(matches!(key, Json::Object(members) if members.len() == 2));
    assert_eq!(member(key, 0).0, "token_data_id");
    assert_eq!(text_of(member(member(key, 0).1, 0).1), "0x2a");
    assert_eq!(member(key, 1).0, "property_version");
    assert_eq!(text_of(member(key, 1).1), "7");
}

#[test]
fn handles_are_read_from_the_resources() {
    let tokens = TokenClient::new(node());
    let handle = |name: &str, value: &str| {
        Json::Object(vec![(
            name.to_string(),
            Json::Object(vec![("handle".to_string(), Json::Text(value.to_string()))]),
        )])
    };
    let resource = |data: Json| {
        Reply::Answer(Json::Object(vec![
            ("type".to_string(), Json::Text("0x3::token::Collections".to_string())),
            ("data".to_string(), data),
        ]))
    };
    let both = Json::Object(vec![
        (
            "collection_data".to_string(),
            Json::Object(vec![("handle".to_string(), Json::Text("0xc0".to_string()))]),
        ),
        (
            "token_data".to_string(),
            Json::Object(vec![("handle".to_string(), Json::Text("0xd0".to_string()))]),
        ),
    ]);
    let reply = resource(both);
    assert_eq!(tokens.account_resource_collection_data_handle(&reply), Ok("0xc0".to_string()));
    assert_eq!(tokens.account_resource_token_data_handle(&reply), Ok("0xd0".to_string()));
    assert_eq!(tokens.account_resource_tokens_handle(&reply), Err(ClientError::DecodeError));
    let store = resource(handle("tokens", "0xe0"));
    assert_eq!(tokens.account_resource_tokens_handle(&store), Ok("0xe0".to_string()));
    assert_eq!(
        tokens.account_resource_tokens_handle(&Reply::Status(404)),
        Err(ClientError::NotFound)
    );
    assert_get(
        &tokens.collections_request(&Address::from_low_byte(5)),
        "https://node.example/v1/accounts/0x5/resource/0x3::token::Collections",
    );
    assert_get(
        &tokens.token_store_request(&Address::from_low_byte(5)),
        "https://node.example/v1/accounts/0x5/resource/0x3::token::TokenStore",
    );
}

#[test]
fn balance_is_read_from_the_coin_store() {
    let coins = CoinClient::new(node());
    assert_get(
        &coins.account_balance_request(&Address::from_low_byte(9)),
        "https://node.example/v1/accounts/0x9/resource/0x1::coin::CoinStore<0x1::aptos_coin::AptosCoin>",
    );
    let reply = Reply::Answer(Json::Object(vec![
        ("type".to_string(), Json::Text("0x1::coin::CoinStore".to_string())),
        (
            "data".to_string(),
            Json::Object(vec![(
                "coin".to_string(),
                Json::Object(vec![("value".to_string(), Json::Text("12345".to_string()))]),
            )]),
        ),
    ]));
    assert_eq!(coins.account_balance(&reply), Ok(12345));
    assert_eq!(coins.account_balance(&Reply::Status(404)), Err(ClientError::NotFound));
    assert_eq!(coins.account_balance(&Reply::Unreachable), Err(ClientError::TransportError));
    assert_eq!(coins.account_balance(&Reply::Answer(Json::Null)), Err(ClientError::DecodeError));
}

#[test]
fn account_reply_gives_the_sequence_number() {
    let client = node();
    let reply = Reply::Answer(Json::Object(vec![(
        "sequence_number".to_string(),
        Json::Text("5".to_string()),
    )]));
    assert_eq!(client.account(&reply), Ok(Account { sequence_number: U64(5) }));
    assert_eq!(client.account(&Reply::Status(404)), Err(ClientError::NotFound));
}

#[test]
fn token_balance_and_deposits_are_read() {
    let tokens = TokenClient::new(node());
    let id = |name: &str| {
        Json::Object(vec![
            ("collection".to_string(), Json::Text("c".to_string())),
            ("creator".to_string(), Json::Text("0x2".to_string())),
            ("name".to_string(), Json::Text(name.to_string())),
        ])
    };
    let holding = Reply::Answer(Json::Object(vec![
        ("amount".to_string(), Json::Text("3".to_string())),
        (
            "id".to_string(),
            Json::Object(vec![
                ("property_version".to_string(), Json::Text("0".to_string())),
                ("token_data_id".to_string(), id("t")),
            ]),
        ),
    ]));
    assert_eq!(tokens.token_balance(&holding), Ok(3));
    assert_eq!(tokens.token_balance(&Reply::Status(404)), Err(ClientError::NotFound));
    assert_eq!(tokens.token(&holding).unwrap().id.token_data_id.name, "t");

    let event = |name: &str| {
        Json::Object(vec![
            ("type".to_string(), Json::Text("e".to_string())),
            ("sequence_number".to_string(), Json::Text("0".to_string())),
            (
                "data".to_string(),
                Json::Object(vec![
                    ("amount".to_string(), Json::Text("1".to_string())),
                    (
                        "id".to_string(),
                        Json::Object(vec![("token_data_id".to_string(), id(name))]),
                    ),
                ]),
            ),
        ])
    };
    let reply = Reply::Answer(Json::List(vec![event("one"), event("two"), event("three")]));
    let ids = tokens.list_account_token_data(&reply).unwrap();
    let names: Vec<&str> = ids.iter().map(|id| id.name.as_str()).collect();
    assert_eq!(names, vec!["one", "two", "three"]);
    assert_eq!(ids[0].creator, Address::from_low_byte(2));
    assert_eq!(
        tokens.list_account_token_data(&Reply::Answer(Json::Null)).err(),
        Some(ClientError::DecodeError)
    );
    assert_eq!(
        tokens.list_account_token_data(&Reply::Unreachable).err(),
        Some(ClientError::TransportError)
    );
    assert_get(
        &tokens.list_account_token_data_request(&Address::from_low_byte(2)),
        "https://node.example/v1/accounts/0x2/events/0x3::token::TokenStore/deposit_events",
    );
}

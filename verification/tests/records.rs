use aptos_client::address::Address;
use aptos_client::client::{Account, AccountResource, Event, LedgerInfo, Transaction};
use aptos_client::coin::Balance;
use aptos_client::error::ClientError;
use aptos_client::json::{FromJson, Json};
use aptos_client::token::{CollectionData, EventData, Token, TokenData, TokenDataId};
use aptos_client::transport::Reply;
use aptos_client::types::{ChainId, U64};

fn text(value: &str) -> Json {
    Json::Text(value.to_string())
}

fn object(members: Vec<(&str, Json)>) -> Json {
    Json::Object(members.into_iter().map(|(name, value)| (name.to_string(), value)).collect())
}

fn collection_json(name: &str) -> Json {
    object(vec![
        ("description", text("a collection")),
        ("maximum", text("18446744073709551615")),
        ("name", text(name)),
        ("supply", text("2")),
        ("uri", text("https://example.org/c")),
    ])
}

fn token_data_id_json() -> Json {
    object(vec![
        ("collection", text("MyCollection")),
        ("creator", text("0x1b")),
        ("name", text("MyToken")),
    ])
}

#[test]
fn member_lookup_takes_the_first_of_a_name() {
    let json = object(vec![("a", text("1")), ("b", text("2")), ("a", text("3"))]);
    assert!(matches!(json.get("a"), Some(Json::Text(t)) if t == "1"));
    assert!(matches!(json.get("b"), Some(Json::Text(t)) if t == "2"));
    assert!(json.get("c").is_none());
    assert!(text("a").get("a").is_none());
    assert_eq!(json.get_u64("b"), Some(2));
    assert_eq!(json.get_string("a"), Some("1".to_string()));
    assert_eq!(object(vec![("n", Json::Number("2".to_string()))]).get_u64("n"), None);
}

#[test]
fn account_record_is_read_from_its_string_number() {
    let json = object(vec![
        ("authentication_key", text("0x1b")),
        ("sequence_number", text("5")),
    ]);
    assert_eq!(Account::from_json(&json), Some(Account { sequence_number: U64(5) }));
    let number = object(vec![("sequence_number", Json::Number("5".to_string()))]);
    assert_eq!(Account::from_json(&number), None);
    let bad = object(vec![("sequence_number", text("five"))]);
    assert_eq!(Account::from_json(&bad), None);
    assert_eq!(Account::from_json(&object(vec![])), None);
    assert_eq!(Account::from_json(&Json::Null), None);
    assert_eq!(Account::from_json(&Json::List(vec![text("5")])), None);
}

#[test]
fn ledger_record_holds_the_chain_id_as_a_number() {
    let json = object(vec![
        ("chain_id", Json::Number("4".to_string())),
        ("ledger_version", text("123456")),
    ]);
    assert_eq!(
        LedgerInfo::from_json(&json),
        Some(LedgerInfo { chain_id: ChainId(4), ledger_version: U64(123456) })
    );
    for bad in ["256", "-1", "4.0", "+4", "", "1e2"] {
        let json = object(vec![
            ("chain_id", Json::Number(bad.to_string())),
            ("ledger_version", text("1")),
        ]);
        assert_eq!(LedgerInfo::from_json(&json), None, "chain id {:?}", bad);
    }
    let as_text = object(vec![("chain_id", text("4")), ("ledger_version", text("1"))]);
    assert_eq!(LedgerInfo::from_json(&as_text), None);
    assert_eq!(ChainId::from_json(&Json::Number("255".to_string())), Some(ChainId(255)));
    assert_eq!(ChainId::from_json(&Json::Number("0".to_string())), Some(ChainId(0)));
}

#[test]
fn collection_record_is_decoded_with_its_name() {
    let reply = Reply::Answer(collection_json("MyCollection"));
    let record: CollectionData = reply.read::<CollectionData>().unwrap();
    assert_eq!(record.name, "MyCollection");
    assert_eq!(record.description, "a collection");
    assert_eq!(record.uri, "https://example.org/c");
    assert_eq!(record.supply, U64(2));
}

#[test]
fn same_reply_gives_the_same_record() {
    let reply = Reply::Answer(collection_json("MyCollection"));
    let first = reply.read::<CollectionData>().unwrap();
    let second = reply.read::<CollectionData>().unwrap();
    assert_eq!(first.name, second.name);
    assert_eq!(first.description, second.description);
    assert_eq!(first.uri, second.uri);
    assert_eq!(first.supply, second.supply);
}

#[test]
fn resource_record_holds_its_type_and_its_data() {
    let json = object(vec![
        ("type", text("0x1::coin::CoinStore<0x1::aptos_coin::AptosCoin>")),
        ("data", object(vec![("coin", object(vec![("value", text("1000"))]))])),
    ]);
    let resource = AccountResource::<Balance>::from_json(&json).unwrap();
    assert_eq!(resource.resource_type, "0x1::coin::CoinStore<0x1::aptos_coin::AptosCoin>");
    assert_eq!(resource.data.coin.value, U64(1000));
    let without_type = object(vec![(
        "data",
        object(vec![("coin", object(vec![("value", text("1000"))]))]),
    )]);
    assert!(AccountResource::<Balance>::from_json(&without_type).is_none());
    let wrong_data = object(vec![("type", text("t")), ("data", object(vec![]))]);
    assert!(AccountResource::<Balance>::from_json(&wrong_data).is_none());
}

#[test]
fn token_records_are_read_with_their_nested_parts() {
    let id = token_data_id_json();
    let parsed = TokenDataId::from_json(&id).unwrap();
    assert_eq!(parsed.creator, Address::from_low_byte(0x1b));
    assert_eq!(parsed.collection, "MyCollection");
    assert_eq!(parsed.name, "MyToken");

    let token = object(vec![
        ("amount", text("3")),
        (
            "id",
            object(vec![("property_version", text("0")), ("token_data_id", token_data_id_json())]),
        ),
    ]);
    let token = Token::from_json(&token).unwrap();
    assert_eq!(token.amount, U64(3));
    assert_eq!(token.id.property_version, U64(0));
    assert_eq!(token.id.token_data_id.name, "MyToken");

    let item = object(vec![
        ("key", text("level")),
        ("value", object(vec![("type", text("u64")), ("value", text("0x05"))])),
    ]);
    let data = object(vec![
        ("name", text("MyToken")),
        ("description", text("d")),
        ("uri", text("u")),
        ("supply", text("1")),
        (
            "default_properties",
            object(vec![("map", object(vec![("data", Json::List(vec![item]))]))]),
        ),
    ]);
    let data = TokenData::from_json(&data).unwrap();
    assert_eq!(data.name, "MyToken");
    assert_eq!(data.supply, U64(1));
    assert_eq!(data.default_properties.map.data.len(), 1);
    assert_eq!(data.default_properties.map.data[0].key, "level");
    assert_eq!(data.default_properties.map.data[0].value.value_type, "u64");
    assert_eq!(data.default_properties.map.data[0].value.value, "0x05");
}

#[test]
fn token_record_with_a_bad_creator_is_refused() {
    let id = object(vec![
        ("collection", text("c")),
        ("creator", text("0xnothex")),
        ("name", text("n")),
    ]);
    assert!(TokenDataId::from_json(&id).is_none());
}

#[test]
fn event_list_is_read_in_order_or_not_at_all() {
    let event = |number: &str, name: &str| {
        object(vec![
            ("type", text("0x3::token::DepositEvent")),
            ("sequence_number", text(number)),
            (
                "data",
                object(vec![
                    ("amount", text("1")),
                    (
                        "id",
                        object(vec![(
                            "token_data_id",
                            object(vec![
                                ("collection", text("c")),
                                ("creator", text("0x2")),
                                ("name", text(name)),
                            ]),
                        )]),
                    ),
                ]),
            ),
        ])
    };
    let list = Json::List(vec![event("0", "first"), event("1", "second")]);
    let events: Vec<Event<EventData>> = list.read_list().unwrap();
    assert_eq!(events.len(), 2);
    assert_eq!(events[0].sequence_number, U64(0));
    assert_eq!(events[0].data.id.token_data_id.name, "first");
    assert_eq!(events[1].data.id.token_data_id.name, "second");
    assert_eq!(events[1].event_type, "0x3::token::DepositEvent");

    let broken = Json::List(vec![event("0", "first"), Json::Null, event("2", "third")]);
    assert!(broken.read_list::<Event<EventData>>().is_none());
    assert!(Json::Null.read_list::<Event<EventData>>().is_none());
    let empty: Vec<Event<EventData>> = Json::List(vec![]).read_list().unwrap();
    assert!(empty.is_empty());
}

#[test]
fn transaction_record_is_read() {
    let json = object(vec![("type", text("user_transaction")), ("sequence_number", text("9"))]);
    let record = Transaction::from_json(&json).unwrap();
    assert_eq!(record.transaction_type, "user_transaction");
    assert_eq!(record.sequence_number, U64(9));
    assert!(Transaction::from_json(&object(vec![("type", text("user_transaction"))])).is_none());
}

#[test]
fn every_kind_of_failure_is_told_apart() {
    let good = object(vec![("sequence_number", text("5"))]);
    assert_eq!(Reply::Answer(good).read::<Account>(), Ok(Account { sequence_number: U64(5) }));
    assert_eq!(Reply::Status(404).read::<Account>(), Err(ClientError::NotFound));
    assert_eq!(Reply::Status(500).read::<Account>(), Err(ClientError::TransportError));
    assert_eq!(Reply::Status(400).read::<Account>(), Err(ClientError::TransportError));
    assert_eq!(Reply::Unreachable.read::<Account>(), Err(ClientError::TransportError));
    assert_eq!(Reply::Unreadable.read::<Account>(), Err(ClientError::DecodeError));
    assert_eq!(Reply::Text("5".to_string()).read::<Account>(), Err(ClientError::DecodeError));
    assert_eq!(Reply::Answer(Json::Null).read::<Account>(), Err(ClientError::DecodeError));
}

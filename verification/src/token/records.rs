//! The records of collections and tokens, as the node's tables and events
//! hold them.

use vstd::prelude::*;
use crate::address::{parse_address, Address};
use crate::json::{views, FromJson, Json};
use crate::types::U64;

verus! {

/// What the node tells of a collection.
#[derive(Debug)]
pub struct CollectionData {
    pub name: String,
    pub description: String,
    pub uri: String,
    pub supply: U64,
}

/// The view of a collection's record.
pub ghost struct CollectionDataView {
    pub name: Seq<char>,
    pub description: Seq<char>,
    pub uri: Seq<char>,
    pub supply: u64,
}

impl View for CollectionData {
    type V = CollectionDataView;

    open spec fn view(&self) -> CollectionDataView {
        CollectionDataView {
            name: self.name@,
            description: self.description@,
            uri: self.uri@,
            supply: self.supply.0,
        }
    }
}

impl FromJson for CollectionData {
    /// An object with the strings `name`, `description` and `uri` and the
    /// string-carried number `supply`.
    open spec fn parsed(json: Json) -> Option<CollectionDataView> {
        match (
            json.text_member("name"@),
            json.text_member("description"@),
            json.text_member("uri"@),
            json.u64_member("supply"@),
        ) {
            (Some(name), Some(description), Some(uri), Some(supply)) => Some(
                CollectionDataView { name, description, uri, supply },
            ),
            _ => None,
        }
    }

    fn from_json(json: &Json) -> (r: Option<Self>) {
        let name = match json.get_string("name") {
            Some(text) => text,
            None => {
                return None;
            },
        };
        let description = match json.get_string("description") {
            Some(text) => text,
            None => {
                return None;
            },
        };
        let uri = match json.get_string("uri") {
            Some(text) => text,
            None => {
                return None;
            },
        };
        match json.get_u64("supply") {
            Some(supply) => Some(CollectionData { name, description, uri, supply: U64(supply) }),
            None => None,
        }
    }
}

/// The value of one property of a token: its type and its encoded value.
#[derive(Debug)]
pub struct TokenDataPropertyItemValue {
    pub value_type: String,
    pub value: String,
}

/// The view of a property's value.
pub ghost struct TokenDataPropertyItemValueView {
    pub value_type: Seq<char>,
    pub value: Seq<char>,
}

impl View for TokenDataPropertyItemValue {
    type V = TokenDataPropertyItemValueView;

    open spec fn view(&self) -> TokenDataPropertyItemValueView {
        TokenDataPropertyItemValueView { value_type: self.value_type@, value: self.value@ }
    }
}

impl FromJson for TokenDataPropertyItemValue {
    /// An object with the strings `type` and `value`.
    open spec fn parsed(json: Json) -> Option<TokenDataPropertyItemValueView> {
        match (json.text_member("type"@), json.text_member("value"@)) {
            (Some(value_type), Some(value)) => Some(
                TokenDataPropertyItemValueView { value_type, value },
            ),
            _ => None,
        }
    }

    fn from_json(json: &Json) -> (r: Option<Self>) {
        let value_type = match json.get_string("type") {
            Some(text) => text,
            None => {
                return None;
            },
        };
        match json.get_string("value") {
            Some(value) => Some(TokenDataPropertyItemValue { value_type, value }),
            None => None,
        }
    }
}

/// One property of a token: its key and its value.
#[derive(Debug)]
pub struct TokenDataPropertyItem {
    pub key: String,
    pub value: TokenDataPropertyItemValue,
}

/// The view of a property.
pub ghost struct TokenDataPropertyItemView {
    pub key: Seq<char>,
    pub value: TokenDataPropertyItemValueView,
}

impl View for TokenDataPropertyItem {
    type V = TokenDataPropertyItemView;

    open spec fn view(&self) -> TokenDataPropertyItemView {
        TokenDataPropertyItemView { key: self.key@, value: self.value@ }
    }
}

impl FromJson for TokenDataPropertyItem {
    /// An object with the string `key` and a member `value` that holds a
    /// property's value.
    open spec fn parsed(json: Json) -> Option<TokenDataPropertyItemView> {
        match (
            json.text_member("key"@),
            json.record_member::<TokenDataPropertyItemValue>("value"@),
        ) {
            (Some(key), Some(value)) => Some(TokenDataPropertyItemView { key, value }),
            _ => None,
        }
    }

    fn from_json(json: &Json) -> (r: Option<Self>) {
        let key = match json.get_string("key") {
            Some(text) => text,
            None => {
                return None;
            },
        };
        match json.get_record::<TokenDataPropertyItemValue>("value") {
            Some(value) => Some(TokenDataPropertyItem { key, value }),
            None => None,
        }
    }
}

/// The properties of a token, in order.
#[derive(Debug)]
pub struct TokenDataPropertyData {
    pub data: Vec<TokenDataPropertyItem>,
}

impl View for TokenDataPropertyData {
    type V = Seq<TokenDataPropertyItemView>;

    open spec fn view(&self) -> Seq<TokenDataPropertyItemView> {
        views(self.data@)
    }
}

impl FromJson for TokenDataPropertyData {
    /// An object with an array `data` of properties.
    open spec fn parsed(json: Json) -> Option<Seq<TokenDataPropertyItemView>> {
        json.list_member::<TokenDataPropertyItem>("data"@)
    }

    fn from_json(json: &Json) -> (r: Option<Self>) {
        match json.get_list::<TokenDataPropertyItem>("data") {
            Some(data) => Some(TokenDataPropertyData { data }),
            None => None,
        }
    }
}

/// The map of a token's properties.
#[derive(Debug)]
pub struct TokenDataPropertyMap {
    pub map: TokenDataPropertyData,
}

impl View for TokenDataPropertyMap {
    type V = Seq<TokenDataPropertyItemView>;

    open spec fn view(&self) -> Seq<TokenDataPropertyItemView> {
        self.map@
    }
}

impl FromJson for TokenDataPropertyMap {
    /// An object with a member `map` that holds the properties.
    open spec fn parsed(json: Json) -> Option<Seq<TokenDataPropertyItemView>> {
        json.record_member::<TokenDataPropertyData>("map"@)
    }

    fn from_json(json: &Json) -> (r: Option<Self>) {
        match json.get_record::<TokenDataPropertyData>("map") {
            Some(map) => Some(TokenDataPropertyMap { map }),
            None => None,
        }
    }
}

/// What the node tells of a token.
#[derive(Debug)]
pub struct TokenData {
    pub name: String,
    pub description: String,
    pub uri: String,
    pub supply: U64,
    pub default_properties: TokenDataPropertyMap,
}

/// The view of a token's record.
pub ghost struct TokenDataView {
    pub name: Seq<char>,
    pub description: Seq<char>,
    pub uri: Seq<char>,
    pub supply: u64,
    pub default_properties: Seq<TokenDataPropertyItemView>,
}

impl View for TokenData {
    type V = TokenDataView;

    open spec fn view(&self) -> TokenDataView {
        TokenDataView {
            name: self.name@,
            description: self.description@,
            uri: self.uri@,
            supply: self.supply.0,
            default_properties: self.default_properties@,
        }
    }
}

impl FromJson for TokenData {
    /// An object with the strings `name`, `description` and `uri`, the
    /// string-carried number `supply`, and a member `default_properties` that
    /// holds a map of properties.
    open spec fn parsed(json: Json) -> Option<TokenDataView> {
        match (
            json.text_member("name"@),
            json.text_member("description"@),
            json.text_member("uri"@),
            json.u64_member("supply"@),
            json.record_member::<TokenDataPropertyMap>("default_properties"@),
        ) {
            (
                Some(name),
                Some(description),
                Some(uri),
                Some(supply),
                Some(default_properties),
            ) => Some(TokenDataView { name, description, uri, supply, default_properties }),
            _ => None,
        }
    }

    fn from_json(json: &Json) -> (r: Option<Self>) {
        let name = match json.get_string("name") {
            Some(text) => text,
            None => {
                return None;
            },
        };
        let description = match json.get_string("description") {
            Some(text) => text,
            None => {
                return None;
            },
        };
        let uri = match json.get_string("uri") {
            Some(text) => text,
            None => {
                return None;
            },
        };
        let supply = match json.get_u64("supply") {
            Some(supply) => U64(supply),
            None => {
                return None;
            },
        };
        match json.get_record::<TokenDataPropertyMap>("default_properties") {
            Some(default_properties) => Some(
                TokenData { name, description, uri, supply, default_properties },
            ),
            None => None,
        }
    }
}

/// What names a token's data: its creator, its collection and its name.
#[derive(Debug)]
pub struct TokenDataId {
    pub creator: Address,
    pub collection: String,
    pub name: String,
}

/// The view of what names a token's data.
pub ghost struct TokenDataIdView {
    pub creator: Seq<u8>,
    pub collection: Seq<char>,
    pub name: Seq<char>,
}

impl View for TokenDataId {
    type V = TokenDataIdView;

    open spec fn view(&self) -> TokenDataIdView {
        TokenDataIdView {
            creator: self.creator@,
            collection: self.collection@,
            name: self.name@,
        }
    }
}

impl FromJson for TokenDataId {
    /// An object with a string `creator` that writes an address, and the
    /// strings `collection` and `name`.
    open spec fn parsed(json: Json) -> Option<TokenDataIdView> {
        match (
            json.text_member("creator"@),
            json.text_member("collection"@),
            json.text_member("name"@),
        ) {
            (Some(creator), Some(collection), Some(name)) => match parse_address(creator) {
                Some(creator) => Some(TokenDataIdView { creator, collection, name }),
                None => None,
            },
            _ => None,
        }
    }

    fn from_json(json: &Json) -> (r: Option<Self>) {
        let creator = match json.get_text("creator") {
            Some(text) => match Address::from_hex(text.as_str()) {
                Some(creator) => Some(creator),
                None => None,
            },
            None => {
                return None;
            },
        };
        let collection = match json.get_string("collection") {
            Some(text) => text,
            None => {
                return None;
            },
        };
        let name = match json.get_string("name") {
            Some(text) => text,
            None => {
                return None;
            },
        };
        match creator {
            Some(creator) => Some(TokenDataId { creator, collection, name }),
            None => None,
        }
    }
}

/// What names a token: the version of its properties and what names its data.
#[derive(Debug)]
pub struct TokenId {
    pub property_version: U64,
    pub token_data_id: TokenDataId,
}

/// The view of what names a token.
pub ghost struct TokenIdView {
    pub property_version: u64,
    pub token_data_id: TokenDataIdView,
}

impl View for TokenId {
    type V = TokenIdView;

    open spec fn view(&self) -> TokenIdView {
        TokenIdView {
            property_version: self.property_version.0,
            token_data_id: self.token_data_id@,
        }
    }
}

impl FromJson for TokenId {
    /// An object with the string-carried number `property_version` and a
    /// member `token_data_id` that names a token's data.
    open spec fn parsed(json: Json) -> Option<TokenIdView> {
        match (
            json.u64_member("property_version"@),
            json.record_member::<TokenDataId>("token_data_id"@),
        ) {
            (Some(property_version), Some(token_data_id)) => Some(
                TokenIdView { property_version, token_data_id },
            ),
            _ => None,
        }
    }

    fn from_json(json: &Json) -> (r: Option<Self>) {
        let property_version = match json.get_u64("property_version") {
            Some(version) => U64(version),
            None => {
                return None;
            },
        };
        match json.get_record::<TokenDataId>("token_data_id") {
            Some(token_data_id) => Some(TokenId { property_version, token_data_id }),
            None => None,
        }
    }
}

/// The tokens of one kind that an account holds: how many, and which.
#[derive(Debug)]
pub struct Token {
    pub amount: U64,
    pub id: TokenId,
}

/// The view of an account's holding.
pub ghost struct TokenView {
    pub amount: u64,
    pub id: TokenIdView,
}

impl View for Token {
    type V = TokenView;

    open spec fn view(&self) -> TokenView {
        TokenView { amount: self.amount.0, id: self.id@ }
    }
}

impl FromJson for Token {
    /// An object with the string-carried number `amount` and a member `id`
    /// that names a token.
    open spec fn parsed(json: Json) -> Option<TokenView> {
        match (json.u64_member("amount"@), json.record_member::<TokenId>("id"@)) {
            (Some(amount), Some(id)) => Some(TokenView { amount, id }),
            _ => None,
        }
    }

    fn from_json(json: &Json) -> (r: Option<Self>) {
        let amount = match json.get_u64("amount") {
            Some(amount) => U64(amount),
            None => {
                return None;
            },
        };
        match json.get_record::<TokenId>("id") {
            Some(id) => Some(Token { amount, id }),
            None => None,
        }
    }
}

/// Which token an event is about.
#[derive(Debug)]
pub struct EventId {
    pub token_data_id: TokenDataId,
}

impl View for EventId {
    type V = TokenDataIdView;

    open spec fn view(&self) -> TokenDataIdView {
        self.token_data_id@
    }
}

impl FromJson for EventId {
    /// An object with a member `token_data_id` that names a token's data.
    open spec fn parsed(json: Json) -> Option<TokenDataIdView> {
        json.record_member::<TokenDataId>("token_data_id"@)
    }

    fn from_json(json: &Json) -> (r: Option<Self>) {
        match json.get_record::<TokenDataId>("token_data_id") {
            Some(token_data_id) => Some(EventId { token_data_id }),
            None => None,
        }
    }
}

/// What an event tells of tokens that came in: how many, and which.
#[derive(Debug)]
pub struct EventData {
    pub amount: U64,
    pub id: EventId,
}

/// The view of an event's data.
pub ghost struct EventDataView {
    pub amount: u64,
    pub id: TokenDataIdView,
}

impl View for EventData {
    type V = EventDataView;

    open spec fn view(&self) -> EventDataView {
        EventDataView { amount: self.amount.0, id: self.id@ }
    }
}

impl FromJson for EventData {
    /// An object with the string-carried number `amount` and a member `id`
    /// that says which token.
    open spec fn parsed(json: Json) -> Option<EventDataView> {
        match (json.u64_member("amount"@), json.record_member::<EventId>("id"@)) {
            (Some(amount), Some(id)) => Some(EventDataView { amount, id }),
            _ => None,
        }
    }

    fn from_json(json: &Json) -> (r: Option<Self>) {
        let amount = match json.get_u64("amount") {
            Some(amount) => U64(amount),
            None => {
                return None;
            },
        };
        match json.get_record::<EventId>("id") {
            Some(id) => Some(EventData { amount, id }),
            None => None,
        }
    }
}

/// The handle of a table: the text by which the node finds the table.
#[derive(Debug)]
pub struct ResourceHandle {
    pub handle: String,
}

impl View for ResourceHandle {
    type V = Seq<char>;

    open spec fn view(&self) -> Seq<char> {
        self.handle@
    }
}

impl FromJson for ResourceHandle {
    /// An object with a string `handle`.
    open spec fn parsed(json: Json) -> Option<Seq<char>> {
        json.text_member("handle"@)
    }

    fn from_json(json: &Json) -> (r: Option<Self>) {
        match json.get_string("handle") {
            Some(handle) => Some(ResourceHandle { handle }),
            None => None,
        }
    }
}

/// The resource that names the table of an account's collections.
#[derive(Debug)]
pub struct ResourceCollectionData {
    pub collection_data: ResourceHandle,
}

impl View for ResourceCollectionData {
    type V = Seq<char>;

    open spec fn view(&self) -> Seq<char> {
        self.collection_data@
    }
}

impl FromJson for ResourceCollectionData {
    /// An object with a member `collection_data` that holds a handle.
    open spec fn parsed(json: Json) -> Option<Seq<char>> {
        json.record_member::<ResourceHandle>("collection_data"@)
    }

    fn from_json(json: &Json) -> (r: Option<Self>) {
        match json.get_record::<ResourceHandle>("collection_data") {
            Some(collection_data) => Some(ResourceCollectionData { collection_data }),
            None => None,
        }
    }
}

/// The resource that names the table of the tokens that an account created.
#[derive(Debug)]
pub struct ResourceTokenData {
    pub token_data: ResourceHandle,
}

impl View for ResourceTokenData {
    type V = Seq<char>;

    open spec fn view(&self) -> Seq<char> {
        self.token_data@
    }
}

impl FromJson for ResourceTokenData {
    /// An object with a member `token_data` that holds a handle.
    open spec fn parsed(json: Json) -> Option<Seq<char>> {
        json.record_member::<ResourceHandle>("token_data"@)
    }

    fn from_json(json: &Json) -> (r: Option<Self>) {
        match json.get_record::<ResourceHandle>("token_data") {
            Some(token_data) => Some(ResourceTokenData { token_data }),
            None => None,
        }
    }
}

/// The resource that names the table of the tokens that an account holds.
#[derive(Debug)]
pub struct ResourceTokens {
    pub tokens: ResourceHandle,
}

impl View for ResourceTokens {
    type V = Seq<char>;

    open spec fn view(&self) -> Seq<char> {
        self.tokens@
    }
}

impl FromJson for ResourceTokens {
    /// An object with a member `tokens` that holds a handle.
    open spec fn parsed(json: Json) -> Option<Seq<char>> {
        json.record_member::<ResourceHandle>("tokens"@)
    }

    fn from_json(json: &Json) -> (r: Option<Self>) {
        match json.get_record::<ResourceHandle>("tokens") {
            Some(tokens) => Some(ResourceTokens { tokens }),
            None => None,
        }
    }
}

} // verus!

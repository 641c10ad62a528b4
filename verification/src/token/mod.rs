//! Collections and tokens: the calls that create and move them, and the
//! lookups that read them from the tables in which the node keeps them.
//!
//! Every lookup takes two steps: the account's resource names the table, and
//! the table holds the item.

mod records;

pub use records::{
    CollectionData, CollectionDataView, EventData, EventDataView, EventId, ResourceCollectionData,
    ResourceHandle, ResourceTokenData, ResourceTokens, Token, TokenData, TokenDataId,
    TokenDataIdView, TokenDataPropertyData, TokenDataPropertyItem, TokenDataPropertyItemValue,
    TokenDataPropertyItemValueView, TokenDataPropertyItemView, TokenDataPropertyMap,
    TokenDataView, TokenId, TokenIdView, TokenView,
};

use vstd::prelude::*;
use vstd::string::*;
use crate::address::{
    lemma_address_round_trip, lemma_short_text_is_short, short_text, standard_text, Address,
};
use crate::client::{
    events_of, is_get, is_table_query, queried_key, AccountResource, Client, EventView,
};
use crate::codec::{
    bools_encoding, encode_address, encode_bools, encode_str, encode_strs, encode_u64,
    lemma_ascii_encodable, str_encodable, str_encoding, strs_encodable, strs_encoding, texts_of,
    u64_encoding,
};
use crate::decimal::{decimal_text, lemma_parse_decimal_text};
use crate::error::ClientError;
use crate::json::{lemma_lookup_at, views, FromJson, Json};
use crate::transaction::{arg_bytes, is_identifier, EntryFunction, TransactionPayload};
use crate::transport::{Expect, Method, Reply, Request};
use crate::types::{LocalAccount, U64};

verus! {


/// The last byte of the address under which the token modules are published.
pub const TOKEN_ADDRESS: u8 = 3;

/// The denominator of a token's royalty: the royalty is so many parts of a
/// million.
pub const ROYALTY_POINTS_DENOMINATOR: u64 = 1_000_000;

/// The bytes of the address under which the token modules are published.
pub open spec fn token_address() -> Seq<u8> {
    Seq::new(
        32,
        |i: int|
            if i == 31 {
                TOKEN_ADDRESS
            } else {
                0u8
            },
    )
}

/// The handle that a reply brings in a resource of the kind `T`: the data of
/// the resource, or the reply's failure.
pub open spec fn handle_of<T: FromJson<V = Seq<char>>>(reply: Reply) -> Result<
    Seq<char>,
    ClientError,
> {
    match reply.record::<AccountResource<T>>() {
        Ok(resource) => Ok(resource.data),
        Err(e) => Err(e),
    }
}

/// Whether `json` is the key of a token's data in a table: an object with
/// the creator's address in its short form, the collection and the name.
pub open spec fn is_token_data_id_key(
    json: Json,
    creator: Seq<u8>,
    collection: Seq<char>,
    name: Seq<char>,
) -> bool {
    &&& json matches Json::Object(members)
    &&& members@.len() == 3
    &&& members@[0].0@ == "creator"@
    &&& members@[0].1.text() == Some(short_text(creator))
    &&& members@[1].0@ == "collection"@
    &&& members@[1].1.text() == Some(collection)
    &&& members@[2].0@ == "name"@
    &&& members@[2].1.text() == Some(name)
}

/// Whether `json` is the key of a token in a table: an object with the key
/// of the token's data and the version of its properties, as a string.
pub open spec fn is_token_id_key(
    json: Json,
    creator: Seq<u8>,
    collection: Seq<char>,
    name: Seq<char>,
    property_version: u64,
) -> bool {
    &&& json matches Json::Object(members)
    &&& members@.len() == 2
    &&& members@[0].0@ == "token_data_id"@
    &&& is_token_data_id_key(members@[0].1, creator, collection, name)
    &&& members@[1].0@ == "property_version"@
    &&& members@[1].1.text() == Some(decimal_text(property_version as nat))
}

/// The key that the client writes for a token's data reads back as what
/// names that data: the same creator, collection and name.
pub proof fn lemma_token_data_id_key_reads_back(
    json: Json,
    creator: Seq<u8>,
    collection: Seq<char>,
    name: Seq<char>,
)
    requires
        creator.len() == 32,
        is_token_data_id_key(json, creator, collection, name),
    ensures
        TokenDataId::parsed(json) == Some(TokenDataIdView { creator, collection, name }),
{
    reveal_strlit("creator");
    reveal_strlit("collection");
    reveal_strlit("name");
    assert("creator"@.len() == 7 && "collection"@.len() == 10 && "name"@.len() == 4);
    lemma_address_round_trip(creator);
    let members = json->Object_0@;
    lemma_lookup_at(members, "creator"@, 0);
    lemma_lookup_at(members, "collection"@, 1);
    lemma_lookup_at(members, "name"@, 2);
    assert(json.text_member("creator"@) == Some(short_text(creator)));
    assert(json.text_member("collection"@) == Some(collection));
    assert(json.text_member("name"@) == Some(name));
}

/// The key that the client writes for a token reads back as what names that
/// token: the same data and the same version of its properties.
pub proof fn lemma_token_id_key_reads_back(
    json: Json,
    creator: Seq<u8>,
    collection: Seq<char>,
    name: Seq<char>,
    property_version: u64,
)
    requires
        creator.len() == 32,
        is_token_id_key(json, creator, collection, name, property_version),
    ensures
        TokenId::parsed(json) == Some(
            TokenIdView {
                property_version,
                token_data_id: TokenDataIdView { creator, collection, name },
            },
        ),
{
    reveal_strlit("token_data_id");
    reveal_strlit("property_version");
    assert("token_data_id"@.len() == 13 && "property_version"@.len() == 16);
    let members = json->Object_0@;
    lemma_token_data_id_key_reads_back(members[0].1, creator, collection, name);
    lemma_parse_decimal_text(property_version);
    lemma_lookup_at(members, "token_data_id"@, 0);
    lemma_lookup_at(members, "property_version"@, 1);
    assert(json.u64_member("property_version"@) == Some(property_version));
    assert(json.record_member::<TokenDataId>("token_data_id"@) == Some(
        TokenDataIdView { creator, collection, name },
    ));
}

/// Whether `request` asks the table `handle` for the item under its key, of
/// the given types.
pub open spec fn is_table_lookup(
    request: Request,
    client: Client,
    handle: Seq<char>,
    key_type: Seq<char>,
    value_type: Seq<char>,
) -> bool {
    &&& request.method == Method::Post
    &&& request.url@ == client.base() + "/tables/"@ + handle + "/item"@
    &&& request.expect == Expect::Json
    &&& is_table_query(request.body, key_type, value_type, queried_key(request.body))
}

/// The names of the token modules and of their functions can name a module
/// and a function.
proof fn lemma_token_names()
    ensures
        is_identifier("token"@),
        is_identifier("token_transfers"@),
        is_identifier("create_collection_script"@),
        is_identifier("create_token_script"@),
        is_identifier("offer_script"@),
        is_identifier("claim_script"@),
{
    reveal_strlit("token");
    reveal_strlit("token_transfers");
    reveal_strlit("create_collection_script");
    reveal_strlit("create_token_script");
    reveal_strlit("offer_script");
    reveal_strlit("claim_script");
}

/// The key of a token's data in a table.
fn token_data_id_key(creator: &Address, collection_name: &str, token_name: &str) -> (json: Json)
    ensures
        is_token_data_id_key(json, creator@, collection_name@, token_name@),
{
    let mut members: Vec<(String, Json)> = Vec::new();
    members.push((String::from_str("creator"), Json::Text(creator.to_hex_literal())));
    members.push((String::from_str("collection"), Json::Text(String::from_str(collection_name))));
    members.push((String::from_str("name"), Json::Text(String::from_str(token_name))));
    Json::Object(members)
}

/// The client of the token modules of one node.
#[derive(Debug)]
pub struct TokenClient {
    pub client: Client,
}

impl TokenClient {
    /// A client of the token modules of the node that `client` speaks to.
    pub fn new(client: Client) -> (tokens: TokenClient)
        ensures
            tokens.client == client,
    {
        TokenClient { client }
    }

    /// The call of `function` in the token module `module` with the encoded
    /// arguments `args`.
    fn call(module: &str, function: &str, args: Vec<Vec<u8>>) -> (payload: TransactionPayload)
        requires
            is_identifier(module@),
            is_identifier(function@),
        ensures
            payload.is_call(token_address(), module@, function@, arg_bytes(args@)),
    {
        let address = Address::from_low_byte(TOKEN_ADDRESS);
        assert(address@ =~= token_address());
        TransactionPayload::EntryFunction(EntryFunction::with_names(address, module, function, args))
    }

    /// The payload that creates a collection called `name` under the
    /// sender's account: a call of `0x3::token::create_collection_script`
    /// with the name, the description, the address of the collection's page,
    /// no bound on the number of its tokens, and no leave to change any of
    /// the three later.
    ///
    /// Fails with `EncodingError` exactly where one of the three texts is
    /// too long to be encoded.
    pub fn create_collection(&self, name: &str, description: &str, uri: &str) -> (r: Result<
        TransactionPayload,
        ClientError,
    >)
        ensures
            match r {
                Ok(payload) => {
                    &&& str_encodable(name@) && str_encodable(description@) && str_encodable(uri@)
                    &&& payload.is_call(
                        token_address(),
                        "token"@,
                        "create_collection_script"@,
                        seq![
                            str_encoding(name@),
                            str_encoding(description@),
                            str_encoding(uri@),
                            u64_encoding(u64::MAX),
                            bools_encoding(seq![false, false, false]),
                        ],
                    )
                },
                Err(e) => e == ClientError::EncodingError && !(str_encodable(name@)
                    && str_encodable(description@) && str_encodable(uri@)),
            },
    {
        let mut flags: Vec<bool> = Vec::new();
        flags.push(false);
        flags.push(false);
        flags.push(false);
        assert(flags@ =~= seq![false, false, false]);
        let mut args: Vec<Vec<u8>> = Vec::new();
        args.push(encode_str(name)?);
        args.push(encode_str(description)?);
        args.push(encode_str(uri)?);
        args.push(encode_u64(u64::MAX));
        args.push(encode_bools(&flags)?);
        proof {
            lemma_token_names();
            assert(arg_bytes(args@) =~= seq![
                str_encoding(name@),
                str_encoding(description@),
                str_encoding(uri@),
                u64_encoding(u64::MAX),
                bools_encoding(seq![false, false, false]),
            ]);
        }
        Ok(TokenClient::call("token", "create_collection_script", args))
    }

    /// The payload that creates the token `name` in the sender's collection
    /// `collection_name`: a call of `0x3::token::create_token_script`.
    ///
    /// Its arguments are, in this order: the collection; the name; the
    /// description; the supply, as the balance; the supply again, as the
    /// maximum; the address of the token's page; the sender's address, as
    /// the one who is paid royalties; the denominator of the royalty, a
    /// million; its numerator, `royalty_points_per_million`; no leave to
    /// change any of five things later; and the keys, the values and the
    /// types of the token's properties.
    ///
    /// Fails with `EncodingError` exactly where one of the texts or lists is
    /// too long to be encoded.
    pub fn create_token(
        &self,
        account: &LocalAccount,
        collection_name: &str,
        name: &str,
        description: &str,
        supply: u64,
        uri: &str,
        royalty_points_per_million: u64,
        property_keys: Vec<&str>,
        property_values: Vec<&str>,
        property_types: Vec<&str>,
    ) -> (r: Result<TransactionPayload, ClientError>)
        ensures
            match r {
                Ok(payload) => {
                    &&& create_token_encodable(
                        collection_name@,
                        name@,
                        description@,
                        uri@,
                        texts_of(property_keys@),
                        texts_of(property_values@),
                        texts_of(property_types@),
                    )
                    &&& payload.is_call(
                        token_address(),
                        "token"@,
                        "create_token_script"@,
                        seq![
                            str_encoding(collection_name@),
                            str_encoding(name@),
                            str_encoding(description@),
                            u64_encoding(supply),
                            u64_encoding(supply),
                            str_encoding(uri@),
                            account.addr()@,
                            u64_encoding(ROYALTY_POINTS_DENOMINATOR),
                            u64_encoding(royalty_points_per_million),
                            bools_encoding(seq![false, false, false, false, false]),
                            strs_encoding(texts_of(property_keys@)),
                            strs_encoding(texts_of(property_values@)),
                            strs_encoding(texts_of(property_types@)),
                        ],
                    )
                },
                Err(e) => e == ClientError::EncodingError && !create_token_encodable(
                    collection_name@,
                    name@,
                    description@,
                    uri@,
                    texts_of(property_keys@),
                    texts_of(property_values@),
                    texts_of(property_types@),
                ),
            },
    {
        let mut flags: Vec<bool> = Vec::new();
        flags.push(false);
        flags.push(false);
        flags.push(false);
        flags.push(false);
        flags.push(false);
        assert(flags@ =~= seq![false, false, false, false, false]);
        let mut args: Vec<Vec<u8>> = Vec::new();
        args.push(encode_str(collection_name)?);
        args.push(encode_str(name)?);
        args.push(encode_str(description)?);
        args.push(encode_u64(supply));
        args.push(encode_u64(supply));
        args.push(encode_str(uri)?);
        args.push(encode_address(&account.address()));
        args.push(encode_u64(ROYALTY_POINTS_DENOMINATOR));
        args.push(encode_u64(royalty_points_per_million));
        args.push(encode_bools(&flags)?);
        args.push(encode_strs(&property_keys)?);
        args.push(encode_strs(&property_values)?);
        args.push(encode_strs(&property_types)?);
        proof {
            lemma_token_names();
            assert(arg_bytes(args@) =~= seq![
                str_encoding(collection_name@),
                str_encoding(name@),
                str_encoding(description@),
                u64_encoding(supply),
                u64_encoding(supply),
                str_encoding(uri@),
                account.addr()@,
                u64_encoding(ROYALTY_POINTS_DENOMINATOR),
                u64_encoding(royalty_points_per_million),
                bools_encoding(seq![false, false, false, false, false]),
                strs_encoding(texts_of(property_keys@)),
                strs_encoding(texts_of(property_values@)),
                strs_encoding(texts_of(property_types@)),
            ]);
        }
        Ok(TokenClient::call("token", "create_token_script", args))
    }

    /// The payload by which the sender offers `amount` tokens to
    /// `receiver`: a call of `0x3::token_transfers::offer_script` with the
    /// receiver and the creator, each as the string of its short text, the
    /// collection, the token, the version of its properties and the amount.
    ///
    /// Fails with `EncodingError` exactly where the collection's or the
    /// token's name is too long to be encoded.
    pub fn offer_token(
        &self,
        receiver: &Address,
        creator: &Address,
        collection_name: &str,
        token_name: &str,
        property_version: u64,
        amount: u64,
    ) -> (r: Result<TransactionPayload, ClientError>)
        ensures
            match r {
                Ok(payload) => {
                    &&& str_encodable(collection_name@) && str_encodable(token_name@)
                    &&& payload.is_call(
                        token_address(),
                        "token_transfers"@,
                        "offer_script"@,
                        seq![
                            str_encoding(short_text(receiver@)),
                            str_encoding(short_text(creator@)),
                            str_encoding(collection_name@),
                            str_encoding(token_name@),
                            u64_encoding(property_version),
                            u64_encoding(amount),
                        ],
                    )
                },
                Err(e) => e == ClientError::EncodingError && !(str_encodable(collection_name@)
                    && str_encodable(token_name@)),
            },
    {
        proof {
            lemma_short_text_is_short(receiver@);
            lemma_short_text_is_short(creator@);
            lemma_ascii_encodable(short_text(receiver@));
            lemma_ascii_encodable(short_text(creator@));
        }
        let mut args: Vec<Vec<u8>> = Vec::new();
        args.push(encode_str(receiver.to_hex_literal().as_str())?);
        args.push(encode_str(creator.to_hex_literal().as_str())?);
        args.push(encode_str(collection_name)?);
        args.push(encode_str(token_name)?);
        args.push(encode_u64(property_version));
        args.push(encode_u64(amount));
        proof {
            lemma_token_names();
            assert(arg_bytes(args@) =~= seq![
                str_encoding(short_text(receiver@)),
                str_encoding(short_text(creator@)),
                str_encoding(collection_name@),
                str_encoding(token_name@),
                u64_encoding(property_version),
                u64_encoding(amount),
            ]);
        }
        Ok(TokenClient::call("token_transfers", "offer_script", args))
    }

    /// The payload by which the sender claims the tokens that `sender`
    /// offered: a call of `0x3::token_transfers::claim_script` with the one
    /// who offered and the creator, each as the string of its short text, the
    /// collection, the token and the version of its properties.
    ///
    /// Fails with `EncodingError` exactly where the collection's or the
    /// token's name is too long to be encoded.
    pub fn claim_token(
        &self,
        sender: &Address,
        creator: &Address,
        collection_name: &str,
        token_name: &str,
        property_version: u64,
    ) -> (r: Result<TransactionPayload, ClientError>)
        ensures
            match r {
                Ok(payload) => {
                    &&& str_encodable(collection_name@) && str_encodable(token_name@)
                    &&& payload.is_call(
                        token_address(),
                        "token_transfers"@,
                        "claim_script"@,
                        seq![
                            str_encoding(short_text(sender@)),
                            str_encoding(short_text(creator@)),
                            str_encoding(collection_name@),
                            str_encoding(token_name@),
                            u64_encoding(property_version),
                        ],
                    )
                },
                Err(e) => e == ClientError::EncodingError && !(str_encodable(collection_name@)
                    && str_encodable(token_name@)),
            },
    {
        proof {
            lemma_short_text_is_short(sender@);
            lemma_short_text_is_short(creator@);
            lemma_ascii_encodable(short_text(sender@));
            lemma_ascii_encodable(short_text(creator@));
        }
        let mut args: Vec<Vec<u8>> = Vec::new();
        args.push(encode_str(sender.to_hex_literal().as_str())?);
        args.push(encode_str(creator.to_hex_literal().as_str())?);
        args.push(encode_str(collection_name)?);
        args.push(encode_str(token_name)?);
        args.push(encode_u64(property_version));
        proof {
            lemma_token_names();
            assert(arg_bytes(args@) =~= seq![
                str_encoding(short_text(sender@)),
                str_encoding(short_text(creator@)),
                str_encoding(collection_name@),
                str_encoding(token_name@),
                u64_encoding(property_version),
            ]);
        }
        Ok(TokenClient::call("token_transfers", "claim_script", args))
    }

    /// The request for the resource that names the tables of an account's
    /// collections and of the tokens that it created: a `GET` of the
    /// account's resource `0x3::token::Collections`.
    pub fn collections_request(&self, account_address: &Address) -> (request: Request)
        ensures
            is_get(
                request,
                self.client.base() + "/accounts/"@ + standard_text(account_address@)
                    + "/resource/"@ + "0x3::token::Collections"@,
            ),
    {
        self.client.account_resource_request(account_address, "0x3::token::Collections")
    }

    /// The request for the resource that names the table of the tokens that
    /// an account holds: a `GET` of the account's resource
    /// `0x3::token::TokenStore`.
    pub fn token_store_request(&self, account_address: &Address) -> (request: Request)
        ensures
            is_get(
                request,
                self.client.base() + "/accounts/"@ + standard_text(account_address@)
                    + "/resource/"@ + "0x3::token::TokenStore"@,
            ),
    {
        self.client.account_resource_request(account_address, "0x3::token::TokenStore")
    }

    /// Reads the handle of the table of an account's collections from the
    /// reply to `collections_request`.
    pub fn account_resource_collection_data_handle(&self, reply: &Reply) -> (r: Result<
        String,
        ClientError,
    >)
        ensures
            match r {
                Ok(handle) => handle_of::<ResourceCollectionData>(*reply) == Ok::<
                    Seq<char>,
                    ClientError,
                >(handle@),
                Err(e) => handle_of::<ResourceCollectionData>(*reply) == Err::<
                    Seq<char>,
                    ClientError,
                >(e),
            },
    {
        match self.client.account_resource::<ResourceCollectionData>(reply) {
            Ok(resource) => Ok(resource.data.collection_data.handle),
            Err(e) => Err(e),
        }
    }

    /// Reads the handle of the table of the tokens that an account created
    /// from the reply to `collections_request`.
    pub fn account_resource_token_data_handle(&self, reply: &Reply) -> (r: Result<
        String,
        ClientError,
    >)
        ensures
            match r {
                Ok(handle) => handle_of::<ResourceTokenData>(*reply) == Ok::<
                    Seq<char>,
                    ClientError,
                >(handle@),
                Err(e) => handle_of::<ResourceTokenData>(*reply) == Err::<Seq<char>, ClientError>(
                    e,
                ),
            },
    {
        match self.client.account_resource::<ResourceTokenData>(reply) {
            Ok(resource) => Ok(resource.data.token_data.handle),
            Err(e) => Err(e),
        }
    }

    /// Reads the handle of the table of the tokens that an account holds
    /// from the reply to `token_store_request`.
    pub fn account_resource_tokens_handle(&self, reply: &Reply) -> (r: Result<String, ClientError>)
        ensures
            match r {
                Ok(handle) => handle_of::<ResourceTokens>(*reply) == Ok::<Seq<char>, ClientError>(
                    handle@,
                ),
                Err(e) => handle_of::<ResourceTokens>(*reply) == Err::<Seq<char>, ClientError>(e),
            },
    {
        match self.client.account_resource::<ResourceTokens>(reply) {
            Ok(resource) => Ok(resource.data.tokens.handle),
            Err(e) => Err(e),
        }
    }

    /// The request for a collection's record: a lookup in the table
    /// `handle`, under the collection's name as a string.
    ///
    /// `handle` is what `account_resource_collection_data_handle` read for
    /// the account that owns the collection.
    pub fn collection_data_request(&self, handle: &str, collection_name: &str) -> (request:
        Request)
        ensures
            is_table_lookup(
                request,
                self.client,
                handle@,
                "0x1::string::String"@,
                "0x3::token::CollectionData"@,
            ),
            queried_key(request.body).text() == Some(collection_name@),
    {
        self.client.table_item_request(
            handle,
            "0x1::string::String",
            "0x3::token::CollectionData",
            Json::Text(String::from_str(collection_name)),
        )
    }

    /// Reads a collection's record from the reply to
    /// `collection_data_request`.
    pub fn collection_data(&self, reply: &Reply) -> (r: Result<CollectionData, ClientError>)
        ensures
            match r {
                Ok(record) => reply.record::<CollectionData>() == Ok::<
                    CollectionDataView,
                    ClientError,
                >(record@),
                Err(e) => reply.record::<CollectionData>() == Err::<
                    CollectionDataView,
                    ClientError,
                >(e),
            },
    {
        self.client.table_item::<CollectionData>(reply)
    }

    /// The request for an account's holding of one token: a lookup in the
    /// table `handle`, under the token's full name.
    ///
    /// `handle` is what `account_resource_tokens_handle` read for the
    /// account that holds the token.
    pub fn token_request(
        &self,
        handle: &str,
        creator: &Address,
        collection_name: &str,
        token_name: &str,
        property_version: u64,
    ) -> (request: Request)
        ensures
            is_table_lookup(
                request,
                self.client,
                handle@,
                "0x3::token::TokenId"@,
                "0x3::token::Token"@,
            ),
            is_token_id_key(
                queried_key(request.body),
                creator@,
                collection_name@,
                token_name@,
                property_version,
            ),
    {
        let mut members: Vec<(String, Json)> = Vec::new();
        members.push(
            (
                String::from_str("token_data_id"),
                token_data_id_key(creator, collection_name, token_name),
            ),
        );
        members.push((String::from_str("property_version"), U64(property_version).to_json()));
        self.client.table_item_request(
            handle,
            "0x3::token::TokenId",
            "0x3::token::Token",
            Json::Object(members),
        )
    }

    /// Reads an account's holding from the reply to `token_request`.
    pub fn token(&self, reply: &Reply) -> (r: Result<Token, ClientError>)
        ensures
            match r {
                Ok(record) => reply.record::<Token>() == Ok::<TokenView, ClientError>(record@),
                Err(e) => reply.record::<Token>() == Err::<TokenView, ClientError>(e),
            },
    {
        self.client.table_item::<Token>(reply)
    }

    /// Reads how many tokens an account holds from the reply to
    /// `token_request`.
    pub fn token_balance(&self, reply: &Reply) -> (r: Result<u64, ClientError>)
        ensures
            match r {
                Ok(amount) => reply.record::<Token>() is Ok && reply.record::<Token>()->Ok_0.amount
                    == amount,
                Err(e) => reply.record::<Token>() == Err::<TokenView, ClientError>(e),
            },
    {
        match self.token(reply) {
            Ok(record) => Ok(record.amount.0),
            Err(e) => Err(e),
        }
    }

    /// The request for a token's record: a lookup in the table `handle`,
    /// under the name of the token's data.
    ///
    /// `handle` is what `account_resource_token_data_handle` read for the
    /// token's creator.
    pub fn token_data_request(
        &self,
        handle: &str,
        creator: &Address,
        collection_name: &str,
        token_name: &str,
    ) -> (request: Request)
        ensures
            is_table_lookup(
                request,
                self.client,
                handle@,
                "0x3::token::TokenDataId"@,
                "0x3::token::TokenData"@,
            ),
            is_token_data_id_key(
                queried_key(request.body),
                creator@,
                collection_name@,
                token_name@,
            ),
    {
        self.client.table_item_request(
            handle,
            "0x3::token::TokenDataId",
            "0x3::token::TokenData",
            token_data_id_key(creator, collection_name, token_name),
        )
    }

    /// Reads a token's record from the reply to `token_data_request`.
    pub fn token_data(&self, reply: &Reply) -> (r: Result<TokenData, ClientError>)
        ensures
            match r {
                Ok(record) => reply.record::<TokenData>() == Ok::<TokenDataView, ClientError>(
                    record@,
                ),
                Err(e) => reply.record::<TokenData>() == Err::<TokenDataView, ClientError>(e),
            },
    {
        self.client.table_item::<TokenData>(reply)
    }

    /// The request for the tokens that came into an account: a `GET` of the
    /// events of `deposit_events` in the account's `0x3::token::TokenStore`.
    pub fn list_account_token_data_request(&self, account_address: &Address) -> (request: Request)
        ensures
            is_get(
                request,
                self.client.base() + "/accounts/"@ + short_text(account_address@) + "/events/"@
                    + "0x3::token::TokenStore"@ + "/"@ + "deposit_events"@,
            ),
    {
        self.client.events_by_event_handle_request(
            account_address,
            "0x3::token::TokenStore",
            "deposit_events",
        )
    }

    /// Reads which tokens came into an account from the reply to
    /// `list_account_token_data_request`: what names the data of each, in the
    /// order of the events. The record of each is then looked up with
    /// `token_data_request`, in the table of its creator.
    pub fn list_account_token_data(&self, reply: &Reply) -> (r: Result<
        Vec<TokenDataId>,
        ClientError,
    >)
        ensures
            match r {
                Ok(ids) => events_of::<EventData>(*reply) is Ok && views(ids@) == deposited(
                    events_of::<EventData>(*reply)->Ok_0,
                ),
                Err(e) => events_of::<EventData>(*reply) == Err::<
                    Seq<EventView<EventDataView>>,
                    ClientError,
                >(e),
            },
    {
        let events = match self.client.events_by_event_handle::<EventData>(reply) {
            Ok(events) => events,
            Err(e) => {
                return Err(e);
            },
        };
        let ghost all = views(events@);
        let mut events = events;
        let mut ids: Vec<TokenDataId> = Vec::new();
        let n = events.len();
        while events.len() > 0
            invariant
                events.len() <= n,
                n == all.len(),
                views(ids@).len() == n - events.len(),
                views(events@) == all.take(events.len() as int),
                forall|i: int|
                    0 <= i < ids.len() ==> #[trigger] views(ids@)[i] == all[n - 1 - i].data.id,
            decreases events.len(),
        {
            let ghost before = events@;
            let event = events.pop().unwrap();
            proof {
                assert(views(before)[before.len() - 1] == event@);
                assert(views(events@) =~= all.take(events.len() as int));
                assert(views(ids@.push(event.data.id.token_data_id)) =~= views(ids@).push(
                    event.data.id.token_data_id@,
                ));
            }
            ids.push(event.data.id.token_data_id);
        }
        let ghost backwards = ids@;
        let ordered = reversed(ids);
        proof {
            assert(views(backwards).len() == n);
            assert forall|k: int| 0 <= k < n implies views(ordered@)[k] == deposited(all)[k] by {
                assert(ordered@[k] == backwards[n - 1 - k]);
                assert(views(backwards)[n - 1 - k] == all[k].data.id);
            }
            assert(views(ordered@) =~= deposited(all));
        }
        Ok(ordered)
    }
}

/// Whether the texts and lists that make a token can all be encoded.
pub open spec fn create_token_encodable(
    collection_name: Seq<char>,
    name: Seq<char>,
    description: Seq<char>,
    uri: Seq<char>,
    property_keys: Seq<Seq<char>>,
    property_values: Seq<Seq<char>>,
    property_types: Seq<Seq<char>>,
) -> bool {
    &&& str_encodable(collection_name)
    &&& str_encodable(name)
    &&& str_encodable(description)
    &&& str_encodable(uri)
    &&& strs_encodable(property_keys)
    &&& strs_encodable(property_values)
    &&& strs_encodable(property_types)
}

/// What names the data of the token of each of the events `events`.
pub open spec fn deposited(events: Seq<EventView<EventDataView>>) -> Seq<TokenDataIdView> {
    events.map_values(|event: EventView<EventDataView>| event.data.id)
}

/// The list `ids` the other way round.
fn reversed(ids: Vec<TokenDataId>) -> (out: Vec<TokenDataId>)
    ensures
        out@ == ids@.reverse(),
{
    let ghost all = ids@;
    let mut ids = ids;
    let mut out: Vec<TokenDataId> = Vec::new();
    while ids.len() > 0
        invariant
            ids.len() + out.len() == all.len(),
            ids@ == all.take(ids.len() as int),
            forall|k: int| 0 <= k < out.len() ==> out@[k] == all[all.len() - 1 - k],
        decreases ids.len(),
    {
        let id = ids.pop().unwrap();
        out.push(id);
        assert(ids@ =~= all.take(ids.len() as int));
    }
    assert(out@ =~= all.reverse());
    out
}

} // verus!

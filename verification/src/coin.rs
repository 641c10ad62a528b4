//! The coins that an account holds.

use vstd::prelude::*;
use crate::address::{standard_text, Address};
use crate::client::{is_get, AccountResource, Client};
use crate::error::ClientError;
use crate::json::{FromJson, Json};
use crate::transport::{Reply, Request};
use crate::types::U64;

verus! {

/// A number of coins.
#[derive(Debug, Clone, Copy, PartialEq, Eq, Structural)]
pub struct AptosCoin {
    pub value: U64,
}

impl View for AptosCoin {
    type V = u64;

    open spec fn view(&self) -> u64 {
        self.value.0
    }
}

impl FromJson for AptosCoin {
    /// An object with the string-carried number `value`.
    open spec fn parsed(json: Json) -> Option<u64> {
        json.u64_member("value"@)
    }

    fn from_json(json: &Json) -> (r: Option<Self>) {
        match json.get_u64("value") {
            Some(value) => Some(AptosCoin { value: U64(value) }),
            None => None,
        }
    }
}

/// The store of an account's coins.
#[derive(Debug, Clone, Copy, PartialEq, Eq, Structural)]
pub struct Balance {
    pub coin: AptosCoin,
}

impl View for Balance {
    type V = u64;

    open spec fn view(&self) -> u64 {
        self.coin@
    }
}

impl FromJson for Balance {
    /// An object with a member `coin` that holds a number of coins.
    open spec fn parsed(json: Json) -> Option<u64> {
        json.record_member::<AptosCoin>("coin"@)
    }

    fn from_json(json: &Json) -> (r: Option<Self>) {
        match json.get_record::<AptosCoin>("coin") {
            Some(coin) => Some(Balance { coin }),
            None => None,
        }
    }
}

/// The balance that a reply brings: the number of coins in the store that
/// its resource holds, or the reply's failure.
pub open spec fn balance_of(reply: Reply) -> Result<u64, ClientError> {
    match reply.record::<AccountResource<Balance>>() {
        Ok(resource) => Ok(resource.data),
        Err(e) => Err(e),
    }
}

/// The client of the coin module of one node.
#[derive(Debug)]
pub struct CoinClient {
    pub client: Client,
}

impl CoinClient {
    /// A client of the coin module of the node that `client` speaks to.
    pub fn new(client: Client) -> (coins: CoinClient)
        ensures
            coins.client == client,
    {
        CoinClient { client }
    }

    /// The request for an account's balance: a `GET` of the account's store
    /// of the network's own coin.
    pub fn account_balance_request(&self, account_address: &Address) -> (request: Request)
        ensures
            is_get(
                request,
                self.client.base() + "/accounts/"@ + standard_text(account_address@)
                    + "/resource/"@ + "0x1::coin::CoinStore<0x1::aptos_coin::AptosCoin>"@,
            ),
    {
        self.client.account_resource_request(
            account_address,
            "0x1::coin::CoinStore<0x1::aptos_coin::AptosCoin>",
        )
    }

    /// Reads an account's balance from the reply to
    /// `account_balance_request`.
    pub fn account_balance(&self, reply: &Reply) -> (r: Result<u64, ClientError>)
        ensures
            r == balance_of(*reply),
    {
        match self.client.account_resource::<Balance>(reply) {
            Ok(resource) => Ok(resource.data.coin.value.0),
            Err(e) => Err(e),
        }
    }
}

} // verus!

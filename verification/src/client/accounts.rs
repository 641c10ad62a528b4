//! Accounts and the resources stored under them.

use vstd::prelude::*;
use vstd::string::*;
use crate::address::{standard_text, Address};
use crate::error::ClientError;
use crate::json::{FromJson, Json};
use crate::transport::{Reply, Request};
use crate::types::U64;
use super::{is_get, Client};

verus! {

/// What the node tells of an account.
#[derive(Debug, Clone, Copy, PartialEq, Eq, Structural)]
pub struct Account {
    /// The sequence number that the account's next transaction must carry.
    pub sequence_number: U64,
}

impl View for Account {
    type V = Account;

    open spec fn view(&self) -> Account {
        *self
    }
}

impl FromJson for Account {
    /// An object with a string-carried number `sequence_number`.
    open spec fn parsed(json: Json) -> Option<Account> {
        match json.u64_member("sequence_number"@) {
            Some(number) => Some(Account { sequence_number: U64(number) }),
            None => None,
        }
    }

    fn from_json(json: &Json) -> (r: Option<Self>) {
        match json.get_u64("sequence_number") {
            Some(number) => Some(Account { sequence_number: U64(number) }),
            None => None,
        }
    }
}

/// A resource stored under an account: its type and its data.
#[derive(Debug)]
pub struct AccountResource<T> {
    /// The resource's type, as the node names it.
    pub resource_type: String,
    /// The resource's data.
    pub data: T,
}

/// The view of a resource: its type's characters and the view of its data.
pub ghost struct AccountResourceView<V> {
    pub resource_type: Seq<char>,
    pub data: V,
}

impl<T: View> View for AccountResource<T> {
    type V = AccountResourceView<T::V>;

    open spec fn view(&self) -> AccountResourceView<T::V> {
        AccountResourceView { resource_type: self.resource_type@, data: self.data@ }
    }
}

impl<T: FromJson> FromJson for AccountResource<T> {
    /// An object with a string `type` and a member `data` that holds a `T`.
    open spec fn parsed(json: Json) -> Option<AccountResourceView<T::V>> {
        match (json.text_member("type"@), json.member("data"@)) {
            (Some(resource_type), Some(data)) => match T::parsed(data) {
                Some(data) => Some(AccountResourceView { resource_type, data }),
                None => None,
            },
            _ => None,
        }
    }

    fn from_json(json: &Json) -> (r: Option<Self>) {
        let resource_type = match json.get_string("type") {
            Some(text) => text,
            None => {
                return None;
            },
        };
        match json.get("data") {
            Some(data) => match T::from_json(data) {
                Some(data) => Some(AccountResource { resource_type, data }),
                None => None,
            },
            None => None,
        }
    }
}

impl Client {
    /// The request for an account's record: a `GET` of
    /// `/accounts/{address}`.
    pub fn account_request(&self, account_address: &Address) -> (request: Request)
        ensures
            is_get(request, self.base() + "/accounts/"@ + standard_text(account_address@)),
    {
        let mut path = String::from_str("/accounts/");
        path.append(account_address.to_standard_string().as_str());
        let request = self.get(path);
        assert(request.url@ =~= self.base() + "/accounts/"@ + standard_text(account_address@));
        request
    }

    /// Reads an account's record from the reply to `account_request`.
    ///
    /// Fails with `NotFound` where the node knows no such account, with
    /// `DecodeError` where the reply has not the record's shape, and with
    /// `TransportError` where the node could not be asked.
    pub fn account(&self, reply: &Reply) -> (r: Result<Account, ClientError>)
        ensures
            r == reply.record::<Account>(),
    {
        reply.read::<Account>()
    }

    /// The request for one resource of an account: a `GET` of
    /// `/accounts/{address}/resource/{resource_type}`.
    pub fn account_resource_request(&self, account_address: &Address, resource_type: &str) -> (request:
        Request)
        ensures
            is_get(
                request,
                self.base() + "/accounts/"@ + standard_text(account_address@) + "/resource/"@
                    + resource_type@,
            ),
    {
        let mut path = String::from_str("/accounts/");
        path.append(account_address.to_standard_string().as_str());
        path.append("/resource/");
        path.append(resource_type);
        let request = self.get(path);
        assert(request.url@ =~= self.base() + "/accounts/"@ + standard_text(account_address@)
            + "/resource/"@ + resource_type@);
        request
    }

    /// Reads a resource from the reply to `account_resource_request`, its data
    /// as a `T`.
    pub fn account_resource<T: FromJson>(&self, reply: &Reply) -> (r: Result<
        AccountResource<T>,
        ClientError,
    >)
        ensures
            match r {
                Ok(resource) => reply.record::<AccountResource<T>>() == Ok::<
                    AccountResourceView<T::V>,
                    ClientError,
                >(resource@),
                Err(e) => reply.record::<AccountResource<T>>() == Err::<
                    AccountResourceView<T::V>,
                    ClientError,
                >(e),
            },
    {
        reply.read::<AccountResource<T>>()
    }
}

} // verus!

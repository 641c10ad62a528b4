//! The client of one node.
//!
//! A client knows the node's base address and the chain id that the node
//! reported when the client was made. It builds the request of each
//! operation and reads its reply; sending is the caller's part.

mod accounts;
mod confirmation;
mod events;
mod general;
mod tables;
mod transactions;

pub use accounts::{Account, AccountResource, AccountResourceView};
pub use events::{events_of, Event, EventView};
pub use general::LedgerInfo;
pub use tables::{
    is_item, is_table_query, is_table_request, lemma_table_lookup_is_deterministic, queried_key,
};
pub use confirmation::{
    after, lemma_after_concat, lemma_attempts_bounded, lemma_confirmed_at_first_commit,
    lemma_done_stays, lemma_exhausted_without_commit, lemma_failures_are_absorbed,
    lemma_polling_attempts,
    lemma_polling_without_commit, lemma_wait_ends, observed, status_of, Confirmation, Step,
    TransactionStatus, WaitState, DEFAULT_MAX_ATTEMPTS, DEFAULT_POLL_INTERVAL_SECS,
};
pub use transactions::{
    is_submission, lemma_chain_id_is_the_clients, SubmitTransaction, Transaction,
    TransactionView, EXPIRATION_HORIZON_SECS, GAS_UNIT_PRICE, MAX_GAS_AMOUNT,
};

use vstd::prelude::*;
use vstd::string::*;
use crate::error::ClientError;
use crate::transport::{Body, Expect, Method, Reply, Request};
use crate::types::ChainId;

verus! {

/// Whether `request` is a plain `GET` of `url` that expects a JSON document.
pub open spec fn is_get(request: Request, url: Seq<char>) -> bool {
    &&& request.method == Method::Get
    &&& request.url@ == url
    &&& request.body is Empty
    &&& request.expect == Expect::Json
}

/// The client of one node.
#[derive(Debug, Clone)]
pub struct Client {
    base_url: String,
    chain_id: ChainId,
}

impl Client {
    /// The node's base address, as the client was given it.
    pub closed spec fn base(self) -> Seq<char> {
        self.base_url@
    }

    /// The chain id that the client was made with.
    pub closed spec fn chain(self) -> ChainId {
        self.chain_id
    }

    /// A client of the node at `base_url`, on the network with `chain_id`.
    pub fn new(base_url: &str, chain_id: ChainId) -> (client: Client)
        ensures
            client.base() == base_url@,
            client.chain() == chain_id,
    {
        Client { base_url: String::from_str(base_url), chain_id }
    }

    /// A client of the node at `base_url`, on the network that the node named
    /// in `reply`, its answer to the request for the ledger's state.
    ///
    /// The chain id is read here, once, and stays with the client.
    pub fn connect(base_url: &str, reply: &Reply) -> (r: Result<Client, ClientError>)
        ensures
            match r {
                Ok(client) => {
                    &&& reply.record::<LedgerInfo>() is Ok
                    &&& client.base() == base_url@
                    &&& client.chain() == reply.record::<LedgerInfo>()->Ok_0.chain_id
                },
                Err(e) => reply.record::<LedgerInfo>() == Err::<LedgerInfo, ClientError>(e),
            },
    {
        match reply.read::<LedgerInfo>() {
            Ok(info) => Ok(Client::new(base_url, info.chain_id)),
            Err(e) => Err(e),
        }
    }

    /// The node's base address.
    pub fn base_url(&self) -> (url: &str)
        ensures
            url@ == self.base(),
    {
        self.base_url.as_str()
    }

    /// The chain id that the client was made with.
    pub fn chain_id(&self) -> (id: ChainId)
        ensures
            id == self.chain(),
    {
        self.chain_id
    }

    /// A `GET` of the resource at `path` below the node's base address.
    pub(crate) fn get(&self, path: String) -> (request: Request)
        ensures
            is_get(request, self.base() + path@),
    {
        let mut url = self.base_url.clone();
        url.append(path.as_str());
        Request { method: Method::Get, url, body: Body::Empty, expect: Expect::Json }
    }
}

} // verus!

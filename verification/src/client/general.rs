//! The ledger's state.

use vstd::prelude::*;
use crate::error::ClientError;
use crate::json::{FromJson, Json};
use crate::transport::{Reply, Request};
use crate::types::{ChainId, U64};
use super::{is_get, Client};

verus! {

/// What the node tells of its ledger.
#[derive(Debug, Clone, Copy, PartialEq, Eq, Structural)]
pub struct LedgerInfo {
    /// The id of the chain that the node serves.
    pub chain_id: ChainId,
    /// The version that the ledger has reached.
    pub ledger_version: U64,
}

impl View for LedgerInfo {
    type V = LedgerInfo;

    open spec fn view(&self) -> LedgerInfo {
        *self
    }
}

impl FromJson for LedgerInfo {
    /// An object with a number `chain_id` and a string-carried number
    /// `ledger_version`.
    open spec fn parsed(json: Json) -> Option<LedgerInfo> {
        match json.member("chain_id"@) {
            Some(id) => match (ChainId::parsed(id), json.u64_member("ledger_version"@)) {
                (Some(chain_id), Some(version)) => Some(
                    LedgerInfo { chain_id: ChainId(chain_id), ledger_version: U64(version) },
                ),
                _ => None,
            },
            None => None,
        }
    }

    fn from_json(json: &Json) -> (r: Option<Self>) {
        let chain_id = match json.get("chain_id") {
            Some(id) => match ChainId::from_json(id) {
                Some(chain_id) => chain_id,
                None => {
                    return None;
                },
            },
            None => {
                return None;
            },
        };
        match json.get_u64("ledger_version") {
            Some(version) => Some(LedgerInfo { chain_id, ledger_version: U64(version) }),
            None => None,
        }
    }
}

impl Client {
    /// The request for the ledger's state at the node `base_url`: a `GET` of
    /// the base address itself. A client is made from its reply.
    pub fn ledger_info_request_at(base_url: &str) -> (request: Request)
        ensures
            is_get(request, base_url@),
    {
        Request {
            method: crate::transport::Method::Get,
            url: base_url.to_owned(),
            body: crate::transport::Body::Empty,
            expect: crate::transport::Expect::Json,
        }
    }

    /// The request for the ledger's state: a `GET` of the base address.
    pub fn ledger_info_request(&self) -> (request: Request)
        ensures
            is_get(request, self.base()),
    {
        Client::ledger_info_request_at(self.base_url())
    }

    /// Reads the ledger's state from the reply to `ledger_info_request`.
    pub fn ledger_info(&self, reply: &Reply) -> (r: Result<LedgerInfo, ClientError>)
        ensures
            r == reply.record::<LedgerInfo>(),
    {
        reply.read::<LedgerInfo>()
    }
}

} // verus!

//! Calls of the entry functions of the modules published under one address.

use vstd::prelude::*;
use crate::address::Address;
use crate::client::Client;
use crate::error::ClientError;
use crate::transaction::{is_identifier, EntryFunction, TransactionPayload};

verus! {

/// The client of the modules that one account has published.
#[derive(Debug)]
pub struct ModuleClient {
    address: Address,
    pub client: Client,
}

impl ModuleClient {
    /// The address under which the modules are published.
    pub closed spec fn publisher(self) -> Address {
        self.address
    }

    /// The client of the node on which the modules are published.
    pub closed spec fn node(self) -> Client {
        self.client
    }

    /// A client of the modules published under `address`, on the node that
    /// `client` speaks to.
    pub fn new(client: Client, address: Address) -> (modules: ModuleClient)
        ensures
            modules.node() == client,
            modules.publisher() == address,
    {
        ModuleClient { address, client }
    }

    /// The address under which the modules are published.
    pub fn address(&self) -> (address: Address)
        ensures
            address == self.publisher(),
    {
        self.address
    }

    /// The payload that calls the function `function` of the module `name`
    /// with the types `ty_args` and the encoded arguments `args`.
    ///
    /// Fails with `EncodingError` exactly where `name` or `function` cannot
    /// name a module or a function.
    pub fn entry_function(
        &self,
        name: &str,
        function: &str,
        ty_args: Vec<aptos_sdk::types::TypeTag>,
        args: Vec<Vec<u8>>,
    ) -> (r: Result<TransactionPayload, ClientError>)
        ensures
            match r {
                Ok(payload) => {
                    &&& is_identifier(name@) && is_identifier(function@)
                    &&& payload matches TransactionPayload::EntryFunction(call)
                    &&& call.module_address == self.publisher()
                    &&& call.module_name@ == name@
                    &&& call.function_name@ == function@
                    &&& call.type_args == ty_args
                    &&& call.args == args
                },
                Err(e) => e == ClientError::EncodingError && !(is_identifier(name@)
                    && is_identifier(function@)),
            },
    {
        match EntryFunction::new(self.address, name, function, ty_args, args) {
            Ok(call) => Ok(TransactionPayload::EntryFunction(call)),
            Err(e) => Err(e),
        }
    }
}

} // verus!

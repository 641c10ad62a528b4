//! Transactions before and after they are signed.
//!
//! The records here hold a transaction as plain values. Its binary form and
//! the message that is signed are the work of aptos-sdk; this module names
//! what it gives and leaves it uninterpreted.

use vstd::prelude::*;
use vstd::string::*;
use aptos_sdk::types::Identifier;
use crate::address::Address;
use crate::error::ClientError;
use crate::types::ChainId;
use crate::wire::{signed_bytes, signed_transaction_bytes, signing_message, signing_message_of};

verus! {

/// A type of the Move language, as aptos-sdk holds it. The client passes
/// such values on and never looks into them.
#[verifier::external_type_specification]
#[verifier::external_body]
pub struct ExTypeTag(aptos_sdk::types::TypeTag);

/// An error of aptos-sdk.
#[verifier::external_type_specification]
#[verifier::external_body]
pub struct ExAptosError(aptos_sdk::AptosError);

/// The longest name that a module or a function can have.
pub const MAX_IDENTIFIER_LENGTH: usize = 128;

/// Whether a name can start with `c`: with a letter of the Latin alphabet or
/// an underscore.
pub open spec fn is_identifier_start(c: char) -> bool {
    ('a' <= c <= 'z') || ('A' <= c <= 'Z') || c == '_'
}

/// Whether a name can hold `c`: a letter of the Latin alphabet, a decimal
/// digit or an underscore.
pub open spec fn is_identifier_char(c: char) -> bool {
    is_identifier_start(c) || ('0' <= c <= '9')
}

/// Whether `name` can name a module or a function: one to 128 characters, of
/// those that a name can hold, the first of those that it can start with.
pub open spec fn is_identifier(name: Seq<char>) -> bool {
    &&& 1 <= name.len() <= MAX_IDENTIFIER_LENGTH
    &&& is_identifier_start(name[0])
    &&& forall|i: int| 0 <= i < name.len() ==> is_identifier_char(#[trigger] name[i])
}

/// A call of an entry function of a module: the module's address and name,
/// the function's name, and the arguments, each already in its binary form.
#[derive(Debug, Clone)]
pub struct EntryFunction {
    /// The address under which the module is published.
    pub module_address: Address,
    /// The module's name.
    pub module_name: String,
    /// The function's name.
    pub function_name: String,
    /// The types that a generic function is called with.
    pub type_args: Vec<aptos_sdk::types::TypeTag>,
    /// The arguments, each encoded.
    pub args: Vec<Vec<u8>>,
}

/// What a transaction does.
#[derive(Debug, Clone)]
pub enum TransactionPayload {
    /// It calls an entry function.
    EntryFunction(EntryFunction),
}

/// A transaction that has not been signed.
#[derive(Debug, Clone)]
pub struct RawTransaction {
    /// The account that sends the transaction.
    pub sender: Address,
    /// The sender's sequence number at the time the transaction was built.
    pub sequence_number: u64,
    /// What the transaction does.
    pub payload: TransactionPayload,
    /// The most gas that the sender pays for.
    pub max_gas_amount: u64,
    /// The price that the sender pays for a unit of gas.
    pub gas_unit_price: u64,
    /// The time after which the transaction is void, in seconds since 1970.
    pub expiration_timestamp_secs: u64,
    /// The network that the transaction is meant for.
    pub chain_id: ChainId,
}

/// A transaction with its sender's signature.
#[derive(Debug, Clone)]
pub struct SignedTransaction {
    /// The transaction that was signed.
    pub raw_txn: RawTransaction,
    /// The signer's public key.
    pub public_key: [u8; 32],
    /// The signature over the transaction's signing message.
    pub signature: [u8; 64],
}

/// Whether aptos-sdk's `Identifier::new` takes `name`: it does where the name
/// has one to 128 bytes, all of them ASCII letters, digits or underscores,
/// and the first no digit.
#[verifier::external_body]
fn identifier_accepts(name: &str) -> (ok: bool)
    ensures
        ok == is_identifier(name@),
{
    Identifier::new(name).is_ok()
}

/// The bytes of each of the encoded arguments `args`.
pub open spec fn arg_bytes(args: Seq<Vec<u8>>) -> Seq<Seq<u8>> {
    args.map_values(|arg: Vec<u8>| arg@)
}

impl TransactionPayload {
    /// Whether this payload calls the function `function` of the module
    /// `module` at `address`, with no types and with the encoded arguments
    /// `args`.
    pub open spec fn is_call(
        self,
        address: Seq<u8>,
        module: Seq<char>,
        function: Seq<char>,
        args: Seq<Seq<u8>>,
    ) -> bool {
        &&& self matches TransactionPayload::EntryFunction(call)
        &&& call.module_address@ == address
        &&& call.module_name@ == module
        &&& call.function_name@ == function
        &&& call.type_args@.len() == 0
        &&& arg_bytes(call.args@) == args
    }
}

impl EntryFunction {
    /// Whether the names of this call can name a module and a function.
    pub open spec fn wf(self) -> bool {
        is_identifier(self.module_name@) && is_identifier(self.function_name@)
    }

    /// The call of the function `function` of the module `module` at
    /// `address`, with the given types and encoded arguments.
    ///
    /// Fails with `EncodingError` exactly where one of the two names cannot
    /// name a module or a function.
    pub fn new(
        address: Address,
        module: &str,
        function: &str,
        type_args: Vec<aptos_sdk::types::TypeTag>,
        args: Vec<Vec<u8>>,
    ) -> (r: Result<EntryFunction, ClientError>)
        ensures
            match r {
                Ok(call) => {
                    &&& is_identifier(module@) && is_identifier(function@)
                    &&& call.module_address == address
                    &&& call.module_name@ == module@
                    &&& call.function_name@ == function@
                    &&& call.type_args == type_args
                    &&& call.args == args
                    &&& call.wf()
                },
                Err(e) => e == ClientError::EncodingError && !(is_identifier(module@)
                    && is_identifier(function@)),
            },
    {
        if !identifier_accepts(module) || !identifier_accepts(function) {
            return Err(ClientError::EncodingError);
        }
        Ok(
            EntryFunction {
                module_address: address,
                module_name: String::from_str(module),
                function_name: String::from_str(function),
                type_args,
                args,
            },
        )
    }
}

impl EntryFunction {
    /// The call of the function `function` of the module `module` at
    /// `address`, with no types and the encoded arguments `args`, where both
    /// names are known to be names.
    pub(crate) fn with_names(address: Address, module: &str, function: &str, args: Vec<Vec<u8>>) -> (call:
        EntryFunction)
        requires
            is_identifier(module@),
            is_identifier(function@),
        ensures
            call.module_address == address,
            call.module_name@ == module@,
            call.function_name@ == function@,
            call.type_args@.len() == 0,
            call.args == args,
            call.wf(),
    {
        EntryFunction {
            module_address: address,
            module_name: String::from_str(module),
            function_name: String::from_str(function),
            type_args: Vec::new(),
            args,
        }
    }
}

impl RawTransaction {
    /// The message that is signed for this transaction; `EncodingError` where
    /// the transaction cannot be put into its binary form.
    pub fn signing_message(&self) -> (r: Result<Vec<u8>, ClientError>)
        ensures
            match r {
                Ok(message) => signing_message_of(*self) == Some(message@),
                Err(e) => e == ClientError::EncodingError && signing_message_of(*self) is None,
            },
    {
        match signing_message(self) {
            Ok(message) => Ok(message),
            Err(_) => Err(ClientError::EncodingError),
        }
    }
}

impl SignedTransaction {
    /// The binary form in which this transaction is submitted;
    /// `EncodingError` where it cannot be put into that form.
    pub fn to_bytes(&self) -> (r: Result<Vec<u8>, ClientError>)
        ensures
            match r {
                Ok(bytes) => signed_transaction_bytes(*self) == Some(bytes@),
                Err(e) => e == ClientError::EncodingError && signed_transaction_bytes(*self)
                    is None,
            },
    {
        match signed_bytes(self) {
            Ok(bytes) => Ok(bytes),
            Err(_) => Err(ClientError::EncodingError),
        }
    }
}

} // verus!

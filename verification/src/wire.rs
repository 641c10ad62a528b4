//! The two forms of a transaction that only aptos-sdk can give: the message
//! that is signed for it, and the bytes in which it is submitted.

use vstd::prelude::*;
use aptos_sdk::transaction::{EntryFunction, RawTransaction, SignedTransaction, TransactionAuthenticator};
use aptos_sdk::types::{AccountAddress, ChainId, Identifier, MoveModuleId};
use aptos_sdk::AptosError;
use crate::transaction::TransactionPayload;

verus! {

/// The message that is signed for `txn`, as aptos-sdk's
/// `RawTransaction::signing_message` gives it; nothing where it reports an
/// error.
pub uninterp spec fn signing_message_of(txn: crate::transaction::RawTransaction) -> Option<Seq<u8>>;

/// The binary form of `txn`, as aptos-sdk's `SignedTransaction::to_bcs` gives
/// it; nothing where it reports an error.
pub uninterp spec fn signed_transaction_bytes(txn: crate::transaction::SignedTransaction) -> Option<
    Seq<u8>,
>;

/// aptos-sdk's `RawTransaction::signing_message` on the transaction that
/// `txn` describes. The result is a function of `txn` alone, and is given the
/// name `signing_message_of`.
#[verifier::external_body]
pub(crate) fn signing_message(txn: &crate::transaction::RawTransaction) -> (r: Result<
    Vec<u8>,
    AptosError,
>)
    ensures
        r matches Ok(message) ==> signing_message_of(*txn) == Some(message@),
        r is Err ==> signing_message_of(*txn) is None,
{
    let TransactionPayload::EntryFunction(c) = &txn.payload;
    let module = MoveModuleId::new(AccountAddress::new(c.module_address.bytes), Identifier::new(&c.module_name)?);
    let call = EntryFunction::new(module, &c.function_name, c.type_args.clone(), c.args.clone());
    RawTransaction::new(AccountAddress::new(txn.sender.bytes), txn.sequence_number, call.into(),
        txn.max_gas_amount, txn.gas_unit_price, txn.expiration_timestamp_secs, ChainId::new(txn.chain_id.0))
        .signing_message()
}

/// aptos-sdk's `SignedTransaction::to_bcs` on the transaction that `txn`
/// describes, signed with one Ed25519 key. The result is a function of `txn`
/// alone, and is given the name `signed_transaction_bytes`.
#[verifier::external_body]
pub(crate) fn signed_bytes(txn: &crate::transaction::SignedTransaction) -> (r: Result<
    Vec<u8>,
    AptosError,
>)
    ensures
        r matches Ok(bytes) ==> signed_transaction_bytes(*txn) == Some(bytes@),
        r is Err ==> signed_transaction_bytes(*txn) is None,
{
    let t = &txn.raw_txn;
    let TransactionPayload::EntryFunction(c) = &t.payload;
    let module = MoveModuleId::new(AccountAddress::new(c.module_address.bytes), Identifier::new(&c.module_name)?);
    let call = EntryFunction::new(module, &c.function_name, c.type_args.clone(), c.args.clone());
    let seal = TransactionAuthenticator::ed25519(txn.public_key.into(), txn.signature.into());
    SignedTransaction::new(
        RawTransaction::new(AccountAddress::new(t.sender.bytes), t.sequence_number, call.into(),
            t.max_gas_amount, t.gas_unit_price, t.expiration_timestamp_secs, ChainId::new(t.chain_id.0)),
        seal,
    ).to_bcs()
}

} // verus!

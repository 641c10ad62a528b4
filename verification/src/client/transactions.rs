//! Transactions: building and signing one, submitting it, and looking one up
//! by its hash.

use vstd::prelude::*;
use vstd::string::*;
use crate::address::Address;
use crate::crypto::ed25519_signature;
use crate::error::ClientError;
use crate::json::{FromJson, Json};
use crate::transaction::{RawTransaction, SignedTransaction, TransactionPayload};
use crate::transport::{Body, Expect, Method, Reply, Request};
use crate::types::{LocalAccount, U64};
use crate::wire::{signed_transaction_bytes, signing_message_of};
use super::accounts::Account;
use super::{is_get, Client};

verus! {

/// The most gas that a transaction built here pays for.
pub const MAX_GAS_AMOUNT: u64 = 100_000;

/// The price that a transaction built here pays for a unit of gas.
pub const GAS_UNIT_PRICE: u64 = 100;

/// How many seconds a transaction built here stays valid.
pub const EXPIRATION_HORIZON_SECS: u64 = 600;

/// What the node tells of a transaction.
#[derive(Debug)]
pub struct Transaction {
    /// The kind of record; `pending_transaction` while the transaction has
    /// not been executed.
    pub transaction_type: String,
    /// The sequence number that the transaction carries.
    pub sequence_number: U64,
}

/// The view of a transaction's record.
pub ghost struct TransactionView {
    pub transaction_type: Seq<char>,
    pub sequence_number: u64,
}

impl View for Transaction {
    type V = TransactionView;

    open spec fn view(&self) -> TransactionView {
        TransactionView {
            transaction_type: self.transaction_type@,
            sequence_number: self.sequence_number.0,
        }
    }
}

impl FromJson for Transaction {
    /// An object with a string `type` and a string-carried number
    /// `sequence_number`.
    open spec fn parsed(json: Json) -> Option<TransactionView> {
        match (json.text_member("type"@), json.u64_member("sequence_number"@)) {
            (Some(transaction_type), Some(sequence_number)) => Some(
                TransactionView { transaction_type, sequence_number },
            ),
            _ => None,
        }
    }

    fn from_json(json: &Json) -> (r: Option<Self>) {
        let transaction_type = match json.get_string("type") {
            Some(text) => text,
            None => {
                return None;
            },
        };
        match json.get_u64("sequence_number") {
            Some(number) => Some(Transaction { transaction_type, sequence_number: U64(number) }),
            None => None,
        }
    }
}

/// What the node answers when it has taken a transaction in.
#[derive(Debug)]
pub struct SubmitTransaction {
    /// The hash by which the transaction can be looked up.
    pub hash: String,
}

impl View for SubmitTransaction {
    type V = Seq<char>;

    open spec fn view(&self) -> Seq<char> {
        self.hash@
    }
}

impl FromJson for SubmitTransaction {
    /// An object with a string `hash`.
    open spec fn parsed(json: Json) -> Option<Seq<char>> {
        json.text_member("hash"@)
    }

    fn from_json(json: &Json) -> (r: Option<Self>) {
        match json.get_string("hash") {
            Some(hash) => Some(SubmitTransaction { hash }),
            None => None,
        }
    }
}

/// Whether `request` submits the bytes `data` of a signed transaction: a
/// `POST` of them to `url`, under the content type of a signed transaction in
/// its binary form.
pub open spec fn is_submission(request: Request, url: Seq<char>, data: Seq<u8>) -> bool {
    &&& request.method == Method::Post
    &&& request.url@ == url
    &&& request.expect == Expect::Json
    &&& request.body matches Body::Bytes { content_type, data: sent }
    &&& content_type@ == "application/x.aptos.signed_transaction+bcs"@
    &&& sent@ == data
}

/// Every transaction that a client builds carries the chain id that the
/// client was made with, whoever sends it, whatever it does and whenever it
/// is built: to reach another network, another client has to be made.
pub proof fn lemma_chain_id_is_the_clients(
    client: Client,
    sender: Address,
    sequence_number: u64,
    payload: TransactionPayload,
    now_secs: u64,
)
    ensures
        client.unsigned(sender, sequence_number, payload, now_secs).chain_id == client.chain(),
{
}

impl Client {
    /// The transaction that `sender` sends at the time `now_secs` to do what
    /// `payload` says, when the node holds `sequence_number` for the sender:
    /// with this client's chain id, the fixed gas budget and price, and an
    /// expiration that lies the fixed horizon after `now_secs`.
    pub open spec fn unsigned(
        self,
        sender: Address,
        sequence_number: u64,
        payload: TransactionPayload,
        now_secs: u64,
    ) -> RawTransaction {
        RawTransaction {
            sender,
            sequence_number,
            payload,
            max_gas_amount: MAX_GAS_AMOUNT,
            gas_unit_price: GAS_UNIT_PRICE,
            expiration_timestamp_secs: (now_secs + EXPIRATION_HORIZON_SECS) as u64,
            chain_id: self.chain(),
        }
    }

    /// Builds the transaction that `unsigned` describes.
    pub fn raw_transaction(
        &self,
        sender: Address,
        sequence_number: u64,
        payload: TransactionPayload,
        now_secs: u64,
    ) -> (txn: RawTransaction)
        requires
            now_secs + EXPIRATION_HORIZON_SECS <= u64::MAX,
        ensures
            txn == self.unsigned(sender, sequence_number, payload, now_secs),
            txn.chain_id == self.chain(),
            txn.sequence_number == sequence_number,
            txn.expiration_timestamp_secs == now_secs + EXPIRATION_HORIZON_SECS,
    {
        RawTransaction {
            sender,
            sequence_number,
            payload,
            max_gas_amount: MAX_GAS_AMOUNT,
            gas_unit_price: GAS_UNIT_PRICE,
            expiration_timestamp_secs: now_secs + EXPIRATION_HORIZON_SECS,
            chain_id: self.chain_id(),
        }
    }

    /// Builds and signs the transaction by which `sender` does what
    /// `payload` says.
    ///
    /// `reply` is the node's answer to `account_request` for the sender's
    /// address, asked for this transaction and no other: the sequence number
    /// is taken from it, never from what the owner remembers. `now_secs` is
    /// the time in seconds since 1970. The chain id is the one that the
    /// client was made with.
    ///
    /// A failure of the reply comes back unchanged. `EncodingError` comes
    /// back exactly where the reply is good and the transaction has no
    /// signing message.
    pub fn create_single_signer_bcs_transaction(
        &self,
        sender: &LocalAccount,
        payload: TransactionPayload,
        reply: &Reply,
        now_secs: u64,
    ) -> (r: Result<SignedTransaction, ClientError>)
        requires
            now_secs + EXPIRATION_HORIZON_SECS <= u64::MAX,
        ensures
            match (reply.record::<Account>(), r) {
                (Ok(account), Ok(signed)) => {
                    let txn = self.unsigned(
                        sender.addr(),
                        account.sequence_number.0,
                        payload,
                        now_secs,
                    );
                    &&& signed.raw_txn == txn
                    &&& signed.raw_txn.chain_id == self.chain()
                    &&& signed.raw_txn.sequence_number == account.sequence_number.0
                    &&& signing_message_of(txn) is Some
                    &&& signed.public_key@ == sender.keys().public()
                    &&& signed.signature@ == ed25519_signature(
                        sender.keys().private(),
                        signing_message_of(txn).unwrap(),
                    )
                },
                (Ok(account), Err(e)) => {
                    &&& e == ClientError::EncodingError
                    &&& signing_message_of(
                        self.unsigned(sender.addr(), account.sequence_number.0, payload, now_secs),
                    ) is None
                },
                (Err(failure), Err(e)) => e == failure,
                (Err(_), Ok(_)) => false,
            },
    {
        let account = match reply.read::<Account>() {
            Ok(account) => account,
            Err(e) => {
                return Err(e);
            },
        };
        let txn = self.raw_transaction(
            sender.address(),
            account.sequence_number.0,
            payload,
            now_secs,
        );
        sender.sign_transaction(txn)
    }

    /// The request that submits `signed_transaction`: a `POST` of its binary
    /// form to `/transactions`.
    ///
    /// Fails with `EncodingError` exactly where the transaction has no
    /// binary form.
    pub fn submit_bcs_transaction_request(&self, signed_transaction: &SignedTransaction) -> (r:
        Result<Request, ClientError>)
        ensures
            match r {
                Ok(request) => {
                    &&& signed_transaction_bytes(*signed_transaction) is Some
                    &&& is_submission(
                        request,
                        self.base() + "/transactions"@,
                        signed_transaction_bytes(*signed_transaction).unwrap(),
                    )
                },
                Err(e) => e == ClientError::EncodingError && signed_transaction_bytes(
                    *signed_transaction,
                ) is None,
            },
    {
        let data = match signed_transaction.to_bytes() {
            Ok(data) => data,
            Err(e) => {
                return Err(e);
            },
        };
        let mut url = String::from_str(self.base_url());
        url.append("/transactions");
        Ok(
            Request {
                method: Method::Post,
                url,
                body: Body::Bytes {
                    content_type: String::from_str("application/x.aptos.signed_transaction+bcs"),
                    data,
                },
                expect: Expect::Json,
            },
        )
    }

    /// Reads the hash of a submitted transaction from the reply to
    /// `submit_bcs_transaction_request`.
    pub fn submit_bcs_transaction(&self, reply: &Reply) -> (r: Result<String, ClientError>)
        ensures
            match r {
                Ok(hash) => reply.record::<SubmitTransaction>() == Ok::<Seq<char>, ClientError>(
                    hash@,
                ),
                Err(e) => reply.record::<SubmitTransaction>() == Err::<Seq<char>, ClientError>(e),
            },
    {
        match reply.read::<SubmitTransaction>() {
            Ok(submitted) => Ok(submitted.hash),
            Err(e) => Err(e),
        }
    }

    /// The request for a transaction's record: a `GET` of
    /// `/transactions/by_hash/{txn_hash}`.
    pub fn transaction_by_hash_request(&self, txn_hash: &str) -> (request: Request)
        ensures
            is_get(request, self.base() + "/transactions/by_hash/"@ + txn_hash@),
    {
        let mut path = String::from_str("/transactions/by_hash/");
        path.append(txn_hash);
        let request = self.get(path);
        assert(request.url@ =~= self.base() + "/transactions/by_hash/"@ + txn_hash@);
        request
    }

    /// Reads a transaction's record from the reply to
    /// `transaction_by_hash_request`.
    pub fn transaction_by_hash(&self, reply: &Reply) -> (r: Result<Transaction, ClientError>)
        ensures
            match r {
                Ok(record) => reply.record::<Transaction>() == Ok::<TransactionView, ClientError>(
                    record@,
                ),
                Err(e) => reply.record::<Transaction>() == Err::<TransactionView, ClientError>(e),
            },
    {
        reply.read::<Transaction>()
    }
}

} // verus!

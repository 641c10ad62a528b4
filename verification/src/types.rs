//! The values that the client's records are made of.

use vstd::prelude::*;
use vstd::std_specs::convert::FromSpecImpl;
use crate::address::Address;
use crate::crypto::{
    authentication_key_of, ed25519_authentication_key, ed25519_public_key, ed25519_signature,
    public_key_of, random_private_key, sign_with,
};
use crate::decimal::{decimal_text, format_u64, lemma_parse_decimal_text, parse_u64, read_u64};
use crate::error::ClientError;
use crate::json::{FromJson, Json};
use crate::transaction::{RawTransaction, SignedTransaction};
use crate::wire::signing_message_of;

verus! {

/// A 64-bit number that travels as a string.
///
/// The node writes such a number in decimal inside a JSON string, because a
/// JSON number cannot hold every 64-bit value exactly.
#[derive(Debug, Copy, Clone, Eq, PartialEq, Structural)]
pub struct U64(pub u64);

impl View for U64 {
    type V = u64;

    open spec fn view(&self) -> u64 {
        self.0
    }
}

impl Default for U64 {
    fn default() -> (r: U64)
        ensures
            r.0 == 0,
    {
        U64(0)
    }
}

impl From<u64> for U64 {
    fn from(d: u64) -> (r: U64) {
        U64(d)
    }
}

impl FromSpecImpl<u64> for U64 {
    open spec fn obeys_from_spec() -> bool {
        true
    }

    open spec fn from_spec(d: u64) -> U64 {
        U64(d)
    }
}

impl From<U64> for u64 {
    fn from(d: U64) -> (r: u64) {
        d.0
    }
}

impl FromSpecImpl<U64> for u64 {
    open spec fn obeys_from_spec() -> bool {
        true
    }

    open spec fn from_spec(d: U64) -> u64 {
        d.0
    }
}

impl U64 {
    /// The string that carries this number: its decimal digits.
    pub fn to_string(&self) -> (text: String)
        ensures
            text@ == decimal_text(self.0 as nat),
    {
        format_u64(self.0)
    }

    /// The number that the string `text` carries: an optional plus sign and
    /// decimal digits whose value fits in 64 bits, and nothing else.
    pub fn from_text(text: &str) -> (r: Option<U64>)
        ensures
            match r {
                Some(number) => parse_u64(text@) == Some(number.0),
                None => parse_u64(text@) is None,
            },
    {
        match read_u64(text) {
            Some(n) => Some(U64(n)),
            None => None,
        }
    }

    /// The JSON document that carries this number.
    pub fn to_json(&self) -> (json: Json)
        ensures
            json.text() == Some(decimal_text(self.0 as nat)),
            U64::parsed(json) == Some(self.0),
    {
        proof {
            lemma_parse_decimal_text(self.0);
        }
        Json::Text(format_u64(self.0))
    }
}

/// The number that tells one network from another. Every transaction carries
/// it, so that none can be replayed on another network.
#[derive(Debug, Copy, Clone, Eq, PartialEq, Structural)]
pub struct ChainId(pub u8);

impl View for ChainId {
    type V = u8;

    open spec fn view(&self) -> u8 {
        self.0
    }
}

impl ChainId {
    /// The chain id with the number `id`.
    pub fn new(id: u8) -> (r: ChainId)
        ensures
            r.0 == id,
    {
        ChainId(id)
    }

    /// The number of this chain id.
    pub fn id(&self) -> (id: u8)
        ensures
            id == self.0,
    {
        self.0
    }
}

impl FromJson for ChainId {
    /// A JSON number below 256, written in plain digits.
    open spec fn parsed(json: Json) -> Option<u8> {
        json.small_number()
    }

    fn from_json(json: &Json) -> (r: Option<Self>) {
        match json.as_small_number() {
            Some(id) => Some(ChainId(id)),
            None => None,
        }
    }
}

impl FromJson for U64 {
    /// A string that writes the number in decimal.
    open spec fn parsed(json: Json) -> Option<u64> {
        match json.text() {
            Some(text) => parse_u64(text),
            None => None,
        }
    }

    fn from_json(json: &Json) -> (r: Option<Self>) {
        match json.as_text() {
            Some(text) => U64::from_text(text.as_str()),
            None => None,
        }
    }
}

/// The key by which the network knows who may sign for an account.
#[derive(Debug, Clone, Copy, PartialEq, Eq)]
pub struct AuthenticationKey {
    /// The 32 bytes of the key.
    pub bytes: [u8; 32],
}

impl View for AuthenticationKey {
    type V = Seq<u8>;

    open spec fn view(&self) -> Seq<u8> {
        self.bytes@
    }
}

impl AuthenticationKey {
    /// The address of the account that starts out with this key: the same
    /// 32 bytes.
    pub fn derived_address(&self) -> (address: Address)
        ensures
            address@ == self@,
    {
        Address { bytes: self.bytes }
    }
}

/// The name of a stream of events: a number and the account that owns it.
#[derive(Debug, Clone, Copy, PartialEq, Eq)]
pub struct EventKey {
    /// The number of the stream among the account's streams.
    pub creation_number: u64,
    /// The account that owns the stream.
    pub account_address: Address,
}

/// The number of the stream of the coins that an account received.
pub const RECEIVED_EVENTS: u64 = 2;

/// The number of the stream of the coins that an account sent.
pub const SENT_EVENTS: u64 = 3;

/// The keys of an account: the private key, and the public key and the
/// authentication key that follow from it.
#[derive(Debug)]
pub struct AccountKey {
    private_key: [u8; 32],
    public_key: [u8; 32],
    authentication_key: AuthenticationKey,
}

impl AccountKey {
    /// The bytes of the private key.
    pub closed spec fn private(self) -> Seq<u8> {
        self.private_key@
    }

    /// The bytes of the public key.
    pub closed spec fn public(self) -> Seq<u8> {
        self.public_key@
    }

    /// The bytes of the authentication key.
    pub closed spec fn authentication(self) -> Seq<u8> {
        self.authentication_key@
    }

    /// The public key belongs to the private key, and the authentication key
    /// to the public key.
    #[verifier::type_invariant]
    spec fn well_formed(self) -> bool {
        &&& self.public_key@ == ed25519_public_key(self.private_key@)
        &&& self.authentication_key@ == ed25519_authentication_key(self.public_key@)
    }

    /// The keys that follow from a new private key, drawn at random.
    pub fn generate() -> (key: AccountKey)
        ensures
            key.public() == ed25519_public_key(key.private()),
            key.authentication() == ed25519_authentication_key(key.public()),
    {
        AccountKey::from_private_key(random_private_key())
    }

    /// The keys that follow from `private_key`.
    pub fn from_private_key(private_key: [u8; 32]) -> (key: AccountKey)
        ensures
            key.private() == private_key@,
            key.public() == ed25519_public_key(private_key@),
            key.authentication() == ed25519_authentication_key(key.public()),
    {
        let public_key = match public_key_of(&private_key) {
            Ok(public_key) => public_key,
            // Every 32 bytes are a private key: this arm is never taken.
            Err(_) => [0u8;32],
        };
        let authentication_key = AuthenticationKey { bytes: authentication_key_of(&public_key) };
        AccountKey { private_key, public_key, authentication_key }
    }

    /// The private key.
    pub fn private_key(&self) -> (key: &[u8; 32])
        ensures
            key@ == self.private(),
    {
        &self.private_key
    }

    /// The public key.
    pub fn public_key(&self) -> (key: &[u8; 32])
        ensures
            key@ == self.public(),
            key@ == ed25519_public_key(self.private()),
    {
        proof {
            use_type_invariant(self);
        }
        &self.public_key
    }

    /// The authentication key.
    pub fn authentication_key(&self) -> (key: AuthenticationKey)
        ensures
            key@ == self.authentication(),
            key@ == ed25519_authentication_key(self.public()),
    {
        proof {
            use_type_invariant(self);
        }
        self.authentication_key
    }
}

/// An account as its owner holds it: the address, the keys, and the sequence
/// number as far as the owner knows it.
///
/// Nothing here is an account on the chain. The sequence number may lag behind
/// the node's; a transaction is built with the node's, never with this one.
#[derive(Debug)]
pub struct LocalAccount {
    address: Address,
    key: AccountKey,
    sequence_number: u64,
}

impl LocalAccount {
    /// The address.
    pub closed spec fn addr(self) -> Address {
        self.address
    }

    /// The keys.
    pub closed spec fn keys(self) -> AccountKey {
        self.key
    }

    /// The sequence number as far as the owner knows it.
    pub closed spec fn number(self) -> u64 {
        self.sequence_number
    }

    /// The account at `address` with the keys `key`, whose last known
    /// sequence number is `sequence_number`.
    pub fn new(address: Address, key: AccountKey, sequence_number: u64) -> (account: LocalAccount)
        ensures
            account.addr() == address,
            account.keys() == key,
            account.number() == sequence_number,
    {
        LocalAccount { address, key, sequence_number }
    }

    /// A new account: new keys drawn at random, the address that follows
    /// from them, and the sequence number zero.
    pub fn generate() -> (account: LocalAccount)
        ensures
            account.number() == 0,
            account.addr()@ == account.keys().authentication(),
            account.keys().public() == ed25519_public_key(account.keys().private()),
            account.keys().authentication() == ed25519_authentication_key(
                account.keys().public(),
            ),
    {
        let key = AccountKey::generate();
        let address = key.authentication_key().derived_address();
        LocalAccount::new(address, key, 0)
    }

    /// Signs `txn` with the account's private key.
    ///
    /// The signed transaction holds `txn` unchanged, the account's public
    /// key, and the signature of the private key over the signing message of
    /// `txn`. Fails with `EncodingError` exactly where `txn` has no signing
    /// message, because it cannot be put into its binary form.
    pub fn sign_transaction(&self, txn: RawTransaction) -> (r: Result<
        SignedTransaction,
        ClientError,
    >)
        ensures
            match r {
                Ok(signed) => {
                    &&& signing_message_of(txn) is Some
                    &&& signed.raw_txn == txn
                    &&& signed.public_key@ == self.keys().public()
                    &&& signed.signature@ == ed25519_signature(
                        self.keys().private(),
                        signing_message_of(txn).unwrap(),
                    )
                },
                Err(e) => e == ClientError::EncodingError && signing_message_of(txn) is None,
            },
    {
        let message = match txn.signing_message() {
            Ok(message) => message,
            Err(e) => {
                return Err(e);
            },
        };
        let signature = match sign_with(self.key.private_key(), &message) {
            Ok(signature) => signature,
            // Every 32 bytes are a private key: this arm is never taken.
            Err(_) => [0u8;64],
        };
        Ok(SignedTransaction { raw_txn: txn, public_key: *self.key.public_key(), signature })
    }

    /// The address.
    pub fn address(&self) -> (address: Address)
        ensures
            address == self.addr(),
    {
        self.address
    }

    /// The private key.
    pub fn private_key(&self) -> (key: &[u8; 32])
        ensures
            key@ == self.keys().private(),
    {
        self.key.private_key()
    }

    /// The public key.
    pub fn public_key(&self) -> (key: &[u8; 32])
        ensures
            key@ == self.keys().public(),
    {
        self.key.public_key()
    }

    /// The authentication key.
    pub fn authentication_key(&self) -> (key: AuthenticationKey)
        ensures
            key@ == self.keys().authentication(),
    {
        self.key.authentication_key()
    }

    /// The sequence number as far as the owner knows it.
    pub fn sequence_number(&self) -> (number: u64)
        ensures
            number == self.number(),
    {
        self.sequence_number
    }

    /// The owner's sequence number, to be changed in place. Nothing else of
    /// the account changes with it.
    pub fn sequence_number_mut(&mut self) -> (number: &mut u64)
        ensures
            *number == old(self).number(),
            final(self).number() == *final(number),
            final(self).addr() == old(self).addr(),
            final(self).keys() == old(self).keys(),
    {
        &mut self.sequence_number
    }

    /// Puts `new_key` in the place of the account's keys and hands back
    /// those that it had. Nothing else of the account changes.
    pub fn rotate_key(&mut self, new_key: AccountKey) -> (previous: AccountKey)
        ensures
            previous == old(self).keys(),
            final(self).keys() == new_key,
            final(self).addr() == old(self).addr(),
            final(self).number() == old(self).number(),
    {
        let mut key = new_key;
        core::mem::swap(&mut self.key, &mut key);
        key
    }

    /// The name of the stream of the coins that the account received.
    pub fn received_event_key(&self) -> (key: EventKey)
        ensures
            key.creation_number == RECEIVED_EVENTS,
            key.account_address == self.addr(),
    {
        EventKey { creation_number: RECEIVED_EVENTS, account_address: self.address }
    }

    /// The name of the stream of the coins that the account sent.
    pub fn sent_event_key(&self) -> (key: EventKey)
        ensures
            key.creation_number == SENT_EVENTS,
            key.account_address == self.addr(),
    {
        EventKey { creation_number: SENT_EVENTS, account_address: self.address }
    }
}

} // verus!

//! The faucet of a test network, which mints coins on request.

use vstd::prelude::*;
use vstd::string::*;
use aptos_sdk::transaction::SignedTransaction;
use crate::address::{all_hex, hex_value, standard_text, Address};
use crate::client::Client;
use crate::decimal::{decimal_text, push_decimal};
use crate::error::ClientError;
use crate::transport::{Body, Expect, Method, Reply, Request};

verus! {

/// An error of the `hex` crate.
#[verifier::external_type_specification]
#[verifier::external_body]
pub struct ExFromHexError(hex::FromHexError);

/// The bytes that the hexadecimal digits `text` write, two digits to a byte,
/// the high one first.
pub open spec fn hex_decoded(text: Seq<char>) -> Seq<u8> {
    Seq::new(
        text.len() / 2,
        |i: int| (hex_value(text[2 * i]).unwrap() * 16 + hex_value(text[2 * i + 1]).unwrap()) as u8,
    )
}

/// Whether `text` writes bytes in hexadecimal: an even number of digits, in
/// either case, and nothing else.
pub open spec fn is_hex_encoding(text: Seq<char>) -> bool {
    text.len() % 2 == 0 && all_hex(text)
}

/// The characters of each of the strings `texts`.
pub open spec fn strings_of(texts: Seq<String>) -> Seq<Seq<char>> {
    texts.map_values(|text: String| text@)
}

/// The hashes, in hexadecimal after `0x`, of the signed transactions that
/// `bytes` are the binary form of a list of; nothing where `bytes` are no
/// such form. They are what `bcs::from_bytes` and aptos-sdk's
/// `SignedTransaction::hash` give.
pub uninterp spec fn committed_hashes_of(bytes: Seq<u8>) -> Option<Seq<Seq<char>>>;

/// `hex::decode` on `text`: the bytes that its digits write, or an error
/// exactly where `text` has an odd length or holds anything but hexadecimal
/// digits.
#[verifier::external_body]
fn hex_decode(text: &str) -> (r: Result<Vec<u8>, hex::FromHexError>)
    ensures
        r is Ok <==> is_hex_encoding(text@),
        r matches Ok(bytes) ==> bytes@ == hex_decoded(text@),
{
    hex::decode(text)
}

/// `bcs::from_bytes` on `bytes`, read as a list of aptos-sdk's signed
/// transactions, and then `SignedTransaction::hash` and `HashValue::to_hex`
/// on each. The result is a function of `bytes` alone, and is given the name
/// `committed_hashes_of`.
#[verifier::external_body]
fn committed_hashes(bytes: &Vec<u8>) -> (r: Option<Vec<String>>)
    ensures
        r matches Some(hashes) ==> committed_hashes_of(bytes@) == Some(strings_of(hashes@)),
        r is None ==> committed_hashes_of(bytes@) is None,
{
    let transactions: Vec<SignedTransaction> = bcs::from_bytes(bytes).ok()?;
    transactions.iter().map(|txn| txn.hash().ok().map(|hash| hash.to_hex())).collect()
}

/// The hash of the transaction that mints the coins, as a reply of the
/// faucet tells it: the reply's text writes, in hexadecimal, the binary form
/// of a list of signed transactions, and the hash is that of the first.
///
/// A reply that brings no text stands for its failure. A text that is no
/// hexadecimal, bytes that are no such list, and an empty list all have the
/// wrong shape.
pub open spec fn minted_hash(reply: Reply) -> Result<Seq<char>, ClientError> {
    match reply.body_text() {
        Ok(text) => if is_hex_encoding(text) {
            match committed_hashes_of(hex_decoded(text)) {
                Some(hashes) => if hashes.len() > 0 {
                    Ok(hashes[0])
                } else {
                    Err(ClientError::DecodeError)
                },
                None => Err(ClientError::DecodeError),
            }
        } else {
            Err(ClientError::DecodeError)
        },
        Err(e) => Err(e),
    }
}

/// The client of a faucet, and of the node whose coins it mints.
#[derive(Debug)]
pub struct FaucetClient {
    faucet_url: String,
    pub client: Client,
}

impl FaucetClient {
    /// The faucet's base address.
    pub closed spec fn faucet(self) -> Seq<char> {
        self.faucet_url@
    }

    /// The client of the node whose coins the faucet mints.
    pub closed spec fn node(self) -> Client {
        self.client
    }

    /// A client of the faucet at `faucet_url`, which mints the coins of the
    /// node that `client` speaks to.
    pub fn new(faucet_url: &str, client: Client) -> (faucets: FaucetClient)
        ensures
            faucets.faucet() == faucet_url@,
            faucets.node() == client,
    {
        FaucetClient { faucet_url: String::from_str(faucet_url), client }
    }

    /// The request that creates the account at `account_address`: the
    /// request that funds it with no coins.
    pub fn create_account_request(&self, account_address: &Address) -> (request: Request)
        ensures
            self.is_mint(request, account_address@, 0),
    {
        self.fund_request(account_address, 0)
    }

    /// Reads the hash of the minting transaction from the reply to
    /// `create_account_request`: see `fund`.
    pub fn create_account(&self, reply: &Reply) -> (r: Result<String, ClientError>)
        ensures
            match r {
                Ok(hash) => minted_hash(*reply) == Ok::<Seq<char>, ClientError>(hash@),
                Err(e) => minted_hash(*reply) == Err::<Seq<char>, ClientError>(e),
            },
    {
        self.fund(reply)
    }

    /// Whether `request` asks the faucet to mint `amount` coins for the
    /// account `address`: an empty `POST` to
    /// `/mint?auth_key={address}&amount={amount}&return_txns=true`, whose
    /// reply is a text.
    pub open spec fn is_mint(self, request: Request, address: Seq<u8>, amount: u64) -> bool {
        &&& request.method == Method::Post
        &&& request.url@ == self.faucet() + "/mint?auth_key="@ + standard_text(address)
            + "&amount="@ + decimal_text(amount as nat) + "&return_txns=true"@
        &&& request.body is Empty
        &&& request.expect == Expect::Text
    }

    /// The request that funds the account at `account_address` with
    /// `amount` coins, and creates the account where there is none.
    pub fn fund_request(&self, account_address: &Address, amount: u64) -> (request: Request)
        ensures
            self.is_mint(request, account_address@, amount),
    {
        let mut url = self.faucet_url.clone();
        url.append("/mint?auth_key=");
        url.append(account_address.to_standard_string().as_str());
        url.append("&amount=");
        push_decimal(amount, &mut url);
        url.append("&return_txns=true");
        assert(url@ =~= self.faucet() + "/mint?auth_key="@ + standard_text(account_address@)
            + "&amount="@ + decimal_text(amount as nat) + "&return_txns=true"@);
        Request { method: Method::Post, url, body: Body::Empty, expect: Expect::Text }
    }

    /// Reads the hash of the minting transaction from the reply to
    /// `fund_request`. The coins are there once the node has executed that
    /// transaction: the caller waits for it with
    /// `Client::wait_for_transaction`.
    pub fn fund(&self, reply: &Reply) -> (r: Result<String, ClientError>)
        ensures
            match r {
                Ok(hash) => minted_hash(*reply) == Ok::<Seq<char>, ClientError>(hash@),
                Err(e) => minted_hash(*reply) == Err::<Seq<char>, ClientError>(e),
            },
    {
        let text = match reply.text() {
            Ok(text) => text,
            Err(e) => {
                return Err(e);
            },
        };
        let bytes = match hex_decode(text.as_str()) {
            Ok(bytes) => bytes,
            Err(_) => {
                return Err(ClientError::DecodeError);
            },
        };
        match committed_hashes(&bytes) {
            Some(hashes) => if hashes.len() > 0 {
                Ok(hashes[0].clone())
            } else {
                Err(ClientError::DecodeError)
            },
            None => Err(ClientError::DecodeError),
        }
    }
}

} // verus!

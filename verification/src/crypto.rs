//! The Ed25519 keys of an account, as bytes.
//!
//! Making a key, deriving the public key and the authentication key, and
//! signing are the work of aptos-sdk. This module names what it gives and
//! leaves it uninterpreted.

use vstd::prelude::*;
use aptos_sdk::crypto::Ed25519PrivateKey;
use aptos_sdk::AptosError;

verus! {

/// The public key that belongs to the private key `private`, as aptos-sdk's
/// `Ed25519PrivateKey::public_key` gives it.
pub uninterp spec fn ed25519_public_key(private: Seq<u8>) -> Seq<u8>;

/// The authentication key of the public key `public`, as aptos-sdk's
/// `derive_authentication_key` gives it for the scheme of a single Ed25519
/// key.
pub uninterp spec fn ed25519_authentication_key(public: Seq<u8>) -> Seq<u8>;

/// The signature of the private key `private` over `message`, as aptos-sdk's
/// `Ed25519PrivateKey::sign` gives it.
pub uninterp spec fn ed25519_signature(private: Seq<u8>, message: Seq<u8>) -> Seq<u8>;

/// A new private key from aptos-sdk's `Ed25519PrivateKey::generate`, which
/// draws it from the system's source of randomness. Nothing is known of it.
#[verifier::external_body]
pub(crate) fn random_private_key() -> (private: [u8; 32]) {
    Ed25519PrivateKey::generate().to_bytes()
}

/// aptos-sdk's `Ed25519PrivateKey::public_key` on the key with the bytes
/// `private`. Every 32 bytes are a private key, so this succeeds; the result
/// is a function of `private` alone, and is given the name
/// `ed25519_public_key`.
#[verifier::external_body]
pub(crate) fn public_key_of(private: &[u8; 32]) -> (r: Result<[u8; 32], AptosError>)
    ensures
        r is Ok,
        r matches Ok(public) ==> public@ == ed25519_public_key(private@),
{
    Ok(Ed25519PrivateKey::from_bytes(private)?.public_key().to_bytes())
}

/// aptos-sdk's `derive_authentication_key` on the public key `public` and
/// the scheme of a single Ed25519 key. The result is a function of `public`
/// alone, and is given the name `ed25519_authentication_key`.
#[verifier::external_body]
pub(crate) fn authentication_key_of(public: &[u8; 32]) -> (key: [u8; 32])
    ensures
        key@ == ed25519_authentication_key(public@),
{
    aptos_sdk::crypto::derive_authentication_key(public, aptos_sdk::crypto::ED25519_SCHEME)
}

/// aptos-sdk's `Ed25519PrivateKey::sign` on `message`, with the key that has
/// the bytes `private`. Every 32 bytes are a private key, so this succeeds;
/// the result is a function of the key and the message alone, and is given
/// the name `ed25519_signature`.
#[verifier::external_body]
pub(crate) fn sign_with(private: &[u8; 32], message: &Vec<u8>) -> (r: Result<[u8; 64], AptosError>)
    ensures
        r is Ok,
        r matches Ok(signature) ==> signature@ == ed25519_signature(private@, message@),
{
    Ok(Ed25519PrivateKey::from_bytes(private)?.sign(message).to_bytes())
}

} // verus!

//! The binary form (BCS) of the values that go into a transaction's arguments.
//!
//! The encoding itself is the work of the `bcs` crate. This module says what
//! bytes it gives for the few kinds of value that the client encodes, and
//! turns its failures into the client's own.

use vstd::prelude::*;
use vstd::string::*;
use vstd::utf8::encode_utf8;
use crate::address::Address;
use crate::error::ClientError;

verus! {

/// The longest run that the encoding takes: of the bytes of a string, or of
/// the items of a list.
pub const MAX_SEQUENCE_LENGTH: usize = 2147483647;

/// An error of the `bcs` crate.
#[verifier::external_type_specification]
#[verifier::external_body]
pub struct ExBcsError(bcs::Error);

/// The `count` low bytes of `x`, the least significant first.
pub open spec fn le_bytes(x: nat, count: nat) -> Seq<u8>
    decreases count,
{
    if count == 0 {
        Seq::empty()
    } else {
        seq![(x % 256) as u8] + le_bytes(x / 256, (count - 1) as nat)
    }
}

/// A length in the encoding's form: seven bits to a byte, the low ones
/// first, and the high bit set on every byte but the last.
pub open spec fn uleb128(n: nat) -> Seq<u8>
    decreases n,
{
    if n < 128 {
        seq![n as u8]
    } else {
        seq![(n % 128 + 128) as u8] + uleb128(n / 128)
    }
}

/// The encoding of a 64-bit number: its eight bytes, the least significant
/// first.
pub open spec fn u64_encoding(x: u64) -> Seq<u8> {
    le_bytes(x as nat, 8)
}

/// The encoding of a string: the number of its bytes in UTF-8, then those
/// bytes.
pub open spec fn str_encoding(text: Seq<char>) -> Seq<u8> {
    uleb128(encode_utf8(text).len()) + encode_utf8(text)
}

/// Whether a string can be encoded: whether its bytes in UTF-8 are no more
/// than the longest run.
pub open spec fn str_encodable(text: Seq<char>) -> bool {
    encode_utf8(text).len() <= MAX_SEQUENCE_LENGTH
}

/// One byte for each flag: 1 for true, 0 for false.
pub open spec fn flag_bytes(flags: Seq<bool>) -> Seq<u8> {
    Seq::new(
        flags.len(),
        |i: int|
            if flags[i] {
                1u8
            } else {
                0u8
            },
    )
}

/// The encoding of a list of flags: their number, then a byte for each.
pub open spec fn bools_encoding(flags: Seq<bool>) -> Seq<u8> {
    uleb128(flags.len()) + flag_bytes(flags)
}

/// The encodings of the strings `texts`, one after the other.
pub open spec fn strs_body(texts: Seq<Seq<char>>) -> Seq<u8>
    decreases texts.len(),
{
    if texts.len() == 0 {
        Seq::empty()
    } else {
        strs_body(texts.drop_last()) + str_encoding(texts.last())
    }
}

/// The encoding of a list of strings: their number, then the encoding of
/// each.
pub open spec fn strs_encoding(texts: Seq<Seq<char>>) -> Seq<u8> {
    uleb128(texts.len()) + strs_body(texts)
}

/// Whether a list of strings can be encoded: whether it has no more items
/// than the longest run, and each of them can be encoded.
pub open spec fn strs_encodable(texts: Seq<Seq<char>>) -> bool {
    &&& texts.len() <= MAX_SEQUENCE_LENGTH
    &&& forall|i: int| 0 <= i < texts.len() ==> str_encodable(#[trigger] texts[i])
}

/// The characters of each of the strings `texts`.
pub open spec fn texts_of(texts: Seq<&str>) -> Seq<Seq<char>> {
    texts.map_values(|text: &str| text@)
}

/// A text of ASCII characters has as many bytes as characters, so it can be
/// encoded where it is no longer than the longest run.
pub proof fn lemma_ascii_encodable(text: Seq<char>)
    requires
        forall|j: int| 0 <= j < text.len() ==> '\0' <= #[trigger] text[j] <= '\u{7f}',
        text.len() <= MAX_SEQUENCE_LENGTH,
    ensures
        encode_utf8(text).len() == text.len(),
        str_encodable(text),
{
    vstd::utf8::is_ascii_chars_encode_utf8(text);
}

/// `bcs::to_bytes` on a 64-bit number: always its eight bytes, the least
/// significant first.
#[verifier::external_body]
fn to_bytes_u64(value: u64) -> (r: Result<Vec<u8>, bcs::Error>)
    ensures
        r is Ok,
        r matches Ok(bytes) ==> bytes@ == u64_encoding(value),
{
    bcs::to_bytes(&value)
}

/// `bcs::to_bytes` on a string: the number of its UTF-8 bytes as a ULEB128
/// length and then those bytes; an error exactly where there are more bytes
/// than `bcs::MAX_SEQUENCE_LENGTH`.
#[verifier::external_body]
fn to_bytes_str(value: &str) -> (r: Result<Vec<u8>, bcs::Error>)
    ensures
        r is Ok <==> str_encodable(value@),
        r matches Ok(bytes) ==> bytes@ == str_encoding(value@),
{
    bcs::to_bytes(value)
}

/// `bcs::to_bytes` on a list of flags: their number as a ULEB128 length and
/// then one byte for each, 1 or 0; an error exactly where there are more
/// flags than `bcs::MAX_SEQUENCE_LENGTH`.
#[verifier::external_body]
fn to_bytes_bools(value: &Vec<bool>) -> (r: Result<Vec<u8>, bcs::Error>)
    ensures
        r is Ok <==> value@.len() <= MAX_SEQUENCE_LENGTH,
        r matches Ok(bytes) ==> bytes@ == bools_encoding(value@),
{
    bcs::to_bytes(value)
}

/// `bcs::to_bytes` on a list of strings: their number as a ULEB128 length
/// and then each string as `to_bytes_str` gives it; an error exactly where
/// the list or one of the strings is longer than `bcs::MAX_SEQUENCE_LENGTH`.
#[verifier::external_body]
fn to_bytes_strs(value: &Vec<&str>) -> (r: Result<Vec<u8>, bcs::Error>)
    ensures
        r is Ok <==> strs_encodable(texts_of(value@)),
        r matches Ok(bytes) ==> bytes@ == strs_encoding(texts_of(value@)),
{
    bcs::to_bytes(value)
}

/// `bcs::to_bytes` on an address of aptos-sdk: always its 32 bytes, with no
/// length before them.
#[verifier::external_body]
fn to_bytes_address(value: &[u8; 32]) -> (r: Result<Vec<u8>, bcs::Error>)
    ensures
        r is Ok,
        r matches Ok(bytes) ==> bytes@ == value@,
{
    bcs::to_bytes(&aptos_sdk::types::AccountAddress::new(*value))
}

/// What became of an encoding: its bytes, or `EncodingError` where the crate
/// reported an error.
fn encoded(r: Result<Vec<u8>, bcs::Error>) -> (out: Result<Vec<u8>, ClientError>)
    ensures
        match r {
            Ok(bytes) => out == Ok::<Vec<u8>, ClientError>(bytes),
            Err(_) => out == Err::<Vec<u8>, ClientError>(ClientError::EncodingError),
        },
{
    match r {
        Ok(bytes) => Ok(bytes),
        Err(_) => Err(ClientError::EncodingError),
    }
}

/// Encodes a 64-bit number.
pub fn encode_u64(value: u64) -> (bytes: Vec<u8>)
    ensures
        bytes@ == u64_encoding(value),
{
    match to_bytes_u64(value) {
        Ok(bytes) => bytes,
        // The codec takes every number: this arm is never taken.
        Err(_) => Vec::new(),
    }
}

/// Encodes a string; fails with `EncodingError` exactly where the string is
/// too long to be encoded.
pub fn encode_str(value: &str) -> (r: Result<Vec<u8>, ClientError>)
    ensures
        match r {
            Ok(bytes) => str_encodable(value@) && bytes@ == str_encoding(value@),
            Err(e) => !str_encodable(value@) && e == ClientError::EncodingError,
        },
{
    encoded(to_bytes_str(value))
}

/// Encodes a list of flags; fails with `EncodingError` exactly where the
/// list is too long to be encoded.
pub fn encode_bools(value: &Vec<bool>) -> (r: Result<Vec<u8>, ClientError>)
    ensures
        match r {
            Ok(bytes) => value@.len() <= MAX_SEQUENCE_LENGTH && bytes@ == bools_encoding(value@),
            Err(e) => value@.len() > MAX_SEQUENCE_LENGTH && e == ClientError::EncodingError,
        },
{
    encoded(to_bytes_bools(value))
}

/// Encodes a list of strings; fails with `EncodingError` exactly where the
/// list or one of its strings is too long to be encoded.
pub fn encode_strs(value: &Vec<&str>) -> (r: Result<Vec<u8>, ClientError>)
    ensures
        match r {
            Ok(bytes) => strs_encodable(texts_of(value@)) && bytes@ == strs_encoding(
                texts_of(value@),
            ),
            Err(e) => !strs_encodable(texts_of(value@)) && e == ClientError::EncodingError,
        },
{
    encoded(to_bytes_strs(value))
}

/// Encodes an address: its 32 bytes.
pub fn encode_address(value: &Address) -> (bytes: Vec<u8>)
    ensures
        bytes@ == value@,
{
    match to_bytes_address(&value.bytes) {
        Ok(bytes) => bytes,
        // The codec takes every address: this arm is never taken.
        Err(_) => Vec::new(),
    }
}

} // verus!

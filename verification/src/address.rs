//! Account addresses and the texts that write them.
//!
//! An address is 32 bytes. The node's paths and records write it in
//! hexadecimal after `0x`: in full, or with the leading zeros left out.

use vstd::prelude::*;
use vstd::string::*;
use crate::decimal::digit_char;

verus! {

/// The lower-case hexadecimal digit for `n`, for `n` below sixteen.
pub open spec fn hex_char(n: int) -> char {
    if n < 10 {
        digit_char(n)
    } else if n == 10 {
        'a'
    } else if n == 11 {
        'b'
    } else if n == 12 {
        'c'
    } else if n == 13 {
        'd'
    } else if n == 14 {
        'e'
    } else {
        'f'
    }
}

/// The number that the hexadecimal digit `c` stands for, in either case.
pub open spec fn hex_value(c: char) -> Option<int> {
    if '0' <= c <= '9' {
        Some(c as int - '0' as int)
    } else if 'a' <= c <= 'f' {
        Some(c as int - 'a' as int + 10)
    } else if 'A' <= c <= 'F' {
        Some(c as int - 'A' as int + 10)
    } else {
        None
    }
}

/// Whether every character of `text` is a hexadecimal digit.
pub open spec fn all_hex(text: Seq<char>) -> bool {
    forall|i: int| 0 <= i < text.len() ==> hex_value(#[trigger] text[i]) is Some
}

/// Two lower-case hexadecimal digits for each of `bytes`, high digit first.
pub open spec fn hex_text(bytes: Seq<u8>) -> Seq<char> {
    Seq::new(
        2 * bytes.len(),
        |i: int|
            if i % 2 == 0 {
                hex_char(bytes[i / 2] as int / 16)
            } else {
                hex_char(bytes[i / 2] as int % 16)
            },
    )
}

/// `text` without its leading zero digits.
pub open spec fn without_leading_zeros(text: Seq<char>) -> Seq<char>
    decreases text.len(),
{
    if text.len() > 0 && text[0] == '0' {
        without_leading_zeros(text.skip(1))
    } else {
        text
    }
}

/// The long text of an address: `0x` and all 64 digits.
pub open spec fn long_text(bytes: Seq<u8>) -> Seq<char> {
    seq!['0', 'x'] + hex_text(bytes)
}

/// The short text of an address: `0x` and its digits from the first that is
/// not zero; `0x0` for the address of zeros.
pub open spec fn short_text(bytes: Seq<u8>) -> Seq<char> {
    let digits = without_leading_zeros(hex_text(bytes));
    if digits.len() == 0 {
        seq!['0', 'x', '0']
    } else {
        seq!['0', 'x'] + digits
    }
}

/// Whether an address is one of the sixteen whose bytes are zero but for the
/// low half of the last.
pub open spec fn is_special(bytes: Seq<u8>) -> bool {
    &&& bytes.len() == 32
    &&& forall|i: int| 0 <= i < 31 ==> bytes[i] == 0
    &&& bytes[31] < 16
}

/// The standard text of an address: the short text for the sixteen special
/// addresses, the long text for every other.
pub open spec fn standard_text(bytes: Seq<u8>) -> Seq<char> {
    if is_special(bytes) {
        short_text(bytes)
    } else {
        long_text(bytes)
    }
}

/// The digits of `text`: what follows `0x` or `0X` where it starts with one
/// of them, else all of it.
pub open spec fn hex_digits_of(text: Seq<char>) -> Seq<char> {
    if text.len() >= 2 && text[0] == '0' && (text[1] == 'x' || text[1] == 'X') {
        text.skip(2)
    } else {
        text
    }
}

/// The digit at place `pos` of the 64, once `digits` is filled up with zeros
/// on the left.
pub open spec fn nibble_at(digits: Seq<char>, pos: int) -> int {
    let k = pos - (64 - digits.len());
    if 0 <= k < digits.len() && hex_value(digits[k]) is Some {
        hex_value(digits[k]).unwrap()
    } else {
        0
    }
}

/// The 32 bytes that up to 64 hexadecimal digits write.
pub open spec fn bytes_of_digits(digits: Seq<char>) -> Seq<u8> {
    Seq::new(32, |i: int| (nibble_at(digits, 2 * i) * 16 + nibble_at(digits, 2 * i + 1)) as u8)
}

/// The address that `text` writes: an optional `0x` or `0X`, then one to 64
/// hexadecimal digits in either case. Any other text writes none.
pub open spec fn parse_address(text: Seq<char>) -> Option<Seq<u8>> {
    let digits = hex_digits_of(text);
    if 1 <= digits.len() <= 64 && all_hex(digits) {
        Some(bytes_of_digits(digits))
    } else {
        None
    }
}

/// How many zero digits `text` starts with.
pub open spec fn leading_zeros(text: Seq<char>) -> nat
    decreases text.len(),
{
    if text.len() > 0 && text[0] == '0' {
        1 + leading_zeros(text.skip(1))
    } else {
        0
    }
}

/// Every number below sixteen is the value of its hexadecimal digit, and
/// only zero has the digit `0`.
pub proof fn lemma_hex_char_value(n: int)
    requires
        0 <= n < 16,
    ensures
        hex_value(hex_char(n)) == Some(n),
        '\0' <= hex_char(n) <= '\u{7f}',
        hex_char(n) == '0' <==> n == 0,
{
}

/// Leaving out the leading zeros of a text leaves what follows them.
pub proof fn lemma_without_leading_zeros(text: Seq<char>)
    ensures
        leading_zeros(text) <= text.len(),
        without_leading_zeros(text) == text.skip(leading_zeros(text) as int),
        forall|j: int| 0 <= j < leading_zeros(text) ==> text[j] == '0',
    decreases text.len(),
{
    if text.len() > 0 && text[0] == '0' {
        let rest = text.skip(1);
        lemma_without_leading_zeros(rest);
        assert(rest.skip(leading_zeros(rest) as int) =~= text.skip(leading_zeros(text) as int));
        assert forall|j: int| 0 <= j < leading_zeros(text) implies text[j] == '0' by {
            if j > 0 {
                assert(rest[j - 1] == '0');
            }
        }
    } else {
        assert(text.skip(0) =~= text);
    }
}

/// The digits of the bytes `bytes` are hexadecimal digits, and read back as
/// the halves of the bytes.
pub proof fn lemma_hex_text(bytes: Seq<u8>)
    ensures
        hex_text(bytes).len() == 2 * bytes.len(),
        all_hex(hex_text(bytes)),
        forall|j: int|
            0 <= j < 2 * bytes.len() ==> '\0' <= #[trigger] hex_text(bytes)[j] <= '\u{7f}',
        forall|i: int|
            0 <= i < bytes.len() ==> hex_value(#[trigger] hex_text(bytes)[2 * i]) == Some(
                bytes[i] as int / 16,
            ),
        forall|i: int|
            0 <= i < bytes.len() ==> hex_value(#[trigger] hex_text(bytes)[2 * i + 1]) == Some(
                bytes[i] as int % 16,
            ),
{
    let text = hex_text(bytes);
    assert forall|j: int| 0 <= j < text.len() implies hex_value(#[trigger] text[j]) is Some
        && '\0' <= text[j] <= '\u{7f}' by {
        lemma_hex_char_value(bytes[j / 2] as int / 16);
        lemma_hex_char_value(bytes[j / 2] as int % 16);
    }
    assert forall|i: int| 0 <= i < bytes.len() implies hex_value(#[trigger] text[2 * i]) == Some(
        bytes[i] as int / 16,
    ) by {
        lemma_hex_char_value(bytes[i] as int / 16);
    }
    assert forall|i: int| 0 <= i < bytes.len() implies hex_value(#[trigger] text[2 * i + 1])
        == Some(bytes[i] as int % 16) by {
        lemma_hex_char_value(bytes[i] as int % 16);
    }
}

/// The long text of an address reads back as the address.
pub proof fn lemma_long_text_round_trip(bytes: Seq<u8>)
    requires
        bytes.len() == 32,
    ensures
        parse_address(long_text(bytes)) == Some(bytes),
{
    lemma_hex_text(bytes);
    let text = long_text(bytes);
    let digits = hex_text(bytes);
    assert(text[0] == '0' && text[1] == 'x');
    assert(text.skip(2) =~= digits);
    assert forall|i: int| 0 <= i < 32 implies bytes_of_digits(digits)[i] == bytes[i] by {
        assert(hex_value(digits[2 * i]) == Some(bytes[i] as int / 16));
        assert(hex_value(digits[2 * i + 1]) == Some(bytes[i] as int % 16));
    }
    assert(bytes_of_digits(digits) =~= bytes);
}

/// The short text of an address reads back as the address.
pub proof fn lemma_short_text_round_trip(bytes: Seq<u8>)
    requires
        bytes.len() == 32,
    ensures
        parse_address(short_text(bytes)) == Some(bytes),
{
    lemma_hex_text(bytes);
    let full = hex_text(bytes);
    lemma_without_leading_zeros(full);
    let zeros = leading_zeros(full) as int;
    let kept = without_leading_zeros(full);
    let text = short_text(bytes);
    if kept.len() == 0 {
        let digits = seq!['0'];
        assert(text.skip(2) =~= digits);
        assert(hex_digits_of(text) == digits);
        assert forall|i: int| 0 <= i < 32 implies bytes_of_digits(digits)[i] == bytes[i] by {
            assert(full[2 * i] == '0' && full[2 * i + 1] == '0');
            lemma_hex_char_value(bytes[i] as int / 16);
            lemma_hex_char_value(bytes[i] as int % 16);
        }
        assert(bytes_of_digits(digits) =~= bytes);
    } else {
        assert(text.skip(2) =~= kept);
        assert(hex_digits_of(text) == kept);
        assert(all_hex(kept)) by {
            assert forall|k: int| 0 <= k < kept.len() implies hex_value(#[trigger] kept[k])
                is Some by {
                assert(kept[k] == full[zeros + k]);
            }
        }
        assert forall|pos: int| 0 <= pos < 64 implies nibble_at(kept, pos) == hex_value(
            full[pos],
        ).unwrap() by {
            if pos >= zeros {
                assert(kept[pos - zeros] == full[pos]);
            } else {
                assert(full[pos] == '0');
            }
        }
        assert forall|i: int| 0 <= i < 32 implies bytes_of_digits(kept)[i] == bytes[i] by {
            assert(hex_value(full[2 * i]) == Some(bytes[i] as int / 16));
            assert(hex_value(full[2 * i + 1]) == Some(bytes[i] as int % 16));
        }
        assert(bytes_of_digits(kept) =~= bytes);
    }
}

/// Each text of an address reads back as the address: what the client writes
/// into a path or a key, it reads from a record as the same address.
pub proof fn lemma_address_round_trip(bytes: Seq<u8>)
    requires
        bytes.len() == 32,
    ensures
        parse_address(standard_text(bytes)) == Some(bytes),
        parse_address(short_text(bytes)) == Some(bytes),
        parse_address(long_text(bytes)) == Some(bytes),
{
    lemma_long_text_round_trip(bytes);
    lemma_short_text_round_trip(bytes);
}

/// The short text of an address is ASCII and has at most 66 characters.
pub proof fn lemma_short_text_is_short(bytes: Seq<u8>)
    requires
        bytes.len() == 32,
    ensures
        short_text(bytes).len() <= 66,
        forall|j: int|
            0 <= j < short_text(bytes).len() ==> '\0' <= #[trigger] short_text(bytes)[j]
                <= '\u{7f}',
{
    lemma_hex_text(bytes);
    let full = hex_text(bytes);
    lemma_without_leading_zeros(full);
    let zeros = leading_zeros(full) as int;
    let kept = without_leading_zeros(full);
    let text = short_text(bytes);
    assert forall|j: int| 0 <= j < text.len() implies '\0' <= #[trigger] text[j] <= '\u{7f}' by {
        if kept.len() > 0 && j >= 2 {
            assert(text[j] == kept[j - 2]);
            assert(kept[j - 2] == full[zeros + j - 2]);
        }
    }
}

/// An account's address.
#[derive(Clone, Copy, Debug, PartialEq, Eq)]
pub struct Address {
    /// The 32 bytes, the most significant first.
    pub bytes: [u8; 32],
}

impl View for Address {
    type V = Seq<u8>;

    open spec fn view(&self) -> Seq<u8> {
        self.bytes@
    }
}

/// The standard text of the address `bytes`, as `AccountAddress::to_standard_string`
/// of aptos-sdk writes it: `0x` and one digit for the sixteen special addresses,
/// `0x` and 64 lower-case digits for every other.
#[verifier::external_body]
fn standard_string(bytes: &[u8; 32]) -> (text: String)
    ensures
        text@ == standard_text(bytes@),
{
    aptos_sdk::types::AccountAddress::new(*bytes).to_standard_string()
}

/// The short text of the address `bytes`, as `AccountAddress::to_short_string`
/// of aptos-sdk writes it: `0x` and the lower-case digits without the leading
/// zeros, `0x0` for the address of zeros.
#[verifier::external_body]
fn short_string(bytes: &[u8; 32]) -> (text: String)
    ensures
        text@ == short_text(bytes@),
{
    aptos_sdk::types::AccountAddress::new(*bytes).to_short_string()
}

/// The value of the hexadecimal digit with the ASCII code `b`.
fn nibble(b: u8) -> (r: Option<u8>)
    ensures
        match r {
            Some(v) => hex_value(b as char) == Some(v as int),
            None => hex_value(b as char) is None,
        },
{
    if 48 <= b && b <= 57 {
        Some(b - 48)
    } else if 97 <= b && b <= 102 {
        Some(b - 97 + 10)
    } else if 65 <= b && b <= 70 {
        Some(b - 65 + 10)
    } else {
        None
    }
}

impl Address {
    /// The address with the given bytes.
    pub fn new(bytes: [u8; 32]) -> (address: Address)
        ensures
            address.bytes == bytes,
    {
        Address { bytes }
    }

    /// The address whose bytes are zero but for the last, which is `last`.
    pub fn from_low_byte(last: u8) -> (address: Address)
        ensures
            address@.len() == 32,
            address@[31] == last,
            forall|i: int| 0 <= i < 31 ==> address@[i] == 0,
    {
        let mut bytes = [0u8;32];
        bytes[31] = last;
        Address { bytes }
    }

    /// The standard text: short for the sixteen special addresses, long for
    /// every other. The node's paths take an address in this form.
    pub fn to_standard_string(&self) -> (text: String)
        ensures
            text@ == standard_text(self@),
    {
        standard_string(&self.bytes)
    }

    /// The short text: `0x` and the digits without the leading zeros.
    pub fn to_hex_literal(&self) -> (text: String)
        ensures
            text@ == short_text(self@),
    {
        short_string(&self.bytes)
    }

    /// Reads an address from `text`, as `parse_address` says.
    pub fn from_hex(text: &str) -> (r: Option<Address>)
        ensures
            match r {
                Some(address) => parse_address(text@) == Some(address@),
                None => parse_address(text@) is None,
            },
    {
        broadcast use is_ascii_spec_bytes;

        if !text.is_ascii() {
            proof {
                let digits = hex_digits_of(text@);
                if all_hex(digits) {
                    assert forall|i: int| 0 <= i < text@.len() implies '\0' <= #[trigger] text@[i]
                        <= '\u{7f}' by {
                        if digits.len() == text@.len() {
                            assert(hex_value(digits[i]) is Some);
                        } else if i >= 2 {
                            assert(hex_value(digits[i - 2]) is Some);
                        }
                    }
                    assert(false);
                }
            }
            return None;
        }
        let raw = text.as_bytes();
        let len = raw.len();
        assert(len == text@.len());
        let start: usize = if len >= 2 && raw[0] == 48 && (raw[1] == 120 || raw[1] == 88) {
            2
        } else {
            0
        };
        let ghost digits = hex_digits_of(text@);
        proof {
            if len >= 2 {
                assert(raw[0] == text@[0] as u8);
                assert(raw[1] == text@[1] as u8);
            }
            assert(text@.skip(0) =~= text@);
            assert(digits == text@.skip(start as int));
        }
        let n = len - start;
        if n == 0 || n > 64 {
            return None;
        }
        let pad = 64 - n;
        let mut bytes = [0u8;32];
        let mut pos: usize = 0;
        while pos < 64
            invariant
                pos <= 64,
                pos % 2 == 0,
                n == digits.len(),
                1 <= n <= 64,
                pad == 64 - n,
                len == start + n,
                len == text@.len(),
                raw@ == text.spec_bytes(),
                is_ascii(text),
                digits == text@.skip(start as int),
                digits == hex_digits_of(text@),
                forall|k: int| 0 <= k < pos - pad ==> hex_value(#[trigger] digits[k]) is Some,
                forall|i: int|
                    0 <= i < pos / 2 ==> #[trigger] bytes@[i] == bytes_of_digits(digits)[i],
            decreases 64 - pos,
        {
            let mut high: u8 = 0;
            let mut low: u8 = 0;
            if pos >= pad {
                let at = start + (pos - pad);
                let ghost c = text@[at as int];
                assert(raw[at as int] == c as u8);
                assert(digits[pos - pad] == c);
                assert(raw[at as int] as char == c);
                match nibble(raw[at]) {
                    Some(v) => {
                        high = v;
                    },
                    None => {
                        assert(!all_hex(digits));
                        return None;
                    },
                }
            }
            if pos + 1 >= pad {
                let at = start + (pos + 1 - pad);
                let ghost c = text@[at as int];
                assert(raw[at as int] == c as u8);
                assert(digits[pos + 1 - pad] == c);
                assert(raw[at as int] as char == c);
                match nibble(raw[at]) {
                    Some(v) => {
                        low = v;
                    },
                    None => {
                        assert(!all_hex(digits));
                        return None;
                    },
                }
            }
            assert(high == nibble_at(digits, pos as int));
            assert(low == nibble_at(digits, pos as int + 1));
            bytes[pos / 2] = high * 16 + low;
            pos = pos + 2;
        }
        proof {
            assert(all_hex(digits));
            assert(bytes@ =~= bytes_of_digits(digits));
        }
        Some(Address { bytes })
    }
}

} // verus!

use aptos_client::address::Address;
use aptos_client::client::Client;
use aptos_client::codec::{encode_bools, encode_str, encode_strs, encode_u64};
use aptos_client::error::ClientError;
use aptos_client::faucet::FaucetClient;
use aptos_client::transaction::EntryFunction;
use aptos_client::transport::Reply;
use aptos_client::types::ChainId;

/// A small generator of numbers that look random and are the same on every
/// run.
struct Numbers(u64);

impl Numbers {
    fn next(&mut self) -> u64 {
        self.0 = self.0.wrapping_mul(6364136223846793005).wrapping_add(1442695040888963407);
        self.0 >> 11
    }

    fn below(&mut self, bound: u64) -> u64 {
        self.next() % bound
    }

    fn address(&mut self) -> [u8; 32] {
        let mut bytes = [0u8; 32];
        let zeros = self.below(33) as usize;
        for byte in bytes.iter_mut().skip(zeros) {
            *byte = self.below(256) as u8;
        }
        if self.below(4) == 0 {
            bytes = [0u8; 32];
            bytes[31] = self.below(32) as u8;
        }
        bytes
    }

    fn text(&mut self, alphabet: &[char], longest: u64) -> String {
        let length = self.below(longest + 1);
        (0..length).map(|_| alphabet[self.below(alphabet.len() as u64) as usize]).collect()
    }
}

fn digit(n: u8) -> char {
    b"0123456789abcdef"[n as usize] as char
}

fn long_text(bytes: &[u8; 32]) -> String {
    let mut text = String::from("0x");
    for byte in bytes {
        text.push(digit(byte / 16));
        text.push(digit(byte % 16));
    }
    text
}

fn short_text(bytes: &[u8; 32]) -> String {
    let long = long_text(bytes);
    let digits = long[2..].trim_start_matches('0');
    if digits.is_empty() {
        "0x0".to_string()
    } else {
        format!("0x{}", digits)
    }
}

fn standard_text(bytes: &[u8; 32]) -> String {
    if bytes[..31].iter().all(|byte| *byte == 0) && bytes[31] < 16 {
        short_text(bytes)
    } else {
        long_text(bytes)
    }
}

fn length_prefix(mut n: usize) -> Vec<u8> {
    let mut bytes = Vec::new();
    while n >= 128 {
        bytes.push((n % 128 + 128) as u8);
        n /= 128;
    }
    bytes.push(n as u8);
    bytes
}

fn string_encoding(text: &str) -> Vec<u8> {
    let mut bytes = length_prefix(text.len());
    bytes.extend_from_slice(text.as_bytes());
    bytes
}

fn is_name(text: &str) -> bool {
    let chars: Vec<char> = text.chars().collect();
    let letter = |c: char| c.is_ascii_lowercase() || c.is_ascii_uppercase() || c == '_';
    !chars.is_empty()
        && chars.len() <= 128
        && letter(chars[0])
        && chars.iter().all(|c| letter(*c) || c.is_ascii_digit())
}

fn hex_bytes(text: &str) -> Option<Vec<u8>> {
    let chars: Vec<char> = text.chars().collect();
    if chars.len() % 2 != 0 {
        return None;
    }
    let mut bytes = Vec::new();
    for pair in chars.chunks(2) {
        let high = pair[0].to_digit(16).filter(|_| pair[0].is_ascii())?;
        let low = pair[1].to_digit(16).filter(|_| pair[1].is_ascii())?;
        bytes.push((high * 16 + low) as u8);
    }
    Some(bytes)
}

#[test]
fn address_texts_are_what_is_said_of_them() {
    let mut numbers = Numbers(1);
    for _ in 0..2000 {
        let bytes = numbers.address();
        let address = Address::new(bytes);
        assert_eq!(address.to_standard_string(), standard_text(&bytes));
        assert_eq!(address.to_hex_literal(), short_text(&bytes));
        assert_eq!(Address::from_hex(&standard_text(&bytes)), Some(address));
        assert_eq!(Address::from_hex(&short_text(&bytes)), Some(address));
        assert_eq!(Address::from_hex(&long_text(&bytes)), Some(address));
    }
}

#[test]
fn number_encodings_are_what_is_said_of_them() {
    let mut numbers = Numbers(2);
    for _ in 0..2000 {
        let value = numbers.next() << (numbers.below(12));
        assert_eq!(encode_u64(value), value.to_le_bytes().to_vec());
    }
    for value in [0, 1, 255, 256, u64::MAX] {
        assert_eq!(encode_u64(value), value.to_le_bytes().to_vec());
    }
}

#[test]
fn text_encodings_are_what_is_said_of_them() {
    let alphabet = ['a', 'Z', '0', ' ', '/', 'é', 'ß', '中', '🙂', '\u{0}', '\n'];
    let mut numbers = Numbers(3);
    for round in 0..400 {
        let longest = if round % 50 == 0 { 20000 } else { 200 };
        let text = numbers.text(&alphabet, longest);
        assert_eq!(encode_str(&text), Ok(string_encoding(&text)));
    }
    for _ in 0..200 {
        let count = numbers.below(200);
        let texts: Vec<String> = (0..count).map(|_| numbers.text(&alphabet, 12)).collect();
        let borrowed: Vec<&str> = texts.iter().map(|text| text.as_str()).collect();
        let mut expected = length_prefix(texts.len());
        for text in &texts {
            expected.extend(string_encoding(text));
        }
        assert_eq!(encode_strs(&borrowed), Ok(expected));
        let flags: Vec<bool> = (0..count).map(|_| numbers.below(2) == 1).collect();
        let mut expected = length_prefix(flags.len());
        expected.extend(flags.iter().map(|flag| *flag as u8));
        assert_eq!(encode_bools(&flags), Ok(expected));
    }
}

#[test]
fn names_are_taken_as_is_said_of_them() {
    let alphabet = ['a', 'z', 'A', 'Z', '_', '0', '9', '-', ' ', '$', 'é', ':'];
    let mut numbers = Numbers(4);
    let mut taken = 0;
    for _ in 0..4000 {
        let longest = if numbers.below(3) == 0 { 3 } else { 8 };
        let name = numbers.text(&alphabet, longest);
        let made = EntryFunction::new(Address::from_low_byte(1), &name, "f", vec![], vec![]);
        assert_eq!(made.is_ok(), is_name(&name), "name {:?}", name);
        assert_eq!(made.err(), if is_name(&name) { None } else { Some(ClientError::EncodingError) });
        let made = EntryFunction::new(Address::from_low_byte(1), "m", &name, vec![], vec![]);
        assert_eq!(made.is_ok(), is_name(&name), "name {:?}", name);
        if is_name(&name) {
            taken += 1;
        }
    }
    assert!(taken > 100);
    for length in [127usize, 128, 129, 200] {
        let name = "n".repeat(length);
        let made = EntryFunction::new(Address::from_low_byte(1), &name, "f", vec![], vec![]);
        assert_eq!(made.is_ok(), length <= 128);
    }
    let wide = "é".repeat(64);
    assert!(EntryFunction::new(Address::from_low_byte(1), &wide, "f", vec![], vec![]).is_err());
}

#[test]
fn hexadecimal_is_read_as_is_said_of_it() {
    let faucet = FaucetClient::new("http://faucet", Client::new("http://node", ChainId(4)));
    let alphabet = ['0', '1', '9', 'a', 'f', 'A', 'F', 'g', 'x', ' ', 'é'];
    let mut numbers = Numbers(5);
    let mut read = 0;
    for _ in 0..4000 {
        let text = numbers.text(&alphabet, 6);
        let reply = Reply::Text(text.clone());
        match hex_bytes(&text) {
            None => assert_eq!(faucet.fund(&reply), Err(ClientError::DecodeError), "{:?}", text),
            Some(bytes) => {
                read += 1;
                let transactions: Result<Vec<aptos_sdk::transaction::SignedTransaction>, _> =
                    bcs::from_bytes(&bytes);
                let expected = match transactions {
                    Ok(list) if !list.is_empty() => Ok(list[0].hash().unwrap().to_hex()),
                    _ => Err(ClientError::DecodeError),
                };
                assert_eq!(faucet.fund(&reply), expected, "{:?}", text);
            }
        }
    }
    assert!(read > 50);
}

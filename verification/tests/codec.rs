use aptos_client::address::Address;
use aptos_client::codec::{encode_address, encode_bools, encode_str, encode_strs, encode_u64};

#[test]
fn number_is_eight_bytes_low_first() {
    assert_eq!(encode_u64(0), vec![0, 0, 0, 0, 0, 0, 0, 0]);
    assert_eq!(encode_u64(1), vec![1, 0, 0, 0, 0, 0, 0, 0]);
    assert_eq!(encode_u64(0x0102030405060708), vec![8, 7, 6, 5, 4, 3, 2, 1]);
    assert_eq!(encode_u64(1_000_000), vec![0x40, 0x42, 0x0f, 0, 0, 0, 0, 0]);
    assert_eq!(encode_u64(u64::MAX), vec![0xff; 8]);
}

#[test]
fn string_is_its_length_and_its_bytes() {
    assert_eq!(encode_str(""), Ok(vec![0]));
    assert_eq!(encode_str("abc"), Ok(vec![3, b'a', b'b', b'c']));
    assert_eq!(encode_str("é"), Ok(vec![2, 0xc3, 0xa9]));
    let long = "x".repeat(128);
    let encoded = encode_str(&long).unwrap();
    assert_eq!(encoded.len(), 130);
    assert_eq!(&encoded[..2], &[0x80, 0x01]);
    let longer = "y".repeat(300);
    let encoded = encode_str(&longer).unwrap();
    assert_eq!(&encoded[..2], &[0xac, 0x02]);
    assert_eq!(encoded.len(), 302);
    let longest = "z".repeat(16384);
    let encoded = encode_str(&longest).unwrap();
    assert_eq!(&encoded[..3], &[0x80, 0x80, 0x01]);
}

#[test]
fn flags_are_their_number_and_a_byte_each() {
    assert_eq!(encode_bools(&vec![]), Ok(vec![0]));
    assert_eq!(encode_bools(&vec![false, false, false]), Ok(vec![3, 0, 0, 0]));
    assert_eq!(encode_bools(&vec![true, false, true]), Ok(vec![3, 1, 0, 1]));
}

#[test]
fn strings_are_their_number_and_each_string() {
    assert_eq!(encode_strs(&vec![]), Ok(vec![0]));
    assert_eq!(encode_strs(&vec!["a", "", "bc"]), Ok(vec![3, 1, b'a', 0, 2, b'b', b'c']));
}

#[test]
fn address_is_its_bytes() {
    let mut bytes = [0u8; 32];
    bytes[0] = 9;
    bytes[31] = 3;
    assert_eq!(encode_address(&Address::new(bytes)), bytes.to_vec());
    assert_eq!(encode_address(&Address::new([0u8; 32])), vec![0u8; 32]);
}

#[test]
fn encodings_agree_with_the_codec() {
    assert_eq!(encode_u64(77), bcs::to_bytes(&77u64).unwrap());
    assert_eq!(encode_str("hello").unwrap(), bcs::to_bytes("hello").unwrap());
    assert_eq!(
        encode_strs(&vec!["k1", "k2"]).unwrap(),
        bcs::to_bytes(&vec!["k1".to_string(), "k2".to_string()]).unwrap()
    );
    assert_eq!(
        encode_bools(&vec![false; 5]).unwrap(),
        bcs::to_bytes(&vec![false, false, false, false, false]).unwrap()
    );
}

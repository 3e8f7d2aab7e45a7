use todo_api::base64url::{decode, encode, symbol_of, value_of};

#[test]
fn encode_known_vectors() {
    assert_eq!(encode(b""), "");
    assert_eq!(encode(b"f"), "Zg");
    assert_eq!(encode(b"fo"), "Zm8");
    assert_eq!(encode(b"foo"), "Zm9v");
    assert_eq!(encode(b"foob"), "Zm9vYg");
    assert_eq!(encode(b"fooba"), "Zm9vYmE");
    assert_eq!(encode(b"foobar"), "Zm9vYmFy");
}

#[test]
fn encode_uses_the_url_safe_symbols() {
    assert_eq!(encode(&[0xfb, 0xff, 0xfe]), "-__-");
    assert_eq!(encode(&[0xff]), "_w");
}

#[test]
fn decode_known_vectors() {
    assert_eq!(decode(""), Some(vec![]));
    assert_eq!(decode("Zg"), Some(b"f".to_vec()));
    assert_eq!(decode("Zm8"), Some(b"fo".to_vec()));
    assert_eq!(decode("Zm9v"), Some(b"foo".to_vec()));
    assert_eq!(decode("Zm9vYg"), Some(b"foob".to_vec()));
    assert_eq!(decode("Zm9vYmE"), Some(b"fooba".to_vec()));
    assert_eq!(decode("Zm9vYmFy"), Some(b"foobar".to_vec()));
    assert_eq!(decode("-__-"), Some(vec![0xfb, 0xff, 0xfe]));
}

#[test]
fn decode_rejects_padding() {
    assert_eq!(decode("Zg=="), None);
    assert_eq!(decode("Zm8="), None);
}

#[test]
fn decode_rejects_the_standard_alphabet() {
    assert_eq!(decode("+/+/"), None);
}

#[test]
fn decode_rejects_a_stray_character() {
    assert_eq!(decode("Zm9v!m9v"), None);
    assert_eq!(decode("Zm 9"), None);
    assert_eq!(decode("Zm9v.Zm9v"), None);
}

#[test]
fn decode_rejects_a_single_symbol_left_over() {
    assert_eq!(decode("Z"), None);
    assert_eq!(decode("Zm9vZ"), None);
}

#[test]
fn decode_rejects_loose_bits() {
    // 'h' stands for 33, whose low four bits are not zero
    assert_eq!(decode("Zh"), None);
    // '9' stands for 61, whose low two bits are not zero
    assert_eq!(decode("Zm9"), None);
}

#[test]
fn decode_rejects_text_that_is_not_ascii() {
    assert_eq!(decode("Zm9\u{e9}"), None);
}

#[test]
fn decode_inverts_encode_on_every_length() {
    let mut data: Vec<u8> = Vec::new();
    for n in 0..70u32 {
        assert_eq!(decode(&encode(&data)), Some(data.clone()));
        data.push((n * 37 % 256) as u8);
    }
}

#[test]
fn decode_inverts_encode_on_every_byte() {
    for b in 0..=255u8 {
        assert_eq!(decode(&encode(&[b])), Some(vec![b]));
        assert_eq!(decode(&encode(&[7, b])), Some(vec![7, b]));
        assert_eq!(decode(&encode(&[7, 9, b])), Some(vec![7, 9, b]));
    }
}

#[test]
fn symbols_and_values_match() {
    let alphabet = "ABCDEFGHIJKLMNOPQRSTUVWXYZabcdefghijklmnopqrstuvwxyz0123456789-_";
    for (v, c) in alphabet.chars().enumerate() {
        assert_eq!(symbol_of(v as u8), c);
        assert_eq!(value_of(c as u8), Some(v as u8));
    }
    assert_eq!(value_of(b'.'), None);
    assert_eq!(value_of(b'='), None);
    assert_eq!(value_of(b'+'), None);
    assert_eq!(value_of(b'/'), None);
    assert_eq!(value_of(0xe9), None);
}

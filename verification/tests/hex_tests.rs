use multiply_prover::hexstr::{hex_field, hex_decode, decode_hex_field};

#[test]
fn hex_field_renders_prefixed_lowercase_hex() {
    assert_eq!(hex_field(&vec![0x87, 0x01]), "0x8701");
    assert_eq!(hex_field(&vec![]), "0x");
    assert_eq!(hex_field(&vec![0x00, 0xff, 0x0a]), "0x00ff0a");
    assert_eq!(hex_field(&vec![0xde, 0xad, 0xbe, 0xef]), "0xdeadbeef");
}

#[test]
fn hex_field_agrees_with_hex_crate() {
    let bytes = vec![0u8, 1, 2, 0x7f, 0x80, 0xab, 0xcd, 0xff];
    let field = hex_field(&bytes);
    assert_eq!(field, format!("0x{}", hex::encode(&bytes)));
    // Strip the prefix and decode with the hex crate itself.
    assert_eq!(hex::decode(&field[2..]).unwrap(), bytes);
}

#[test]
fn field_round_trip_recovers_bytes() {
    let cases: Vec<Vec<u8>> = vec![
        vec![],
        vec![0x00],
        vec![0xff],
        vec![0x87, 0x01, 0x00, 0x00, 0x00, 0x00, 0x00, 0x00],
        (0u8..=255).collect(),
    ];
    for bytes in cases {
        let field = hex_field(&bytes);
        assert_eq!(decode_hex_field(&field), Some(bytes));
    }
}

#[test]
fn decode_rejects_missing_prefix() {
    assert_eq!(decode_hex_field("8701"), None);
    assert_eq!(decode_hex_field(""), None);
    assert_eq!(decode_hex_field("0"), None);
    assert_eq!(decode_hex_field("1x8701"), None);
}

#[test]
fn decode_rejects_odd_length() {
    assert_eq!(decode_hex_field("0x871"), None);
    assert_eq!(hex_decode("1"), None);
}

#[test]
fn decode_rejects_non_hex_characters() {
    assert_eq!(decode_hex_field("0x87g1"), None);
    assert_eq!(decode_hex_field("0x87AB"), None);
    assert_eq!(hex_decode("zz"), None);
}

#[test]
fn plain_decode_reads_pairs_high_nibble_first() {
    assert_eq!(hex_decode(""), Some(vec![]));
    assert_eq!(hex_decode("8701"), Some(vec![0x87, 0x01]));
    assert_eq!(hex_decode("00ff0a"), Some(vec![0x00, 0xff, 0x0a]));
}

use grpc_stream_template::codec::decode_signature;
use grpc_stream_template::codec::encode_signature;
use grpc_stream_template::codec::encode_then_decode;

#[test]
fn all_zero_signature_encodes_to_fixed_text() {
    let signature = vec![0u8; 64];
    let text = encode_signature(&signature);
    // Each leading zero byte becomes one '1' of the Base58 alphabet.
    assert_eq!(text, "1".repeat(64));
    assert!(!text.is_empty());
}

#[test]
fn all_zero_signature_round_trips() {
    let signature = vec![0u8; 64];
    let text = encode_signature(&signature);
    let decoded = decode_signature(&text);
    assert_eq!(decoded, Some(vec![0u8; 64]));
}

#[test]
fn known_bytes_encode_to_known_text() {
    // The example vector from the encoder's own documentation.
    let input = [0x04u8, 0x30, 0x5e, 0x2b, 0x24, 0x73, 0xf0, 0x58];
    assert_eq!(encode_signature(&input), "he11owor1d");
    assert_eq!(decode_signature("he11owor1d"), Some(input.to_vec()));
}

#[test]
fn empty_input_encodes_to_empty_text() {
    let empty: Vec<u8> = Vec::new();
    assert_eq!(encode_signature(&empty), "");
}

#[test]
fn text_outside_the_alphabet_is_rejected() {
    // '0', 'O', 'I' and 'l' are not Base58 characters.
    assert_eq!(decode_signature("0OIl"), None);
}

#[test]
fn round_trip_returns_the_original_bytes() {
    let bytes: Vec<u8> = (0u8..=255).collect();
    assert_eq!(encode_then_decode(&bytes), Some(bytes));
}

use wally_os::keyboard::{DecodedKey, KeyboardDecoder};

#[test]
fn decoder_maps_letter_make_code() {
    let mut kb = KeyboardDecoder::new();
    assert!(matches!(kb.add_byte(0x10), Some(DecodedKey::Unicode('q'))));
}

#[test]
fn decoder_names_raw_keys() {
    let mut kb = KeyboardDecoder::new();
    match kb.add_byte(0x2a) {
        Some(DecodedKey::RawKey(name)) => assert_eq!(name, "LShift"),
        _ => panic!("expected the left shift key"),
    }
    // shifted letter
    assert!(matches!(kb.add_byte(0x1e), Some(DecodedKey::Unicode('A'))));
}

#[test]
fn decoder_drops_unknown_codes() {
    let mut kb = KeyboardDecoder::new();
    assert!(kb.add_byte(0x00).is_none());
    assert!(matches!(kb.add_byte(0x02), Some(DecodedKey::Unicode('1'))));
}

use world_server::connection::{session_key_from_hex, ConnectionData, HexError, SESSION_KEY_LENGTH};

#[test]
fn session_key_is_decoded_from_hex() {
    let text = "00ff10Ab".repeat(10);
    let key = session_key_from_hex(&text).unwrap();
    assert_eq!(key.len(), SESSION_KEY_LENGTH);
    assert_eq!(&key[0..4], &[0x00, 0xFF, 0x10, 0xAB]);
    assert_eq!(&key[36..40], &[0x00, 0xFF, 0x10, 0xAB]);
}

#[test]
fn session_key_with_odd_digits_is_refused() {
    assert_eq!(session_key_from_hex("abc"), Err(HexError::OddLength));
}

#[test]
fn session_key_with_a_non_digit_is_refused() {
    let mut text = "0".repeat(80);
    text.replace_range(10..11, "g");
    assert_eq!(session_key_from_hex(&text), Err(HexError::InvalidHexCharacter { c: 'g', index: 10 }));
}

#[test]
fn connection_is_authenticated_once_it_has_an_account() {
    assert!(!ConnectionData { account_id: None }.is_authenticated());
    assert!(ConnectionData { account_id: Some(4) }.is_authenticated());
}

use oxa::token_manager::{decode_token, encode_token, TokenManager};

#[test]
fn fresh_slot_loads_none() {
    let manager = TokenManager::new().unwrap();
    assert_eq!(manager.get_token().unwrap(), None);
}

#[test]
fn store_load_clear_round_trip() {
    let manager = TokenManager::new().unwrap();
    assert_eq!(manager.get_token().unwrap(), None);

    manager.store_token("gho_example_token_123").unwrap();
    let loaded = manager.get_token().unwrap().unwrap();
    assert_eq!(loaded.access_token, "gho_example_token_123");

    manager.clear_token().unwrap();
    assert_eq!(manager.get_token().unwrap(), None);

    // Clearing an already-cleared slot is still a success.
    manager.clear_token().unwrap();
    assert_eq!(manager.get_token().unwrap(), None);
}

#[test]
fn overwrite_keeps_last_value() {
    let manager = TokenManager::new().unwrap();
    manager.store_token("first").unwrap();
    manager.store_token("second").unwrap();
    assert_eq!(manager.get_token().unwrap().unwrap().access_token, "second");
}

#[test]
fn encode_produces_the_framed_object() {
    assert_eq!(encode_token("abc"), "{\"access_token\":\"abc\"}");
    assert_eq!(encode_token(""), "{\"access_token\":\"\"}");
    assert_eq!(
        encode_token("a\"b\\c"),
        "{\"access_token\":\"a\\\"b\\\\c\"}"
    );
}

#[test]
fn decode_inverts_encode() {
    for token in ["abc", "", "a\"b\\c", "\\\\\"\"", "tok en:{}"] {
        assert_eq!(decode_token(&encode_token(token)).as_deref(), Some(token));
    }
}

#[test]
fn decode_rejects_malformed_text() {
    assert_eq!(decode_token(""), None);
    assert_eq!(decode_token("garbage"), None);
    assert_eq!(decode_token("{\"access_token\":\"unterminated"), None);
    assert_eq!(decode_token("{\"access_token\":\"bad\\x\"}"), None);
    assert_eq!(decode_token("{\"other_field\":\"abc\"}"), None);
    assert_eq!(decode_token("{\"access_token\":\"a\"b\"}"), None);
}

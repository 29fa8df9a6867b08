use rat::oauth::AuthError;
use rat::token::{CenterDeviceToken, JsonToken, PocketToken, SlackToken};

#[test]
fn pocket_token_from_json() {
    let token = PocketToken::from_json(br#"{"access_token":"abc","username":"bob"}"#).unwrap();
    assert_eq!(token.access_token, "abc");
    assert_eq!(token.username, "bob");
}

#[test]
fn invalid_json_is_a_deserialization_error() {
    assert_eq!(PocketToken::from_json(b"not json").err(), Some(AuthError::DeserializationError));
    assert_eq!(CenterDeviceToken::from_json(b"not json").err(), Some(AuthError::DeserializationError));
    assert_eq!(SlackToken::from_json(b"not json").err(), Some(AuthError::DeserializationError));
}

#[test]
fn missing_member_gives_no_partial_token() {
    assert_eq!(PocketToken::from_json(br#"{"access_token":"abc"}"#).err(), Some(AuthError::DeserializationError));
    assert_eq!(
        PocketToken::from_json(br#"{"access_token":"abc","username":7}"#).err(),
        Some(AuthError::DeserializationError)
    );
}

#[test]
fn centerdevice_token_checks_expiry_range() {
    let ok = br#"{"token_type":"bearer","expires_in":4294967295,"refresh_token":"r","access_token":"a"}"#;
    assert_eq!(CenterDeviceToken::from_json(ok).unwrap().expires_in, u32::MAX);
    let too_big = br#"{"token_type":"bearer","expires_in":4294967296,"refresh_token":"r","access_token":"a"}"#;
    assert_eq!(CenterDeviceToken::from_json(too_big).err(), Some(AuthError::DeserializationError));
    let negative = br#"{"token_type":"bearer","expires_in":-1,"refresh_token":"r","access_token":"a"}"#;
    assert_eq!(CenterDeviceToken::from_json(negative).err(), Some(AuthError::DeserializationError));
}

#[test]
fn slack_token_from_json() {
    let body = br#"{"ok":true,"access_token":"xoxp","scope":"read","user_id":"U1","team_name":"T","team_id":"T1"}"#;
    let token = SlackToken::from_json(body).unwrap();
    assert!(token.ok);
    assert_eq!(token.access_token, "xoxp");
    assert_eq!(token.user_id, "U1");
    assert_eq!(token.team_name, "T");
    assert_eq!(token.team_id, "T1");
    let no_ok = br#"{"access_token":"xoxp","scope":"read","user_id":"U1","team_name":"T","team_id":"T1"}"#;
    assert_eq!(SlackToken::from_json(no_ok).err(), Some(AuthError::DeserializationError));
}

#[test]
fn escaped_strings_are_decoded() {
    let token = PocketToken::from_json("{\"access_token\":\"a\\\"b\",\"username\":\"caf\u{e9}\"}".as_bytes()).unwrap();
    assert_eq!(token.access_token, "a\"b");
    assert_eq!(token.username, "caf\u{e9}");
}

#[test]
fn tokens_from_members() {
    let t = PocketToken::from_members(Some("a".to_string()), Some("u".to_string())).unwrap();
    assert_eq!((t.access_token.as_str(), t.username.as_str()), ("a", "u"));
    assert_eq!(PocketToken::from_members(None, Some("u".to_string())).err(), Some(AuthError::DeserializationError));
    let c = CenterDeviceToken::from_members(Some("bearer".to_string()), Some(60), Some("r".to_string()), Some("a".to_string()))
        .unwrap();
    assert_eq!(c.expires_in, 60);
    assert_eq!(c.expires_in_days(), 0);
    let long = CenterDeviceToken::from_members(Some("b".to_string()), Some(2 * 86400 + 5), Some("r".to_string()), Some("a".to_string()))
        .unwrap();
    assert_eq!(long.expires_in_days(), 2);
    assert_eq!(
        CenterDeviceToken::from_members(Some("b".to_string()), Some(1 << 40), Some("r".to_string()), Some("a".to_string())).err(),
        Some(AuthError::DeserializationError)
    );
}

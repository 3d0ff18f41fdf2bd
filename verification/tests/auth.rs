use hanzo_tunnel::auth::AuthToken;
use hanzo_tunnel::json::JsonValue;

#[test]
fn detect_jwt() {
    let token = AuthToken::from_string("eyJ0eXAiOiJKV1QiLCJhbGciOiJSUzI1NiJ9.payload.signature");
    assert!(matches!(token, AuthToken::Jwt { .. }));
    assert!(token.bearer().starts_with("eyJ"));
}

#[test]
fn detect_api_key() {
    let token = AuthToken::from_string("hk-abc123def456");
    assert!(matches!(token, AuthToken::ApiKey { .. }));
    assert_eq!(token.bearer(), "hk-abc123def456");
}

#[test]
fn two_dots_make_a_jwt() {
    assert!(matches!(AuthToken::from_string("a.b"), AuthToken::ApiKey { .. }));
    assert!(matches!(AuthToken::from_string("a.b.c"), AuthToken::Jwt { .. }));
    assert!(matches!(AuthToken::from_string(".."), AuthToken::Jwt { .. }));
    assert!(matches!(AuthToken::from_string("a.b.c.d"), AuthToken::Jwt { .. }));
    assert!(matches!(AuthToken::from_string(""), AuthToken::ApiKey { .. }));
    assert_eq!(AuthToken::from_string("").bearer(), "");
}

#[test]
fn tokens_are_read_back() {
    let key = AuthToken::from_string("hk-1");
    assert_eq!(key.to_value().to_text(), r#"{"key":"hk-1","type":"api_key"}"#);
    let read = AuthToken::from_value(&key.to_value()).unwrap();
    assert!(matches!(read, AuthToken::ApiKey { .. }));
    assert_eq!(read.bearer(), "hk-1");

    let jwt = JsonValue::parse(r#"{"type":"jwt","token":"a.b.c"}"#).unwrap();
    assert!(matches!(AuthToken::from_value(&jwt), Some(AuthToken::Jwt { .. })));
    let other = JsonValue::parse(r#"{"type":"cookie","token":"a"}"#).unwrap();
    assert!(AuthToken::from_value(&other).is_none());
    let lacking = JsonValue::parse(r#"{"type":"jwt","key":"a"}"#).unwrap();
    assert!(AuthToken::from_value(&lacking).is_none());
}

#[test]
fn fields_of_tokens_are_given_once() {
    let key = AuthToken::from_string("hk-1");
    assert_eq!(AuthToken::from_json(&key.to_value().to_text()).unwrap().bearer(), "hk-1");
    for text in [
        r#"{"type":"jwt","type":"jwt","token":"a"}"#,
        r#"{"type":"jwt","token":"a","token":"a"}"#,
        r#"{"type":"api_key","key":"a","key":"b"}"#,
        "",
    ] {
        assert!(AuthToken::from_json(text).is_none(), "{}", text);
    }
    assert_eq!(AuthToken::from_json(r#"{"type":"jwt","token":"a","key":1,"key":2}"#).unwrap().bearer(), "a");
    assert_eq!(AuthToken::from_json(r#"["api_key","k"]"#).unwrap().bearer(), "k");
}

use hanzo_tunnel::expose::ExposedUrl;
use hanzo_tunnel::json::{JsonValue, ObjectBuilder};
use hanzo_tunnel::registry::{Instance, InvokeParams, InvokeResult};
use hanzo_tunnel::AppKind;

fn instance() -> Instance {
    Instance {
        instance_id: "abc".into(),
        app_kind: AppKind::Dev,
        display_name: "z-macbook".into(),
        capabilities: vec!["chat".into()],
        commands: vec![],
        version: "0.6.74".into(),
        platform: "darwin-arm64".into(),
        cwd: Some("/Users/z/work".into()),
        connected: true,
        connected_at_ms: 1234567890000,
        session_url: Some("https://app.hanzo.bot/i/abc".into()),
        exposed: vec![],
        metadata: JsonValue::Null,
    }
}

#[test]
fn serialize_instance() {
    let inst = instance();
    let json = inst.to_value().to_text();
    assert!(json.contains("\"app_kind\":\"dev\""));
    assert!(json.contains("\"connected\":true"));
}

#[test]
fn invoke_params_default_timeout() {
    let json = r#"{"instance_id":"abc","command":"chat.send","params":{"message":"hi"}}"#;
    let params: InvokeParams = InvokeParams::from_json(json).unwrap();
    assert_eq!(params.timeout_ms, 30_000);
}

#[test]
fn invoke_result_roundtrip() {
    let mut payload = ObjectBuilder::new();
    payload.put("turn_id", JsonValue::text("t1"));
    let result = InvokeResult {
        ok: true,
        payload: Some(payload.build()),
        error: None,
    };
    let json = result.to_value().to_text();
    assert!(!json.contains("\"error\""));
    let parsed: InvokeResult = InvokeResult::from_json(&json).unwrap();
    assert!(parsed.ok);
}

#[test]
fn instances_are_read_back() {
    let mut inst = instance();
    inst.exposed = vec![ExposedUrl { name: "n".into(), url: "u".into(), ttl: 9 }];
    let read = Instance::from_json(&inst.to_value().to_text()).unwrap();
    assert_eq!(read.to_value().to_text(), inst.to_value().to_text());
    assert_eq!(read.exposed[0].ttl, 9);
    assert_eq!(read.connected_at_ms, 1234567890000);
}

#[test]
fn instances_have_defaults() {
    let json = r#"{"instance_id":"a","app_kind":"node","display_name":"d","capabilities":["c"]}"#;
    let read = Instance::from_value(&JsonValue::parse(json).unwrap()).unwrap();
    assert!(!read.connected);
    assert_eq!(read.connected_at_ms, 0);
    assert!(read.exposed.is_empty());
    assert_eq!(read.session_url, None);
    let json = r#"{"instance_id":"a","app_kind":"node","display_name":"d"}"#;
    assert!(Instance::from_value(&JsonValue::parse(json).unwrap()).is_none());
    let json = r#"{"instance_id":"a","app_kind":"node","display_name":"d","capabilities":[],"exposed":[{}]}"#;
    assert!(Instance::from_value(&JsonValue::parse(json).unwrap()).is_none());
}

#[test]
fn invocations_are_read_back() {
    let p = InvokeParams {
        instance_id: "i".into(),
        command: "c".into(),
        params: JsonValue::Bool(false),
        timeout_ms: 5,
    };
    assert_eq!(
        p.to_value().to_text(),
        r#"{"command":"c","instance_id":"i","params":false,"timeout_ms":5}"#
    );
    let read = InvokeParams::from_value(&p.to_value()).unwrap();
    assert_eq!(read.timeout_ms, 5);
    let r = InvokeResult { ok: false, payload: Some(JsonValue::Null), error: Some("e".into()) };
    let read = InvokeResult::from_value(&r.to_value()).unwrap();
    assert!(read.payload.is_none());
    assert_eq!(read.error.as_deref(), Some("e"));
    assert!(InvokeResult::from_value(&JsonValue::parse("[true]").unwrap()).is_none());
    assert!(InvokeResult::from_value(&JsonValue::parse("[true,null,null]").unwrap()).is_some());
}

#[test]
fn fields_of_records_are_given_once() {
    for text in [
        r#"{"instance_id":"a","instance_id":"b","command":"c"}"#,
        r#"{"instance_id":"a","command":"c","params":1,"params":1}"#,
        r#"{"instance_id":"a","command":"c","timeout_ms":1,"timeout_ms":1}"#,
        "junk",
    ] {
        assert!(InvokeParams::from_json(text).is_none(), "{}", text);
    }
    let text = r#"{"instance_id":"a","command":"c","x":1,"x":2,"params":{"p":1,"p":2}}"#;
    assert_eq!(InvokeParams::from_json(text).unwrap().params.to_text(), r#"{"p":2}"#);
    for text in [r#"{"ok":true,"ok":true}"#, r#"{"ok":true,"error":null,"error":"e"}"#] {
        assert!(InvokeResult::from_json(text).is_none(), "{}", text);
    }
    assert!(InvokeResult::from_json(r#"{"ok":true,"id":1,"id":1}"#).is_some());
    let head = r#"{"instance_id":"a","app_kind":"node","display_name":"d","capabilities":[]"#;
    for tail in [
        r#","app_kind":"node"}"#,
        r#","metadata":1,"metadata":1}"#,
        r#","exposed":[],"exposed":[]}"#,
        r#","exposed":[{"name":"n","url":"u"},{"name":"n","url":"u","url":"v"}]}"#,
        r#","exposed":[{"name":"n","name":"n","url":"u"}]}"#,
    ] {
        assert!(Instance::from_json(&(head.to_string() + tail)).is_none(), "{}", tail);
    }
    for tail in ["}", r#","exposed":[ ]}"#, r#","exposed":[{"name":"n","url":"u","x":1,"x":1}]}"#] {
        assert!(Instance::from_json(&(head.to_string() + tail)).is_some(), "{}", tail);
    }
    let text = r#"{"instance_id":"a","app_kind":{"dev":null,"dev":null},"display_name":"d","capabilities":[]}"#;
    assert!(Instance::from_json(text).is_none());
    let text = r#"{"instance_id":"a","app_kind":{"dev":null},"display_name":"d","capabilities":[]}"#;
    assert!(Instance::from_json(text).is_some());
}

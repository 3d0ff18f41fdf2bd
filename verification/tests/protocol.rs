use hanzo_tunnel::json::{JsonValue, ObjectBuilder};
use hanzo_tunnel::protocol::{AppKind, EventPayload, Frame, RegisterPayload, ResponsePayload};

fn object(name: &str, value: &str) -> JsonValue {
    let mut o = ObjectBuilder::new();
    o.put(name, JsonValue::text(value));
    o.build()
}

#[test]
fn serialize_register() {
    let frame = Frame::Register(RegisterPayload {
        instance_id: "abc-123".into(),
        app_kind: AppKind::Dev,
        display_name: "z-macbook".into(),
        capabilities: vec!["chat".into(), "exec".into()],
        version: "0.6.74".into(),
        platform: "darwin-arm64".into(),
        cwd: Some("/Users/z/work".into()),
        commands: vec![],
        metadata: JsonValue::Null,
    });

    let json = frame.to_json();
    assert!(json.contains("\"type\":\"register\""));
    assert!(json.contains("\"app_kind\":\"dev\""));
}

#[test]
fn deserialize_registered() {
    let json = r#"{"type":"registered","instance_id":"abc-123","session_url":"https://app.hanzo.bot/i/abc-123"}"#;
    let frame: Frame = Frame::from_json(json).unwrap();
    match frame {
        Frame::Registered(r) => {
            assert_eq!(r.instance_id, "abc-123");
            assert_eq!(
                r.session_url.unwrap(),
                "https://app.hanzo.bot/i/abc-123"
            );
        }
        _ => panic!("expected Registered frame"),
    }
}

#[test]
fn serialize_event() {
    let frame = Frame::Event(EventPayload {
        event: "chat.delta".into(),
        data: object("text", "Let me fix..."),
    });
    let json = frame.to_json();
    assert!(json.contains("\"type\":\"event\""));
    assert!(json.contains("chat.delta"));
}

#[test]
fn deserialize_command() {
    let json = r#"{"type":"command","id":"req-1","method":"chat.send","params":{"message":"fix the bug"}}"#;
    let frame: Frame = Frame::from_json(json).unwrap();
    match frame {
        Frame::Command(c) => {
            assert_eq!(c.id, "req-1");
            assert_eq!(c.method, "chat.send");
            assert_eq!(c.params.get_str("message"), Some("fix the bug"));
        }
        _ => panic!("expected Command frame"),
    }
}

#[test]
fn serialize_response() {
    let frame = Frame::Response(ResponsePayload {
        id: "req-1".into(),
        ok: true,
        data: Some(object("turn_id", "t1")),
        error: None,
    });
    let json = frame.to_json();
    assert!(json.contains("\"ok\":true"));
}

#[test]
fn ping_pong_roundtrip() {
    let ping_json = Frame::Ping.to_json();
    assert!(ping_json.contains("\"type\":\"ping\""));

    let pong: Frame = Frame::from_json(&ping_json.replace("ping", "pong")).unwrap();
    assert!(matches!(pong, Frame::Pong));
}

#[test]
fn app_kind_display() {
    assert_eq!(AppKind::Dev.to_string(), "dev");
    assert_eq!(AppKind::Node.to_string(), "node");
    assert_eq!(AppKind::Extension.to_string(), "extension");
}

#[test]
fn frames_survive_the_wire() {
    let frame = Frame::Register(RegisterPayload {
        instance_id: "a".into(),
        app_kind: AppKind::Desktop,
        display_name: "b \"c\" \u{1F600}".into(),
        capabilities: vec!["x".into(), "".into()],
        version: "1".into(),
        platform: "p".into(),
        cwd: None,
        commands: vec!["run".into()],
        metadata: JsonValue::signed(-5),
    });
    assert_eq!(
        frame.to_json(),
        "{\"type\":\"register\",\"instance_id\":\"a\",\"app_kind\":\"desktop\",\"display_name\":\"b \\\"c\\\" \u{1F600}\",\"capabilities\":[\"x\",\"\"],\"version\":\"1\",\"platform\":\"p\",\"commands\":[\"run\"],\"metadata\":-5}"
    );
    match Frame::from_json(&frame.to_json()) {
        Some(Frame::Register(p)) => {
            assert_eq!(p.instance_id, "a");
            assert_eq!(p.app_kind, AppKind::Desktop);
            assert_eq!(p.display_name, "b \"c\" \u{1F600}");
            assert_eq!(p.capabilities, vec!["x".to_string(), "".to_string()]);
            assert_eq!(p.version, "1");
            assert_eq!(p.platform, "p");
            assert_eq!(p.cwd, None);
            assert_eq!(p.commands, vec!["run".to_string()]);
            assert_eq!(p.metadata.to_text(), "-5");
        }
        _ => panic!("expected Register frame"),
    }
}

#[test]
fn a_response_with_null_data_reads_back_without() {
    let frame = Frame::Response(ResponsePayload {
        id: "r".into(),
        ok: true,
        data: Some(JsonValue::Null),
        error: None,
    });
    assert_eq!(frame.to_json(), r#"{"type":"response","id":"r","ok":true,"data":null}"#);
    match Frame::from_json(&frame.to_json()) {
        Some(Frame::Response(p)) => assert!(p.data.is_none()),
        _ => panic!("expected Response frame"),
    }
}

#[test]
fn defaults_fill_what_is_left_out() {
    let json = r#"{"type":"register","instance_id":"a","app_kind":"bot","display_name":"n","capabilities":[],"more":1}"#;
    match Frame::from_json(json) {
        Some(Frame::Register(p)) => {
            assert_eq!(p.app_kind, AppKind::Bot);
            assert_eq!(p.version, "");
            assert_eq!(p.platform, "");
            assert_eq!(p.cwd, None);
            assert!(p.commands.is_empty());
            assert!(matches!(p.metadata, JsonValue::Null));
        }
        _ => panic!("expected Register frame"),
    }
    match Frame::from_json(r#"{"type":"command","id":"i","method":"m"}"#) {
        Some(Frame::Command(c)) => assert!(matches!(c.params, JsonValue::Null)),
        _ => panic!("expected Command frame"),
    }
}

#[test]
fn frames_may_be_listed() {
    match Frame::from_json(r#"["command","i","m",[1]]"#) {
        Some(Frame::Command(c)) => {
            assert_eq!(c.id, "i");
            assert_eq!(c.method, "m");
            assert_eq!(c.params.to_text(), "[1]");
        }
        _ => panic!("expected Command frame"),
    }
    assert!(matches!(Frame::from_json(r#"["ping"]"#), Some(Frame::Ping)));
    assert!(Frame::from_json(r#"["ping",1]"#).is_none());
    assert!(Frame::from_json(r#"["registered","i"]"#).is_none());
    assert!(Frame::from_json(r#"["command","i","m",null,1]"#).is_none());
}

#[test]
fn what_is_no_frame_is_not_read() {
    for text in [
        "",
        "ping",
        "{",
        "null",
        "[]",
        "{}",
        r#"{"type":1}"#,
        r#"{"type":"Ping"}"#,
        r#"{"type":"event","event":"e"}"#,
        r#"{"type":"event","data":1}"#,
        r#"{"type":"event","event":1,"data":1}"#,
        r#"{"type":"response","id":"r","ok":"yes"}"#,
        r#"{"type":"registered"}"#,
        r#"{"type":"registered","instance_id":"i","session_url":1}"#,
        r#"{"type":"register","instance_id":"a","app_kind":"toaster","display_name":"n","capabilities":[]}"#,
        r#"{"type":"register","instance_id":"a","app_kind":"dev","display_name":"n","capabilities":[1]}"#,
    ] {
        assert!(Frame::from_json(text).is_none(), "{}", text);
    }
}

#[test]
fn an_app_kind_may_be_an_object() {
    let json = r#"{"type":"register","instance_id":"a","app_kind":{"dev":null},"display_name":"n","capabilities":[]}"#;
    assert!(matches!(Frame::from_json(json), Some(Frame::Register(_))));
    let json = r#"{"type":"register","instance_id":"a","app_kind":{"dev":1},"display_name":"n","capabilities":[]}"#;
    assert!(Frame::from_json(json).is_none());
}

#[test]
fn fields_are_given_once() {
    for text in [
        r#"{"type":"ping","type":"ping"}"#,
        r#"{"type":"registered","instance_id":"a","instance_id":"a"}"#,
        r#"{"type":"registered","instance_id":"a","session_url":null,"session_url":"u"}"#,
        r#"{"type":"event","event":"e","data":1,"data":2}"#,
        r#"{"type":"command","id":"i","method":"m","id":"i"}"#,
        r#"{"type":"command","id":"i","\u0069d":"j","method":"m"}"#,
        r#" { "type" : "command" , "id" : "i" , "method" : "m" , "params" : { } , "params" : 1 } "#,
        r#"{"type":"response","id":"r","ok":true,"ok":true}"#,
        r#"{"type":"response","id":"r","ok":true,"data":{"x":"}\"{"},"data":[1]}"#,
        r#"{"type":"register","instance_id":"a","app_kind":"dev","app_kind":"dev","display_name":"n","capabilities":[]}"#,
        r#"{"type":"register","instance_id":"a","app_kind":{"dev":null,"dev":null},"display_name":"n","capabilities":[]}"#,
        r#"["register","a",{"dev":null,"dev":null},"n",[],"v","p",null,[],null]"#,
    ] {
        assert!(JsonValue::parse(text).is_some(), "{}", text);
        assert!(Frame::from_json(text).is_none(), "{}", text);
    }
    for text in [
        r#"{"type":"ping","x":1,"x":2}"#,
        r#"{"type":"ping","id":1,"id":2}"#,
        r#"{"type":"command","id":"i","method":"m","params":{"a":1,"a":2}}"#,
        r#"{"type":"command","id":"id","method":"method","params":"\"id\":"}"#,
        r#"{"type":"command","id":"i","method":"m","event":1,"event":2}"#,
        r#"["register","a",{"dev":null},"n",[],"v","p",null,[],null]"#,
    ] {
        assert!(Frame::from_json(text).is_some(), "{}", text);
    }
}

use hanzo_tunnel::gateway::{
    challenges, connect_gateway, connect_request, gateway_dial, hear_answer, receive, run_gateway,
    GatewayAction, GatewayConfig, GatewayConnection, GatewayError, GatewayEvent, GatewayFrame,
    Handshake, HandshakeAction, HandshakeEvent, HandshakePhase, NodeInvokeRequest,
};
use hanzo_tunnel::json::{JsonValue, ObjectBuilder};
use hanzo_tunnel::timing::Interval;
use hanzo_tunnel::{AppKind, TunnelError};

fn config() -> GatewayConfig {
    let mut c = GatewayConfig::for_client("client".into());
    c.auth_token = "secret".into();
    c.display_name = "box".into();
    c.version = "1".into();
    c.capabilities = vec!["chat".into()];
    c.commands = vec!["a".into(), "b".into()];
    c
}

fn connection() -> GatewayConnection {
    GatewayConnection::new("node".into(), "conn".into())
}

fn handshake() -> Handshake {
    Handshake::begin_as(config(), "linux-x86_64".into(), "c-1".into())
}

fn hello_phase() -> Handshake {
    let mut h = handshake();
    let challenge = r#"{"type":"event","event":"connect.challenge","payload":{"nonce":"n"}}"#;
    connect_gateway(&mut h, HandshakeEvent::Text(challenge.into()));
    assert_eq!(h.phase, HandshakePhase::Hello);
    h
}

#[test]
fn gateway_frame_serialization() {
    let mut params = ObjectBuilder::new();
    params.put("minProtocol", JsonValue::unsigned(1));
    let frame = GatewayFrame::Req {
        id: "req-1".into(),
        method: "connect".into(),
        params: Some(params.build()),
    };
    let json = frame.to_json();
    assert!(json.contains("\"type\":\"req\""));
    assert!(json.contains("\"method\":\"connect\""));
}

#[test]
fn gateway_event_deserialization() {
    let json = r#"{"type":"event","event":"node.invoke.request","payload":{"id":"abc","nodeId":"n1","command":"system.run","paramsJSON":"{\"cmd\":\"ls\"}"}}"#;
    let frame: GatewayFrame = GatewayFrame::from_json(json).unwrap();
    match frame {
        GatewayFrame::Event { event, payload, .. } => {
            assert_eq!(event, "node.invoke.request");
            assert!(payload.is_some());
        }
        _ => panic!("expected Event"),
    }
}

#[test]
fn default_gateway_config() {
    let config = GatewayConfig::default();
    assert_eq!(config.url, "ws://127.0.0.1:18789");
    assert_eq!(config.auth_method, "token");
    assert!(matches!(config.app_kind, AppKind::Dev));
}

#[test]
fn rest_of_the_default_config() {
    let config = GatewayConfig::default();
    assert_eq!(config.auth_token, "");
    assert_eq!(config.client_id.len(), 36);
    assert_ne!(config.client_id, GatewayConfig::default().client_id);
    assert_eq!(config.connect_timeout, Interval::from_secs(10));
    assert_eq!(config.heartbeat_interval, Interval::from_secs(30));
    let dial = gateway_dial(&config).ok().unwrap();
    assert_eq!(dial.url, "ws://127.0.0.1:18789");
    assert_eq!(dial.authorization, None);
    assert_eq!(dial.timeout, Interval::from_secs(10));
    let mut config = config;
    config.url = "".into();
    assert!(gateway_dial(&config).is_err());
}

#[test]
fn gateway_frames_survive_the_wire() {
    let frames = [
        GatewayFrame::Req { id: "i".into(), method: "m".into(), params: None },
        GatewayFrame::Res {
            id: "i".into(),
            ok: false,
            payload: Some(JsonValue::unsigned(1)),
            error: Some(GatewayError {
                code: "C".into(),
                message: "M".into(),
                details: Some(JsonValue::text("d")),
            }),
        },
        GatewayFrame::Res { id: "i".into(), ok: true, payload: None, error: None },
        GatewayFrame::Event { event: "e".into(), payload: None, seq: Some(u64::MAX) },
    ];
    let texts = [
        r#"{"type":"req","id":"i","method":"m"}"#,
        r#"{"type":"res","id":"i","ok":false,"payload":1,"error":{"code":"C","details":"d","message":"M"}}"#,
        r#"{"type":"res","id":"i","ok":true}"#,
        r#"{"type":"event","event":"e","seq":18446744073709551615}"#,
    ];
    for (frame, text) in frames.iter().zip(texts) {
        assert_eq!(frame.to_json(), text);
        assert_eq!(GatewayFrame::from_json(text).unwrap().to_json(), text);
    }
}

#[test]
fn what_is_no_gateway_frame_is_not_read() {
    for text in [
        "",
        "{}",
        r#"{"type":"hello-ok"}"#,
        r#"{"type":"req","id":"i"}"#,
        r#"{"type":"res","id":"i"}"#,
        r#"{"type":"res","id":"i","ok":true,"error":{"code":"c"}}"#,
        r#"{"type":"event","event":"e","seq":-1}"#,
        r#"["req","i","m"]"#,
    ] {
        assert!(GatewayFrame::from_json(text).is_none(), "{}", text);
    }
    assert!(GatewayFrame::from_json(r#"["req","i","m",null]"#).is_some());
    assert!(GatewayFrame::from_json(r#"{"type":"res","id":"i","ok":true,"error":["c","m",null]}"#).is_some());
}

#[test]
fn results_echo_the_request() {
    let conn = GatewayConnection::new("node".into(), "conn".into());
    let frame = conn.invoke_result_as("f".into(), "r-7", true, Some(JsonValue::text("x")), None);
    assert_eq!(
        frame.to_json(),
        r#"{"type":"req","id":"f","method":"node.invoke.result","params":{"error":null,"id":"r-7","nodeId":"node","ok":true,"payloadJSON":"\"x\""}}"#
    );
    let error = GatewayError { code: "C".into(), message: "M".into(), details: None };
    let frame = conn.invoke_result_as("f".into(), "r", false, None, Some(error));
    assert_eq!(
        frame.to_json(),
        r#"{"type":"req","id":"f","method":"node.invoke.result","params":{"error":{"code":"C","message":"M"},"id":"r","nodeId":"node","ok":false,"payloadJSON":null}}"#
    );
    match conn.send_invoke_result("r", true, None, None) {
        GatewayFrame::Req { id, .. } => assert_eq!(id.len(), 36),
        _ => panic!("expected a request"),
    }
}

#[test]
fn events_carry_their_payload_as_text() {
    let payload = JsonValue::parse(r#"{"a":[1,"\"",null]}"#);
    match connection().send_invoke_result("r", true, payload, None) {
        GatewayFrame::Req { params: Some(p), .. } => {
            let read = JsonValue::parse(p.get_str("payloadJSON").unwrap()).unwrap();
            assert_eq!(read.to_text(), r#"{"a":[1,"\"",null]}"#);
        }
        _ => panic!("expected a request"),
    }
    let frame = GatewayConnection::node_event_as("f".into(), "e", Some(JsonValue::unsigned(3)));
    assert_eq!(
        frame.to_json(),
        r#"{"type":"req","id":"f","method":"node.event","params":{"event":"e","payloadJSON":"3"}}"#
    );
    let conn = GatewayConnection::new("node".into(), "conn".into());
    match conn.send_node_event("e", None) {
        GatewayFrame::Req { id, method, params } => {
            assert_eq!(id.len(), 36);
            assert_eq!(method, "node.event");
            assert_eq!(params.unwrap().to_text(), r#"{"event":"e","payloadJSON":null}"#);
        }
        _ => panic!("expected a request"),
    }
}

#[test]
fn requests_are_numbered() {
    let mut conn = GatewayConnection::new("node".into(), "conn".into());
    let mut ids = vec![];
    for _ in 0..11 {
        match conn.request("m", None) {
            GatewayFrame::Req { id, .. } => ids.push(id),
            _ => panic!("expected a request"),
        }
    }
    assert_eq!(ids[0], "req-1");
    assert_eq!(ids[10], "req-11");
    conn.next_id = u64::MAX;
    match conn.request("m", Some(JsonValue::Null)) {
        GatewayFrame::Req { id, params, .. } => {
            assert_eq!(id, "req-18446744073709551615");
            assert!(params.is_some());
        }
        _ => panic!("expected a request"),
    }
    assert_eq!(conn.next_id, 0);
}

#[test]
fn the_connect_request_introduces_the_client() {
    assert_eq!(
        connect_request(&config(), "p", "c").to_json(),
        r#"{"type":"req","id":"c","method":"connect","params":{"auth":{"token":"secret"},"caps":["chat"],"client":{"displayName":"box","id":"client","mode":"node","platform":"dev-p","version":"1"},"commands":["a","b"],"maxProtocol":1,"minProtocol":1,"role":"node"}}"#
    );
    let mut c = config();
    c.auth_method = "password".into();
    assert!(connect_request(&c, "p", "c").to_json().contains(r#""auth":{"password":"secret"}"#));
    c.auth_method = "other".into();
    assert!(connect_request(&c, "p", "c").to_json().contains(r#""auth":{"token":"secret"}"#));
    for (kind, platform) in [
        (AppKind::Dev, r#""platform":"dev-p""#),
        (AppKind::Node, r#""platform":"node-p""#),
        (AppKind::Desktop, r#""platform":"desktop-p""#),
        (AppKind::Bot, r#""platform":"bot-p""#),
        (AppKind::Extension, r#""platform":"extension-p""#),
    ] {
        c.app_kind = kind;
        assert!(connect_request(&c, "p", "c").to_json().contains(platform));
    }
}

#[test]
fn the_challenge_is_answered() {
    let mut h = handshake();
    assert_eq!(h.limit(), Interval::from_secs(5));
    for ignored in ["junk", r#"{"type":"event","event":"tick"}"#, r#"{"type":"hello-ok"}"#] {
        assert!(matches!(connect_gateway(&mut h, HandshakeEvent::Text(ignored.into())), HandshakeAction::Wait));
        assert_eq!(h.phase, HandshakePhase::Challenge);
    }
    let text = r#"{"type":"event","event":"connect.challenge"}"#;
    match connect_gateway(&mut h, HandshakeEvent::Text(text.into())) {
        HandshakeAction::Send(s) => assert_eq!(s, connect_request(&config(), "linux-x86_64", "c-1").to_json()),
        _ => panic!("expected the connect request"),
    }
    assert_eq!(h.phase, HandshakePhase::Hello);
    assert_eq!(h.limit(), Interval::from_secs(10));
    assert!(challenges(&GatewayFrame::from_json(text)));
    assert!(!challenges(&None));
}

#[test]
fn a_hello_makes_a_connection() {
    let mut h = hello_phase();
    let hello = r#"{"type":"hello-ok","server":{"connId":"conn-9"}}"#;
    match connect_gateway(&mut h, HandshakeEvent::Text(hello.into())) {
        HandshakeAction::Done(c) => {
            assert_eq!(c.node_id, "client");
            assert_eq!(c.conn_id, "conn-9");
            assert_eq!(c.next_id, 1);
        }
        _ => panic!("expected a connection"),
    }
    for text in [r#"{"type":"hello-ok"}"#, r#"{"type":"hello-ok","server":{"connId":1}}"#] {
        match hear_answer(JsonValue::parse(text), None, "c-1", "client") {
            HandshakeAction::Done(c) => assert_eq!(c.conn_id, "unknown"),
            _ => panic!("expected a connection"),
        }
    }
}

#[test]
fn a_refused_client_is_told_why() {
    let refusal = r#"{"type":"res","id":"c-1","ok":false,"error":{"code":"X","message":"bad token"}}"#;
    match connect_gateway(&mut hello_phase(), HandshakeEvent::Text(refusal.into())) {
        HandshakeAction::Fail(e) => assert_eq!(e.to_string(), "auth error: bad token"),
        _ => panic!("expected a refusal"),
    }
    let refusal = r#"{"type":"res","id":"c-1","ok":false}"#;
    match connect_gateway(&mut hello_phase(), HandshakeEvent::Text(refusal.into())) {
        HandshakeAction::Fail(TunnelError::Auth(e)) => assert_eq!(e, "connect rejected"),
        _ => panic!("expected a refusal"),
    }
    for text in [
        r#"{"type":"res","id":"other","ok":false}"#,
        r#"{"type":"res","id":"c-1","ok":true}"#,
        r#"{"type":"res","id":"c-1","ok":false,"ok":false}"#,
        r#"{"type":"event","event":"connect.challenge"}"#,
        "junk",
    ] {
        let action = connect_gateway(&mut hello_phase(), HandshakeEvent::Text(text.into()));
        assert!(matches!(action, HandshakeAction::Wait), "{}", text);
    }
}

#[test]
fn handshakes_fail() {
    for (mut h, event, text) in [
        (handshake(), HandshakeEvent::Ended, "connection error: no challenge received"),
        (handshake(), HandshakeEvent::TimedOut, "connection error: challenge timeout"),
        (hello_phase(), HandshakeEvent::Ended, "connection error: no hello-ok received"),
        (hello_phase(), HandshakeEvent::TimedOut, "connection error: hello-ok timeout"),
        (hello_phase(), HandshakeEvent::SendFailed("s".into()), "connection error: s"),
    ] {
        match connect_gateway(&mut h, event) {
            HandshakeAction::Fail(e) => assert_eq!(e.to_string(), text),
            _ => panic!("expected a failure"),
        }
    }
    assert!(matches!(connect_gateway(&mut handshake(), HandshakeEvent::OtherMessage), HandshakeAction::Wait));
    assert!(matches!(connect_gateway(&mut hello_phase(), HandshakeEvent::Sent), HandshakeAction::Wait));
    assert_eq!(Handshake::begin(config(), "p".into()).connect_id.len(), 36);
}

#[test]
fn requests_to_invoke_are_handed_on() {
    let text = r#"{"type":"event","event":"node.invoke.request","payload":{"id":"abc","nodeId":"n1","command":"system.run","paramsJSON":"{\"cmd\":\"ls\"}","timeoutMs":5}}"#;
    let mut conn = connection();
    match run_gateway(&mut conn, GatewayEvent::Text(text.into())) {
        GatewayAction::Invoke(r) => {
            assert_eq!(r.id, "abc");
            assert_eq!(r.node_id, "n1");
            assert_eq!(r.command, "system.run");
            assert_eq!(r.params.unwrap().get_str("cmd"), Some("ls"));
            assert_eq!(r.timeout_ms, Some(5));
        }
        _ => panic!("expected a request"),
    }
    let r = NodeInvokeRequest::from_payload(&JsonValue::parse(r#"{"paramsJSON":"{"}"#).unwrap());
    assert_eq!((r.id.as_str(), r.node_id.as_str(), r.command.as_str()), ("", "", ""));
    assert!(r.params.is_none());
    assert_eq!(r.timeout_ms, None);
    let text = r#"{"type":"event","event":"node.invoke.request"}"#;
    assert!(matches!(run_gateway(&mut conn, GatewayEvent::Text(text.into())), GatewayAction::Wait));
}

#[test]
fn events_of_the_gateway() {
    let mut conn = connection();
    let mut run_gateway = |event| run_gateway(&mut conn, event);
    let text = r#"{"type":"event","event":"chat","payload":[1]}"#;
    match run_gateway(GatewayEvent::Text(text.into())) {
        GatewayAction::Event(name, payload) => {
            assert_eq!(name, "chat");
            assert_eq!(payload.unwrap().to_text(), "[1]");
        }
        _ => panic!("expected an event"),
    }
    for text in [
        r#"{"type":"event","event":"tick"}"#,
        r#"{"type":"res","id":"i","ok":true}"#,
        r#"{"type":"req","id":"i","method":"m"}"#,
        "junk",
    ] {
        assert!(matches!(run_gateway(GatewayEvent::Text(text.into())), GatewayAction::Wait));
    }
    assert!(matches!(receive(&mut connection(), None), GatewayAction::Wait));
    match run_gateway(GatewayEvent::WsPing(vec![9])) {
        GatewayAction::SendPong(d) => assert_eq!(d, vec![9]),
        _ => panic!("expected a pong"),
    }
    let frame = GatewayFrame::Event { event: "e".into(), payload: None, seq: None };
    match run_gateway(GatewayEvent::Outgoing(frame)) {
        GatewayAction::SendText(s) => assert_eq!(s, r#"{"type":"event","event":"e"}"#),
        _ => panic!("expected a message"),
    }
    assert!(matches!(run_gateway(GatewayEvent::Shutdown(true)), GatewayAction::Close));
    assert!(matches!(run_gateway(GatewayEvent::Shutdown(false)), GatewayAction::Wait));
    assert!(matches!(run_gateway(GatewayEvent::Closed), GatewayAction::End));
    assert!(matches!(run_gateway(GatewayEvent::ReadFailed), GatewayAction::End));
    assert!(matches!(run_gateway(GatewayEvent::OtherMessage), GatewayAction::Wait));
    assert!(matches!(run_gateway(GatewayEvent::Tick), GatewayAction::Wait));
    assert!(matches!(run_gateway(GatewayEvent::Sent(true)), GatewayAction::Wait));
    assert!(matches!(run_gateway(GatewayEvent::Sent(false)), GatewayAction::End));
}

#[test]
fn fields_of_gateway_frames_are_given_once() {
    for text in [
        r#"{"type":"req","type":"req","id":"i","method":"m"}"#,
        r#"{"type":"req","id":"i","method":"m","params":1,"params":1}"#,
        r#"{"type":"res","id":"i","ok":true,"payload":1,"payload":2}"#,
        r#"{"type":"res","id":"i","ok":false,"error":{"code":"c","message":"m","message":"n"}}"#,
        r#"["res","i",false,null,{"code":"c","code":"d","message":"m"}]"#,
        r#"{"type":"event","event":"e","seq":1,"seq":1}"#,
    ] {
        assert!(JsonValue::parse(text).is_some(), "{}", text);
        assert!(GatewayFrame::from_json(text).is_none(), "{}", text);
    }
    for text in [
        r#"{"type":"req","id":"i","method":"m","ok":1,"ok":1}"#,
        r#"{"type":"res","id":"i","ok":false,"error":{"code":"c","message":"m","x":1,"x":2}}"#,
        r#"["res","i",false,null,{"code":"c","message":"m"}]"#,
        r#"{"type":"event","event":"e","payload":{"a":1,"a":2}}"#,
    ] {
        assert!(GatewayFrame::from_json(text).is_some(), "{}", text);
    }
}

#[test]
fn requests_get_their_response() {
    let mut conn = connection();
    conn.request("a", None);
    conn.request("b", None);
    let mut hear = |text: &str| run_gateway(&mut conn, GatewayEvent::Text(text.into()));
    let second = r#"{"type":"res","id":"req-2","ok":true,"payload":[7]}"#;
    let first = r#"{"type":"res","id":"req-1","ok":false,"error":{"code":"C","message":"M"}}"#;
    assert!(matches!(hear(r#"{"type":"event","event":"tick"}"#), GatewayAction::Wait));
    assert!(matches!(hear(r#"{"type":"res","id":"req-3","ok":true}"#), GatewayAction::Wait));
    match hear(second) {
        GatewayAction::Answer(id, reply) => {
            assert_eq!(id, "req-2");
            assert!(reply.ok);
            assert!(reply.error.is_none());
            assert_eq!(reply.payload.unwrap().to_text(), "[7]");
        }
        _ => panic!("expected a reply"),
    }
    match hear(first) {
        GatewayAction::Answer(id, reply) => {
            assert_eq!(id, "req-1");
            assert!(!reply.ok);
            assert_eq!(reply.error.unwrap().message, "M");
        }
        _ => panic!("expected a reply"),
    }
    assert!(matches!(hear(first), GatewayAction::Wait));
    assert!(matches!(hear(second), GatewayAction::Wait));
}

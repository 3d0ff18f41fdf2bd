use hanzo_tunnel::tunnel::{connect_as, platform, sent, Registration, RegistrationEvent};
use hanzo_tunnel::protocol::RegisteredPayload;
use hanzo_tunnel::{connect, connect_and_register};
use hanzo_tunnel::{AppKind, CommandPayload, Frame, TunnelConfig, TunnelConnection, TunnelError};
use hanzo_tunnel::json::JsonValue;

#[test]
fn default_config() {
    let config = TunnelConfig::default();
    assert!(config.relay_url.contains("api.hanzo.ai"));
    assert_eq!(config.channel_size, 256);
    assert!(matches!(config.app_kind, AppKind::Dev));
}

#[test]
fn tunnel_error_display() {
    let err = TunnelError::Connection("refused".into());
    assert_eq!(err.to_string(), "connection error: refused");

    let err = TunnelError::ChannelClosed;
    assert_eq!(err.to_string(), "channel closed");
}

#[test]
fn every_error_reads_as_itself() {
    assert_eq!(TunnelError::Protocol("bad".into()).to_string(), "protocol error: bad");
    assert_eq!(TunnelError::Auth("no".into()).to_string(), "auth error: no");
    assert_eq!(TunnelError::Discovery("off".into()).to_string(), "discovery error: off");
    assert_eq!(TunnelError::Timeout.to_string(), "timeout");
}

#[test]
fn config_with_all_fields() {
    let config = TunnelConfig {
        relay_url: "ws://localhost:8080".into(),
        auth_token: "test-key".into(),
        app_kind: AppKind::Node,
        display_name: "test-node".into(),
        capabilities: vec!["agent".into(), "p2p".into()],
        commands: vec!["status".into()],
        cwd: Some("/tmp".into()),
        version: "1.0.0".into(),
        channel_size: 64,
    };
    assert_eq!(config.app_kind, AppKind::Node);
    assert_eq!(config.capabilities.len(), 2);
}

#[test]
fn connecting_registers_the_instance() {
    let config = TunnelConfig {
        auth_token: "hk-1".into(),
        display_name: "box".into(),
        capabilities: vec!["chat".into()],
        cwd: Some("/work".into()),
        version: "2".into(),
        ..Default::default()
    };
    let c = connect_as(&config, platform("linux", "x86_64"), "id-1".into());
    assert_eq!(c.connection.instance_id, "id-1");
    assert_eq!(c.transport.url, "wss://api.hanzo.ai/v1/relay");
    assert_eq!(c.transport.auth_bearer, "hk-1");
    assert_eq!(c.transport.initial_backoff.as_secs(), 1);
    assert_eq!(c.transport.max_backoff.as_secs(), 60);
    match c.register {
        Frame::Register(p) => {
            assert_eq!(p.instance_id, "id-1");
            assert_eq!(p.platform, "linux-x86_64");
            assert_eq!(p.cwd.as_deref(), Some("/work"));
            assert_eq!(p.capabilities, vec!["chat".to_string()]);
            assert!(matches!(p.metadata, JsonValue::Null));
        }
        _ => panic!("expected Register frame"),
    }
}

#[test]
fn instances_get_ids_of_their_own() {
    let config = TunnelConfig::default();
    let a = connect(&config, "p".into()).connection.instance_id;
    let b = connect(&config, "p".into()).connection.instance_id;
    assert_ne!(a, b);
    assert_eq!(a.len(), 36);
    let c: Vec<char> = a.chars().collect();
    for (i, c) in c.iter().enumerate() {
        match i {
            8 | 13 | 18 | 23 => assert_eq!(*c, '-'),
            14 => assert_eq!(*c, '4'),
            19 => assert!("89ab".contains(*c)),
            _ => assert!(c.is_ascii_digit() || ('a'..='f').contains(c)),
        }
    }
}

fn registered(session_url: Option<&str>) -> RegistrationEvent {
    RegistrationEvent::Received(Some(Frame::Registered(RegisteredPayload {
        instance_id: "x".into(),
        session_url: session_url.map(|u| u.to_string()),
    })))
}

#[test]
fn the_confirmation_is_waited_for() {
    let command = CommandPayload { id: "c".into(), method: "m".into(), params: JsonValue::Null };
    for frame in [Frame::Ping, Frame::Command(command)] {
        let event = RegistrationEvent::Received(Some(frame));
        assert!(matches!(connect_and_register(event), Registration::Wait));
    }
    match connect_and_register(registered(Some("https://app.hanzo.bot/i/x"))) {
        Registration::Done(url) => assert_eq!(url.as_deref(), Some("https://app.hanzo.bot/i/x")),
        _ => panic!("expected the end"),
    }
    for event in [registered(None), RegistrationEvent::Received(None), RegistrationEvent::TimedOut] {
        match connect_and_register(event) {
            Registration::Done(url) => assert_eq!(url, None),
            _ => panic!("expected the end"),
        }
    }
}

#[test]
fn connections_build_frames() {
    let conn = TunnelConnection { instance_id: "i".into() };
    assert_eq!(
        conn.send_event("e", JsonValue::Bool(true)).to_json(),
        r#"{"type":"event","event":"e","data":true}"#
    );
    assert_eq!(
        conn.respond("r", Some(JsonValue::unsigned(7))).to_json(),
        r#"{"type":"response","id":"r","ok":true,"data":7}"#
    );
    assert_eq!(conn.respond("r", None).to_json(), r#"{"type":"response","id":"r","ok":true}"#);
    assert_eq!(
        conn.respond_error("r", "no").to_json(),
        r#"{"type":"response","id":"r","ok":false,"error":"no"}"#
    );
}

#[test]
fn a_closed_channel_is_an_error() {
    assert!(sent(true).is_ok());
    assert!(matches!(sent(false), Err(TunnelError::ChannelClosed)));
}

use hanzo_tunnel::protocol::{EventPayload, Frame};
use hanzo_tunnel::json::JsonValue;
use hanzo_tunnel::timing::Interval;
use hanzo_tunnel::transport::{
    dial, dial_result, plain_dial, receive, run_transport, run_with_reconnect, ws_connect, DialOutcome,
    Purpose, ReconnectAction, ReconnectEvent, TransportAction, TransportConfig, TransportEvent,
};
use hanzo_tunnel::TunnelError;

fn config(url: &str, bearer: &str) -> TransportConfig {
    TransportConfig { url: url.into(), auth_bearer: bearer.into(), ..Default::default() }
}

#[test]
fn defaults_of_the_transport() {
    let c = TransportConfig::default();
    assert_eq!(c.url, "");
    assert_eq!(c.auth_bearer, "");
    assert_eq!(c.initial_backoff, Interval::from_secs(1));
    assert_eq!(c.max_backoff, Interval::from_secs(60));
    assert_eq!(c.heartbeat_interval, Interval::from_secs(30));
    assert_eq!(c.connect_timeout, Interval::from_secs(10));
}

#[test]
fn a_token_makes_a_header() {
    let d = ws_connect(&config("wss://api.hanzo.ai/v1/relay", "hk-1")).ok().unwrap();
    assert_eq!(d.url, "wss://api.hanzo.ai/v1/relay");
    assert_eq!(d.authorization.as_deref(), Some("Bearer hk-1"));
    assert_eq!(d.timeout, Interval::from_secs(10));
    let d = ws_connect(&config("ws://localhost:1", "")).ok().unwrap();
    assert_eq!(d.authorization, None);
    let d = plain_dial("ws://localhost:1", Interval::from_secs(2)).ok().unwrap();
    assert_eq!(d.authorization, None);
    assert_eq!(d.timeout, Interval::from_secs(2));
}

#[test]
fn bad_urls_are_refused() {
    for url in ["", "no host here", "/path"] {
        match ws_connect(&config(url, "")) {
            Err(TunnelError::Connection(_)) => {}
            _ => panic!("expected a connection error"),
        }
    }
    match ws_connect(&config("/path", "")) {
        Err(e) => assert_eq!(e.to_string(), "connection error: URL error: No host name in the URL"),
        Ok(_) => panic!("expected a connection error"),
    }
}

#[test]
fn a_refused_url_is_a_connection_error() {
    match dial("u", Some("because".into()), "", Interval::from_secs(1)) {
        Err(e) => assert_eq!(e.to_string(), "connection error: because"),
        Ok(_) => panic!("expected an error"),
    }
}

#[test]
fn control_characters_make_no_header() {
    for (token, good) in [
        ("a\tb", true),
        ("\u{e9}", true),
        (" ", true),
        ("~", true),
        ("a\nb", false),
        ("a\0", false),
        ("\u{1f}", false),
        ("\u{7f}", false),
        ("\u{80}", true),
    ] {
        match ws_connect(&config("ws://h", token)) {
            Ok(d) => {
                assert!(good);
                assert_eq!(d.authorization, Some(format!("Bearer {}", token)));
            }
            Err(e) => {
                assert!(!good);
                assert_eq!(e.to_string(), "connection error: failed to parse header value");
            }
        }
    }
}

#[test]
fn dialling_succeeds_or_fails() {
    assert!(dial_result(DialOutcome::Open).is_ok());
    assert_eq!(
        dial_result(DialOutcome::TimedOut).unwrap_err().to_string(),
        "connection error: connect timeout"
    );
    assert_eq!(
        dial_result(DialOutcome::Failed("x".into())).unwrap_err().to_string(),
        "connection error: x"
    );
}

#[test]
fn shutdown_closes_the_connection() {
    assert!(matches!(run_transport(TransportEvent::Shutdown(true)), TransportAction::Close));
    assert!(matches!(run_transport(TransportEvent::Shutdown(false)), TransportAction::Wait));
}

#[test]
fn frames_go_out_as_text() {
    let frame = Frame::Event(EventPayload { event: "e".into(), data: JsonValue::Null });
    match run_transport(TransportEvent::Outgoing(frame)) {
        TransportAction::SendText(Purpose::Traffic, s) => {
            assert_eq!(s, r#"{"type":"event","event":"e","data":null}"#)
        }
        _ => panic!("expected a message"),
    }
}

#[test]
fn heartbeats_are_answered() {
    let ping = match run_transport(TransportEvent::Tick) {
        TransportAction::SendText(Purpose::Heartbeat, s) => s,
        _ => panic!("expected a heartbeat"),
    };
    assert_eq!(ping, r#"{"type":"ping"}"#);
    let pong = match run_transport(TransportEvent::Text(ping)) {
        TransportAction::SendText(Purpose::Traffic, s) => s,
        _ => panic!("expected an answer"),
    };
    assert_eq!(pong, r#"{"type":"pong"}"#);
    assert!(matches!(run_transport(TransportEvent::Text(pong)), TransportAction::Wait));
}

#[test]
fn other_frames_are_forwarded() {
    let text = r#"{"type":"command","id":"i","method":"m"}"#;
    match run_transport(TransportEvent::Text(text.into())) {
        TransportAction::Forward(Frame::Command(c)) => assert_eq!(c.id, "i"),
        _ => panic!("expected a frame"),
    }
    assert!(matches!(run_transport(TransportEvent::Text("junk".into())), TransportAction::Wait));
    assert!(matches!(receive(None), TransportAction::Wait));
    assert!(matches!(run_transport(TransportEvent::Forwarded(true)), TransportAction::Wait));
    assert!(matches!(run_transport(TransportEvent::Forwarded(false)), TransportAction::End(Ok(()))));
}

#[test]
fn messages_of_the_websocket() {
    match run_transport(TransportEvent::WsPing(vec![1, 2])) {
        TransportAction::SendPong(d) => assert_eq!(d, vec![1, 2]),
        _ => panic!("expected a pong"),
    }
    assert!(matches!(run_transport(TransportEvent::OtherMessage), TransportAction::Wait));
    assert!(matches!(run_transport(TransportEvent::Sent), TransportAction::Wait));
}

#[test]
fn failures_end_the_connection() {
    for (event, text) in [
        (TransportEvent::Closed, "connection error: websocket closed"),
        (TransportEvent::ReadFailed("r".into()), "connection error: r"),
        (TransportEvent::SendFailed(Purpose::Traffic, "s".into()), "connection error: s"),
        (
            TransportEvent::SendFailed(Purpose::Heartbeat, "s".into()),
            "connection error: heartbeat send failed",
        ),
    ] {
        match run_transport(event) {
            TransportAction::End(Err(e)) => assert_eq!(e.to_string(), text),
            _ => panic!("expected an error"),
        }
    }
}

#[test]
fn pauses_grow_up_to_a_limit() {
    let c = TransportConfig::default();
    let mut backoff = c.initial_backoff;
    let mut pauses = vec![];
    assert_eq!(run_with_reconnect(&c, &mut backoff, ReconnectEvent::Begin(false)), ReconnectAction::Connect);
    for _ in 0..8 {
        let failed = ReconnectEvent::Ended(Err(TunnelError::Timeout));
        match run_with_reconnect(&c, &mut backoff, failed) {
            ReconnectAction::Pause(p) => pauses.push(p.as_secs()),
            _ => panic!("expected a pause"),
        }
        assert_eq!(run_with_reconnect(&c, &mut backoff, ReconnectEvent::Rested(false)), ReconnectAction::Connect);
    }
    assert_eq!(pauses, vec![1, 2, 4, 8, 16, 32, 60, 60]);
}

#[test]
fn the_first_pause_may_exceed_the_limit() {
    let c = TransportConfig {
        initial_backoff: Interval::from_secs(10),
        max_backoff: Interval::from_secs(3),
        ..Default::default()
    };
    let mut backoff = c.initial_backoff;
    let failed = || ReconnectEvent::Ended(Err(TunnelError::Timeout));
    assert_eq!(
        run_with_reconnect(&c, &mut backoff, failed()),
        ReconnectAction::Pause(Interval::from_secs(10))
    );
    assert_eq!(run_with_reconnect(&c, &mut backoff, ReconnectEvent::Signalled(false)), ReconnectAction::Connect);
    assert_eq!(
        run_with_reconnect(&c, &mut backoff, failed()),
        ReconnectAction::Pause(Interval::from_secs(3))
    );
}

#[test]
fn the_loop_stops_when_told_or_done() {
    let c = TransportConfig::default();
    let mut b = c.initial_backoff;
    for event in [
        ReconnectEvent::Begin(true),
        ReconnectEvent::Ended(Ok(())),
        ReconnectEvent::Rested(true),
        ReconnectEvent::Signalled(true),
    ] {
        assert_eq!(run_with_reconnect(&c, &mut b, event), ReconnectAction::Stop);
    }
}

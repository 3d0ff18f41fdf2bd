use hanzo_tunnel::expose::{expose, unexpose, ExposedProtocol, ExposedService, ExposedUrl};
use hanzo_tunnel::json::JsonValue;
use hanzo_tunnel::Frame;

#[test]
fn serialize_exposed_service() {
    let svc = ExposedService {
        name: "api".into(),
        local_addr: "127.0.0.1:8080".into(),
        protocol: ExposedProtocol::Http,
        subdomain: Some("my-api".into()),
    };
    let json = svc.to_value().to_text();
    assert!(json.contains("\"protocol\":\"http\""));
    assert!(json.contains("\"subdomain\":\"my-api\""));
}

#[test]
fn expose_sends_frame() {
    let svc = ExposedService {
        name: "web".into(),
        local_addr: "127.0.0.1:3000".into(),
        protocol: ExposedProtocol::Http,
        subdomain: None,
    };
    let frame = expose(&svc);
    match frame {
        Frame::Event(e) => {
            assert_eq!(e.event, "expose.request");
            assert_eq!(
                e.data.to_text(),
                r#"{"local_addr":"127.0.0.1:3000","name":"web","protocol":"http"}"#
            );
        }
        _ => panic!("expected Event frame"),
    }
}

#[test]
fn unexpose_names_the_service() {
    assert_eq!(
        unexpose("web").to_json(),
        r#"{"type":"event","event":"expose.stop","data":{"name":"web"}}"#
    );
}

#[test]
fn services_are_read_back() {
    for protocol in [ExposedProtocol::Http, ExposedProtocol::WebSocket, ExposedProtocol::Tcp] {
        let svc = ExposedService {
            name: "n".into(),
            local_addr: "a".into(),
            protocol,
            subdomain: None,
        };
        let read = ExposedService::from_value(&svc.to_value()).unwrap();
        assert_eq!(read.protocol, protocol);
        assert_eq!(read.name, "n");
        assert_eq!(read.local_addr, "a");
        assert_eq!(read.subdomain, None);
    }
    assert_eq!(ExposedProtocol::WebSocket.name(), "web_socket");
    let v = JsonValue::parse(r#"{"name":"n","local_addr":"a","protocol":"websocket"}"#).unwrap();
    assert!(ExposedService::from_value(&v).is_none());
}

#[test]
fn urls_last_while_connected_by_default() {
    let v = JsonValue::parse(r#"{"name":"n","url":"u"}"#).unwrap();
    let u = ExposedUrl::from_value(&v).unwrap();
    assert_eq!(u.ttl, 0);
    assert_eq!(u.to_value().to_text(), r#"{"name":"n","ttl":0,"url":"u"}"#);
    for bad in [r#"{"name":"n"}"#, r#"{"name":"n","url":"u","ttl":-1}"#, r#"["n","u",1,2]"#, "3"] {
        assert!(ExposedUrl::from_value(&JsonValue::parse(bad).unwrap()).is_none());
    }
    let v = JsonValue::parse(r#"["n","u"]"#).unwrap();
    assert_eq!(ExposedUrl::from_value(&v).unwrap().url, "u");
}

#[test]
fn fields_of_services_are_given_once() {
    let svc = ExposedService {
        name: "n".into(),
        local_addr: "a".into(),
        protocol: ExposedProtocol::Tcp,
        subdomain: Some("s".into()),
    };
    let read = ExposedService::from_json(&svc.to_value().to_text()).unwrap();
    assert_eq!((read.protocol, read.subdomain.as_deref()), (ExposedProtocol::Tcp, Some("s")));
    for text in [
        r#"{"name":"n","local_addr":"a","local_addr":"a","protocol":"tcp"}"#,
        r#"{"name":"n","local_addr":"a","protocol":"tcp","protocol":"tcp"}"#,
        r#"{"name":"n","local_addr":"a","protocol":{"tcp":null,"tcp":null}}"#,
    ] {
        assert!(ExposedService::from_json(text).is_none(), "{}", text);
    }
    assert!(ExposedService::from_json(r#"{"name":"n","local_addr":"a","protocol":{"tcp":null}}"#).is_some());
    assert!(ExposedUrl::from_json(r#"{"name":"n","url":"u","url":"u"}"#).is_none());
    assert_eq!(ExposedUrl::from_json(r#"{"name":"n","url":"u","x":0,"x":0}"#).unwrap().url, "u");
}

use hanzo_tunnel::discovery::{advertise, advertised, not_advertised, service, MDNS_SERVICE_TYPE};
use hanzo_tunnel::AppKind;

#[test]
fn instances_are_advertised() {
    let a = advertise("id-1", 4321, &AppKind::Node);
    assert_eq!(a.service_type, "_hanzo._tcp.local.");
    assert_eq!(MDNS_SERVICE_TYPE, "_hanzo._tcp.local.");
    assert_eq!(a.instance_name, "id-1");
    assert_eq!(a.host_name, "id-1.local.");
    assert_eq!(a.ip, "");
    assert_eq!(a.port, 4321);
    assert_eq!(a.properties, vec![("kind".to_string(), "node".to_string())]);
}

#[test]
fn the_daemon_is_given_the_advertisement() {
    let s = service("id-1", 4321, &AppKind::Bot).unwrap();
    assert_eq!(s.get_type(), "_hanzo._tcp.local.");
    assert_eq!(s.get_fullname(), "id-1._hanzo._tcp.local.");
    assert_eq!(s.get_hostname(), "id-1.local.");
    assert_eq!(s.get_port(), 4321);
    assert!(s.get_addresses().is_empty());
    assert_eq!(s.get_property_val_str("kind"), Some("bot"));
}

#[test]
fn names_are_escaped_and_hosts_are_local_once() {
    let s = service("a.b\\c.local", 1, &AppKind::Dev).unwrap();
    assert_eq!(s.get_fullname(), "a\\.b\\\\c\\.local._hanzo._tcp.local.");
    assert_eq!(s.get_hostname(), "a.b\\c.local.");
}

#[test]
fn failures_are_discovery_errors() {
    assert!(advertised(None).is_ok());
    assert_eq!(
        advertised(Some("busy".into())).unwrap_err().to_string(),
        "discovery error: busy"
    );
    assert_eq!(not_advertised().to_string(), "discovery error: mDNS feature not enabled");
}

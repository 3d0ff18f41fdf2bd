//! mDNS discovery for local LAN Hanzo instances.

use crate::protocol;
use crate::protocol::AppKind;
use crate::text::joined;
use crate::tunnel;
use crate::tunnel::{ErrorView, TunnelError};
use vstd::prelude::*;

verus! {

/// mDNS service type for Hanzo tunnel discovery.
pub const MDNS_SERVICE_TYPE: &'static str = "_hanzo._tcp.local.";

/// What is made known of an instance on the local network.
#[derive(Debug, Clone)]
pub struct Advertisement {
    pub service_type: String,
    pub instance_name: String,
    pub host_name: String,
    /// Empty: the addresses of the host are not given.
    pub ip: String,
    pub port: u16,
    /// The properties of the service, by name.
    pub properties: Vec<(String, String)>,
}

/// Whether this is what is made known of an instance.
pub open spec fn advertises(
    a: Advertisement,
    instance_id: Seq<char>,
    port: u16,
    kind: AppKind,
) -> bool {
    &&& a.service_type@ == "_hanzo._tcp.local."@
    &&& a.instance_name@ == instance_id
    &&& a.host_name@ == instance_id + ".local."@
    &&& a.ip@ == Seq::<char>::empty()
    &&& a.port == port
    &&& a.properties@.len() == 1
    &&& a.properties@[0].0@ == "kind"@
    &&& a.properties@[0].1@ == protocol::kind_name(kind)
}

/// Advertise this instance on the local network via mDNS: what to make known.
pub fn advertise(instance_id: &str, port: u16, app_kind: &AppKind) -> (r: Advertisement)
    ensures
        advertises(r, instance_id@, port, *app_kind),
{
    let mut properties: Vec<(String, String)> = Vec::new();
    properties.push(("kind".to_owned(), app_kind.to_string()));
    Advertisement {
        service_type: MDNS_SERVICE_TYPE.to_owned(),
        instance_name: instance_id.to_owned(),
        host_name: joined(instance_id, ".local."),
        ip: String::new(),
        port,
        properties,
    }
}

/// `mdns_sd::ServiceInfo`, what an mDNS daemon makes known of a service.
#[verifier::external_type_specification]
#[verifier::external_body]
pub struct ExServiceInfo(mdns_sd::ServiceInfo);

/// What is made known of a service.
pub struct Announced {
    pub service_type: Seq<char>,
    pub full_name: Seq<char>,
    pub host_name: Seq<char>,
    pub port: u16,
    pub properties: Map<Seq<char>, Seq<char>>,
}

/// What an `mdns_sd::ServiceInfo` holds: its type, full name, host name, port
/// and properties, as `get_type`, `get_fullname`, `get_hostname`, `get_port`
/// and `get_properties` give them.
pub uninterp spec fn announced(info: mdns_sd::ServiceInfo) -> Announced;

/// Whether a service type names a subtype.
pub open spec fn has_subtype(service_type: Seq<char>) -> bool {
    exists|i: int|
        0 <= i <= service_type.len() - 6 && #[trigger] service_type.subrange(i, i + 6) == "._sub."@
}

/// The name of an instance as a part of a full name: with a backslash before
/// each dot and each backslash.
pub open spec fn escaped(name: Seq<char>) -> Seq<char>
    decreases name.len(),
{
    if name.len() == 0 {
        name
    } else {
        let head = escaped(name.drop_last());
        if name.last() == '.' || name.last() == '\\' {
            head.push('\\').push(name.last())
        } else {
            head.push(name.last())
        }
    }
}

/// A host name in the local domain, which is named once.
pub open spec fn local_host(host_name: Seq<char>) -> Seq<char> {
    let n = host_name.len() - 6;
    if host_name.len() >= 13 && host_name.skip(n - 7) == ".local.local."@ {
        host_name.take(n)
    } else {
        host_name
    }
}

/// What is made known of a service with one property.
pub open spec fn announcement(
    service_type: Seq<char>,
    instance_name: Seq<char>,
    host_name: Seq<char>,
    port: u16,
    key: Seq<char>,
    value: Seq<char>,
) -> Announced {
    Announced {
        service_type,
        full_name: escaped(instance_name) + "."@ + service_type,
        host_name: local_host(host_name),
        port,
        properties: Map::empty().insert(key, value),
    }
}

/// Whether a property can be made known: its name is ASCII without an equals
/// sign, and it fits, with its value, into a string of 255 bytes.
pub open spec fn is_property(key: Seq<char>, value: Seq<char>) -> bool {
    &&& forall|i: int| 0 <= i < key.len() ==> (#[trigger] key[i] < '\u{80}' && key[i] != '=')
    &&& vstd::utf8::encode_utf8(key).len() + vstd::utf8::encode_utf8(value).len() + 1 <= 255
}

/// Calls `mdns_sd::ServiceInfo::new` for a service without a subtype and
/// without addresses and with one property. There is an error, of which the
/// text is given, if and only if the property cannot be made known; how it
/// reads is not said here.
#[verifier::external_body]
fn service_info(
    service_type: &str,
    instance_name: &str,
    host_name: &str,
    ip: &str,
    port: u16,
    key: &str,
    value: &str,
) -> (r: Result<mdns_sd::ServiceInfo, String>)
    requires
        !has_subtype(service_type@),
        ip@.len() == 0,
    ensures
        (r is Ok) == is_property(key@, value@),
        r matches Ok(info) ==> announced(info) == announcement(
            service_type@,
            instance_name@,
            host_name@,
            port,
            key@,
            value@,
        ),
{
    let properties = [(key, value)];
    mdns_sd::ServiceInfo::new(service_type, instance_name, host_name, ip, port, &properties[..])
        .map_err(|e| e.to_string())
}

/// What an mDNS daemon takes to make an instance known. Every instance can be.
pub fn service(instance_id: &str, port: u16, app_kind: &AppKind) -> (r: Result<
    mdns_sd::ServiceInfo,
    TunnelError,
>)
    ensures
        r matches Ok(info) && announced(info) == announcement(
            "_hanzo._tcp.local."@,
            instance_id@,
            instance_id@ + ".local."@,
            port,
            "kind"@,
            protocol::kind_name(*app_kind),
        ),
{
    let a = advertise(instance_id, port, app_kind);
    let property = &a.properties[0];
    proof {
        kinds_are_properties(*app_kind);
        type_is_whole();
    }
    match service_info(
        a.service_type.as_str(),
        a.instance_name.as_str(),
        a.host_name.as_str(),
        a.ip.as_str(),
        a.port,
        property.0.as_str(),
        property.1.as_str(),
    ) {
        Ok(info) => Ok(info),
        Err(reason) => Err(TunnelError::Discovery(reason)),
    }
}

/// The service type of the tunnel names no subtype.
proof fn type_is_whole()
    ensures
        !has_subtype("_hanzo._tcp.local."@),
{
    reveal_strlit("_hanzo._tcp.local.");
    reveal_strlit("._sub.");
    let s = "_hanzo._tcp.local."@;
    assert forall|i: int| 0 <= i <= s.len() - 6 implies #[trigger] s.subrange(i, i + 6)
        != "._sub."@ by {
        let t = s.subrange(i, i + 6);
        assert(t[0] == s[i] && t[2] == s[i + 2]);
        assert("._sub."@[0] == '.' && "._sub."@[2] == 's');
        if i < 6 {
            assert(s[i] != '.');
        } else if i == 6 {
            assert(s[8] == 't');
        } else if i < 11 {
            assert(s[i] != '.');
        } else if i == 11 {
            assert(s[13] == 'o');
        }
    }
}

/// The kind of every app can be made known.
proof fn kinds_are_properties(kind: AppKind)
    ensures
        is_property("kind"@, protocol::kind_name(kind)),
{
    reveal_strlit("kind");
    reveal_strlit("dev");
    reveal_strlit("node");
    reveal_strlit("desktop");
    reveal_strlit("bot");
    reveal_strlit("extension");
    encoding_is_short("kind"@);
    encoding_is_short(protocol::kind_name(kind));
}

/// A character takes up at most four bytes.
proof fn encoding_is_short(s: Seq<char>)
    ensures
        vstd::utf8::encode_utf8(s).len() <= 4 * s.len(),
    decreases s.len(),
{
    if s.len() > 0 {
        encoding_is_short(s.drop_first());
    }
}

/// The outcome of making it known: `refusal` is why the daemon does not take it.
pub fn advertised(refusal: Option<String>) -> (r: Result<(), TunnelError>)
    ensures
        tunnel::outcome(r) == (match refusal {
            Some(reason) => Err::<(), ErrorView>(ErrorView::Discovery(reason@)),
            None => Ok(()),
        }),
{
    match refusal {
        Some(reason) => Err(TunnelError::Discovery(reason)),
        None => Ok(()),
    }
}

/// The outcome where there is no mDNS.
pub fn not_advertised() -> (r: TunnelError)
    ensures
        r@ == ErrorView::Discovery("mDNS feature not enabled"@),
{
    TunnelError::Discovery("mDNS feature not enabled".to_owned())
}

/// An instance is made known under its own name and host, at its port, with its
/// kind.
pub proof fn instance_is_made_known(a: Advertisement, id: Seq<char>, port: u16, kind: AppKind)
    requires
        advertises(a, id, port, kind),
    ensures
        a.service_type@ == "_hanzo._tcp.local."@,
        a.instance_name@ == id,
        a.host_name@ == id + ".local."@,
        a.ip@.len() == 0,
        a.port == port,
        a.properties@.len() == 1,
        a.properties@[0].0@ == "kind"@,
        a.properties@[0].1@ == (match kind {
            AppKind::Dev => "dev"@,
            AppKind::Node => "node"@,
            AppKind::Desktop => "desktop"@,
            AppKind::Bot => "bot"@,
            AppKind::Extension => "extension"@,
        }),
{
}

/// What a daemon makes known of a service is what it is told.
pub proof fn service_is_made_known(
    service_type: Seq<char>,
    name: Seq<char>,
    host: Seq<char>,
    port: u16,
    key: Seq<char>,
    value: Seq<char>,
    other: Seq<char>,
)
    ensures
        ({
            let a = announcement(service_type, name, host, port, key, value);
            &&& a.service_type == service_type
            &&& a.full_name == escaped(name) + "."@ + service_type
            &&& a.host_name == local_host(host)
            &&& a.port == port
            &&& a.properties.contains_key(key) && a.properties[key] == value
            &&& other != key ==> !a.properties.contains_key(other)
        }),
{
}

/// A name is escaped character by character: dots and backslashes get a
/// backslash before them, other characters stay.
pub proof fn names_are_escaped(name: Seq<char>, c: char)
    ensures
        escaped(Seq::empty()) == Seq::<char>::empty(),
        c != '.' && c != '\\' ==> escaped(name.push(c)) == escaped(name).push(c),
        c == '.' || c == '\\' ==> escaped(name.push(c)) == escaped(name).push('\\').push(c),
{
    assert(name.push(c).drop_last() =~= name);
}

/// An instance is advertised under its ID, at its port, with its kind.
pub proof fn advertisements_name_the_instance(
    instance_id: &str,
    port: u16,
    app_kind: &AppKind,
    r: Advertisement,
)
    requires
        call_ensures(advertise, (instance_id, port, app_kind), r),
    ensures
        r.service_type@ == "_hanzo._tcp.local."@,
        r.instance_name@ == instance_id@,
        r.host_name@ == instance_id@ + ".local."@,
        r.ip@.len() == 0,
        r.port == port,
        r.properties@.len() == 1 && r.properties@[0].0@ == "kind"@ && r.properties@[0].1@ == (
        match *app_kind {
            AppKind::Dev => "dev"@,
            AppKind::Node => "node"@,
            AppKind::Desktop => "desktop"@,
            AppKind::Bot => "bot"@,
            AppKind::Extension => "extension"@,
        }),
{
}

/// A registration that the daemon refuses is an error with its reason, and
/// where there is no daemon this is told.
pub proof fn refusals_of_the_daemon_are_told(
    refusal: Option<String>,
    r: Result<(), TunnelError>,
    n: TunnelError,
)
    requires
        call_ensures(advertised, (refusal,), r),
        call_ensures(not_advertised, (), n),
    ensures
        r is Ok <==> refusal is None,
        refusal matches Some(reason) ==> (r matches Err(TunnelError::Discovery(why)) && why@
            == reason@),
        n matches TunnelError::Discovery(why) && why@ == "mDNS feature not enabled"@,
{
}

/// The service that is made known has the port and the kind of the instance.
pub proof fn services_name_the_instance(
    instance_id: &str,
    port: u16,
    app_kind: &AppKind,
    r: Result<mdns_sd::ServiceInfo, TunnelError>,
)
    requires
        call_ensures(service, (instance_id, port, app_kind), r),
    ensures
        r matches Ok(info) && {
            let a = announced(info);
            &&& a.service_type == "_hanzo._tcp.local."@
            &&& a.full_name == escaped(instance_id@) + "."@ + "_hanzo._tcp.local."@
            &&& a.host_name == local_host(instance_id@ + ".local."@)
            &&& a.port == port
            &&& a.properties.contains_key("kind"@)
            &&& a.properties["kind"@] == (match *app_kind {
                AppKind::Dev => "dev"@,
                AppKind::Node => "node"@,
                AppKind::Desktop => "desktop"@,
                AppKind::Bot => "bot"@,
                AppKind::Extension => "extension"@,
            })
            &&& forall|k: Seq<char>| #[trigger] a.properties.contains_key(k) ==> k == "kind"@
        },
{
}

/// A host that names the local domain twice is made known with it named once,
/// and any other as it is.
pub proof fn local_domain_is_named_once(host: Seq<char>)
    ensures
        local_host(host + ".local.local."@) == host + ".local."@,
        !".local.local."@.is_suffix_of(host) ==> local_host(host) == host,
{
    reveal_strlit(".local.local.");
    reveal_strlit(".local.");
    assert(".local.local."@.len() == 13 && ".local."@.len() == 7);
    let twice = host + ".local.local."@;
    let n = twice.len() - 6;
    assert(twice.skip(n - 7) =~= ".local.local."@);
    assert(twice.take(n) =~= host + ".local."@);
    if host.len() >= 13 && host.skip(host.len() - 13) == ".local.local."@ {
        assert(".local.local."@ =~= host.subrange(host.len() - 13, host.len() as int));
    }
}

/// A type names a subtype if and only if the word for it stands in it.
pub proof fn subtypes_are_named(a: Seq<char>, b: Seq<char>, t: Seq<char>)
    ensures
        has_subtype(a + "._sub."@ + b),
        has_subtype(t) ==> exists|x: Seq<char>, y: Seq<char>| t == #[trigger] (x + "._sub."@ + y),
{
    reveal_strlit("._sub.");
    assert("._sub."@.len() == 6);
    let s = a + "._sub."@ + b;
    let i = a.len() as int;
    assert(s.subrange(i, i + 6) =~= "._sub."@);
    if has_subtype(t) {
        let k = choose|k: int| 0 <= k <= t.len() - 6 && #[trigger] t.subrange(k, k + 6) == "._sub."@;
        assert(t =~= t.take(k) + "._sub."@ + t.skip(k + 6));
    }
}

/// A property is made known if and only if its name is ASCII without an equals
/// sign and it needs, with its value and that sign, at most 255 bytes.
pub proof fn properties_are_short(key: Seq<char>, value: Seq<char>)
    ensures
        is_property(key, value) <==> !key.contains('=') && (forall|i: int|
            0 <= i < key.len() ==> (#[trigger] key[i] as int) < 128) && vstd::utf8::encode_utf8(
            key,
        ).len() + vstd::utf8::encode_utf8(value).len() < 255,
{
    if is_property(key, value) {
        assert forall|i: int| 0 <= i < key.len() implies (#[trigger] key[i] as int) < 128 by {}
        if key.contains('=') {
            let i = choose|i: int| 0 <= i < key.len() && key[i] == '=';
            assert(key[i] != '=');
        }
    }
    if !key.contains('=') && (forall|i: int|
        0 <= i < key.len() ==> (#[trigger] key[i] as int) < 128) {
        assert forall|i: int| 0 <= i < key.len() implies (#[trigger] key[i] < '\u{80}' && key[i]
            != '=') by {
            assert((key[i] as int) < 128);
            assert(key.contains(key[i]));
        }
    }
}

} // verus!

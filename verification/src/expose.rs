//! Expose local services through the tunnel (ngrok-like functionality).

use crate::json;
use crate::json::{Json, JsonValue, ObjectBuilder};
use crate::members;
use crate::members::{Listed, Members};
use crate::protocol;
use crate::protocol::{string_value, EventPayload, EventView, Frame, FrameView};
use crate::text;
use crate::wire;
use crate::wire::{find, find_maybe_text, find_text, find_uint_or, record, variant};
use vstd::prelude::*;

verus! {

/// A local service to expose through the tunnel.
#[derive(Debug, Clone)]
pub struct ExposedService {
    /// Service name (e.g. "api", "web", "mcp").
    pub name: String,
    /// Local address to forward to (e.g. "127.0.0.1:3000").
    pub local_addr: String,
    /// Protocol type.
    pub protocol: ExposedProtocol,
    /// Desired subdomain (optional, cloud assigns one if empty).
    pub subdomain: Option<String>,
}

/// Protocol for exposed services.
#[derive(Debug, Clone, Copy, PartialEq, Eq, Structural)]
pub enum ExposedProtocol {
    Http,
    WebSocket,
    Tcp,
}

/// A URL assigned by the cloud for an exposed service.
#[derive(Debug, Clone)]
pub struct ExposedUrl {
    /// Service name.
    pub name: String,
    /// The public URL assigned by the cloud.
    pub url: String,
    /// TTL in seconds (0 = permanent while connected).
    pub ttl: u64,
}

/// What an [`ExposedService`] says.
pub struct ServiceView {
    pub name: Seq<char>,
    pub local_addr: Seq<char>,
    pub protocol: ExposedProtocol,
    pub subdomain: Option<Seq<char>>,
}

/// What an [`ExposedUrl`] says.
pub struct UrlView {
    pub name: Seq<char>,
    pub url: Seq<char>,
    pub ttl: u64,
}

impl View for ExposedService {
    type V = ServiceView;

    open spec fn view(&self) -> ServiceView {
        ServiceView {
            name: self.name@,
            local_addr: self.local_addr@,
            protocol: self.protocol,
            subdomain: text::optional(self.subdomain),
        }
    }
}

impl View for ExposedUrl {
    type V = UrlView;

    open spec fn view(&self) -> UrlView {
        UrlView { name: self.name@, url: self.url@, ttl: self.ttl }
    }
}

/// The name of a protocol on the wire.
pub open spec fn protocol_name(p: ExposedProtocol) -> Seq<char> {
    match p {
        ExposedProtocol::Http => "http"@,
        ExposedProtocol::WebSocket => "web_socket"@,
        ExposedProtocol::Tcp => "tcp"@,
    }
}

/// The protocol that a document stands for.
pub open spec fn protocol_of(j: Json) -> Option<ExposedProtocol> {
    if wire::is_variant(j, "http"@, false) {
        Some(ExposedProtocol::Http)
    } else if wire::is_variant(j, "web_socket"@, false) {
        Some(ExposedProtocol::WebSocket)
    } else if wire::is_variant(j, "tcp"@, false) {
        Some(ExposedProtocol::Tcp)
    } else {
        None
    }
}

impl ExposedProtocol {
    /// The name of the protocol on the wire.
    pub fn name(&self) -> (r: &'static str)
        ensures
            r@ == protocol_name(*self),
    {
        match self {
            ExposedProtocol::Http => "http",
            ExposedProtocol::WebSocket => "web_socket",
            ExposedProtocol::Tcp => "tcp",
        }
    }

    fn read(v: &JsonValue) -> (r: Option<ExposedProtocol>)
        ensures
            r == protocol_of(v@),
    {
        if variant(v, "http", false) {
            Some(ExposedProtocol::Http)
        } else if variant(v, "web_socket", false) {
            Some(ExposedProtocol::WebSocket)
        } else if variant(v, "tcp", false) {
            Some(ExposedProtocol::Tcp)
        } else {
            None
        }
    }
}

/// The JSON object of a service.
pub open spec fn service_json(s: ServiceView) -> Json {
    Json::Object(
        json::with_some(
            Map::empty().insert("name"@, Json::Str(s.name)).insert(
                "local_addr"@,
                Json::Str(s.local_addr),
            ).insert("protocol"@, Json::Str(protocol_name(s.protocol))),
            "subdomain"@,
            protocol::maybe_string(s.subdomain),
        ),
    )
}

/// The service that a document holds.
pub open spec fn service_of(j: Json) -> Option<ServiceView> {
    let name = wire::text_field(j, 0, "name"@);
    let local_addr = wire::text_field(j, 1, "local_addr"@);
    let protocol = match wire::field(j, 2, "protocol"@) {
        Some(p) => protocol_of(p),
        None => None,
    };
    let subdomain = wire::maybe_text(j, 3, "subdomain"@, false);
    if wire::is_record(j, 4) && name is Some && local_addr is Some && protocol is Some
        && subdomain is Some {
        Some(
            ServiceView {
                name: name->0,
                local_addr: local_addr->0,
                protocol: protocol->0,
                subdomain: subdomain->0,
            },
        )
    } else {
        None
    }
}

/// The JSON object of an assigned URL.
pub open spec fn url_json(u: UrlView) -> Json {
    Json::Object(
        Map::empty().insert("name"@, Json::Str(u.name)).insert("url"@, Json::Str(u.url)).insert(
            "ttl"@,
            Json::Int(u.ttl as int),
        ),
    )
}

/// The assigned URL that a document holds.
pub open spec fn url_of(j: Json) -> Option<UrlView> {
    let name = wire::text_field(j, 0, "name"@);
    let url = wire::text_field(j, 1, "url"@);
    let ttl = wire::uint_or(j, 2, "ttl"@, u64::MAX, 0);
    if wire::is_record(j, 3) && name is Some && url is Some && ttl is Some {
        Some(UrlView { name: name->0, url: url->0, ttl: ttl->0 })
    } else {
        None
    }
}

/// What is written for a service is read back.
pub proof fn service_is_read_back(s: ServiceView)
    ensures
        service_of(service_json(s)) == Some(s),
{
    reveal_strlit("name");
    reveal_strlit("local_addr");
    reveal_strlit("protocol");
    reveal_strlit("subdomain");
    reveal_strlit("http");
    reveal_strlit("web_socket");
    reveal_strlit("tcp");
    assert("name"@.len() == 4 && "local_addr"@.len() == 10);
    assert("protocol"@.len() == 8 && "subdomain"@.len() == 9);
    assert("http"@.len() == 4 && "web_socket"@.len() == 10 && "tcp"@.len() == 3);
    let j = service_json(s);
    assert(protocol_of(Json::Str(protocol_name(s.protocol))) == Some(s.protocol));
    assert(wire::text_field(j, 0, "name"@) == Some(s.name));
}

/// What is written for an assigned URL is read back.
pub proof fn url_is_read_back(u: UrlView)
    ensures
        url_of(url_json(u)) == Some(u),
{
    reveal_strlit("name");
    reveal_strlit("url");
    reveal_strlit("ttl");
    assert("name"@.len() == 4 && "url"@.len() == 3 && "ttl"@.len() == 3);
    assert("url"@[0] != "ttl"@[0]);
    assert(wire::text_field(url_json(u), 0, "name"@) == Some(u.name));
}

/// Whether a text gives a field of a service twice, or a protocol of
/// more than one name.
pub open spec fn service_repeated(list: Seq<Listed>) -> bool {
    ||| members::repeats(list, "name"@)
    ||| members::repeats(list, "local_addr"@)
    ||| members::repeats(list, "protocol"@)
    ||| members::repeats(list, "subdomain"@)
    ||| members::listing(members::field_text(list, 2, "protocol"@)).len() > 1
}

/// The service in a text which has this JSON value and lists these members;
/// none where the text gives a field twice.
pub open spec fn service_in(j: Option<Json>, list: Seq<Listed>) -> Option<ServiceView> {
    match j {
        Some(j) => if service_repeated(list) {
            None
        } else {
            service_of(j)
        },
        None => None,
    }
}

/// The service that a text holds.
pub open spec fn service_of_text(text: Seq<char>) -> Option<ServiceView> {
    service_in(json::json_of_text(text), members::listing(text))
}

/// The text of what is written for a service is read back.
pub proof fn service_text_is_read_back(v: ServiceView, s: Seq<char>)
    requires
        json::json_of_text(s) == Some(service_json(v)),
        json::is_shown(s, service_json(v)),
    ensures
        service_of_text(s) == Some(v),
{
    service_is_read_back(v);
    json::shown_is_not_repeated(s, service_json(v));
    let j = service_json(v);
    json::field_is_shown(s, j, 2, "protocol"@);
    members::nothing_is_listed();
    reveal_strlit("name");
    reveal_strlit("local_addr");
    reveal_strlit("protocol");
    reveal_strlit("subdomain");
    assert("protocol"@.len() == 8 && "subdomain"@.len() == 9);
    let protocol = members::field_text(members::listing(s), 2, "protocol"@);
    assert(json::json_get(j, "protocol"@) == Some(Json::Str(protocol_name(v.protocol))));
    if protocol.len() > 0 {
        assert(json::shows(protocol, Json::Str(protocol_name(v.protocol)), 0));
    } else {
        assert(protocol =~= Seq::<char>::empty());
    }
}

impl ExposedService {
    /// The JSON object of this service.
    pub fn to_value(&self) -> (r: JsonValue)
        ensures
            r@ == service_json(self@),
    {
        let mut o = ObjectBuilder::new();
        o.put("name", JsonValue::text(self.name.as_str()));
        o.put("local_addr", JsonValue::text(self.local_addr.as_str()));
        o.put("protocol", JsonValue::text(self.protocol.name()));
        o.put_some("subdomain", string_value(&self.subdomain));
        o.build()
    }

    /// Reads a service from a JSON value.
    pub fn from_value(v: &JsonValue) -> (r: Option<ExposedService>)
        ensures
            (match r {
                Some(s) => Some(s@),
                None => None,
            }) == service_of(v@),
    {
        if !record(v, 4) {
            return None;
        }
        let protocol = match find(v, 2, "protocol") {
            Some(p) => ExposedProtocol::read(p),
            None => None,
        };
        match (
            find_text(v, 0, "name"),
            find_text(v, 1, "local_addr"),
            protocol,
            find_maybe_text(v, 3, "subdomain", false),
        ) {
            (Some(name), Some(local_addr), Some(protocol), Some(subdomain)) => Some(
                ExposedService { name, local_addr, protocol, subdomain },
            ),
            _ => None,
        }
    }

    /// Reads a service from the JSON value of a text and from what the text lists.
    pub fn from_listed(v: Option<JsonValue>, list: &Members) -> (r: Option<ExposedService>)
        ensures
            (match r {
                Some(s) => Some(s@),
                None => None,
            }) == service_in(json::held(v), list@),
    {
        match v {
            Some(v) => if list.repeats("name") || list.repeats("local_addr") || list.repeats("protocol")
                    || list.repeats("subdomain")
                    || Members::read(list.field(2, "protocol").as_str()).count() > 1 {
                None
            } else {
                ExposedService::from_value(&v)
            },
            None => None,
        }
    }

    /// Reads a service from JSON text.
    pub fn from_json(text: &str) -> (r: Option<ExposedService>)
        ensures
            (match r {
                Some(s) => Some(s@),
                None => None,
            }) == service_of_text(text@),
    {
        ExposedService::from_listed(JsonValue::parse(text), &Members::read(text))
    }
}

/// Whether a text gives a field of an assigned URL twice.
pub open spec fn url_repeated(list: Seq<Listed>) -> bool {
    ||| members::repeats(list, "name"@)
    ||| members::repeats(list, "url"@)
    ||| members::repeats(list, "ttl"@)
}

/// The assigned URL in a text which has this JSON value and lists these
/// members; none where the text gives a field twice.
pub open spec fn url_in(j: Option<Json>, list: Seq<Listed>) -> Option<UrlView> {
    match j {
        Some(j) => if url_repeated(list) {
            None
        } else {
            url_of(j)
        },
        None => None,
    }
}

/// The assigned URL that a text holds.
pub open spec fn url_of_text(text: Seq<char>) -> Option<UrlView> {
    url_in(json::json_of_text(text), members::listing(text))
}

/// The text of what is written for an assigned URL is read back.
pub proof fn url_text_is_read_back(u: UrlView, s: Seq<char>)
    requires
        json::json_of_text(s) == Some(url_json(u)),
        json::is_shown(s, url_json(u)),
    ensures
        url_of_text(s) == Some(u),
{
    url_is_read_back(u);
    json::shown_is_not_repeated(s, url_json(u));
}

impl ExposedUrl {
    /// The JSON object of this URL.
    pub fn to_value(&self) -> (r: JsonValue)
        ensures
            r@ == url_json(self@),
    {
        let mut o = ObjectBuilder::new();
        o.put("name", JsonValue::text(self.name.as_str()));
        o.put("url", JsonValue::text(self.url.as_str()));
        o.put("ttl", JsonValue::unsigned(self.ttl));
        o.build()
    }

    /// Reads an assigned URL from a JSON value.
    pub fn from_value(v: &JsonValue) -> (r: Option<ExposedUrl>)
        ensures
            (match r {
                Some(u) => Some(u@),
                None => None,
            }) == url_of(v@),
    {
        if !record(v, 3) {
            return None;
        }
        match (
            find_text(v, 0, "name"),
            find_text(v, 1, "url"),
            find_uint_or(v, 2, "ttl", u64::MAX, 0),
        ) {
            (Some(name), Some(url), Some(ttl)) => Some(ExposedUrl { name, url, ttl }),
            _ => None,
        }
    }

    /// Reads an assigned URL from the JSON value of a text and from what the text lists.
    pub fn from_listed(v: Option<JsonValue>, list: &Members) -> (r: Option<ExposedUrl>)
        ensures
            (match r {
                Some(u) => Some(u@),
                None => None,
            }) == url_in(json::held(v), list@),
    {
        match v {
            Some(v) => if list.repeats("name") || list.repeats("url") || list.repeats("ttl") {
                None
            } else {
                ExposedUrl::from_value(&v)
            },
            None => None,
        }
    }

    /// Reads an assigned URL from JSON text.
    pub fn from_json(text: &str) -> (r: Option<ExposedUrl>)
        ensures
            (match r {
                Some(u) => Some(u@),
                None => None,
            }) == url_of_text(text@),
    {
        ExposedUrl::from_listed(JsonValue::parse(text), &Members::read(text))
    }
}

/// What a list of assigned URLs says.
pub open spec fn urls(list: Seq<ExposedUrl>) -> Seq<UrlView> {
    list.map_values(|u: ExposedUrl| u@)
}

/// The array of assigned URLs.
pub open spec fn urls_json(list: Seq<UrlView>) -> Json {
    Json::Array(list.map_values(|u: UrlView| url_json(u)))
}

/// The assigned URLs that an array holds.
pub open spec fn urls_of(j: Json) -> Option<Seq<UrlView>> {
    match j {
        Json::Array(a) => if forall|i: int| 0 <= i < a.len() ==> url_of(#[trigger] a[i]) is Some {
            Some(a.map_values(|e: Json| url_of(e)->0))
        } else {
            None
        },
        _ => None,
    }
}

/// What is written for assigned URLs is read back.
pub proof fn urls_are_read_back(list: Seq<UrlView>)
    ensures
        urls_of(urls_json(list)) == Some(list),
{
    let a = urls_json(list)->Array_0;
    assert forall|i: int| 0 <= i < a.len() implies url_of(#[trigger] a[i]) == Some(list[i]) by {
        url_is_read_back(list[i]);
    }
    assert(a.map_values(|e: Json| url_of(e)->0) =~= list);
}

/// Whether the text of an array of assigned URLs gives a field of one twice.
pub open spec fn urls_repeated(text: Seq<char>) -> bool {
    let list = members::listing(text);
    exists|i: int|
        0 <= i < list.len() && url_repeated(members::listing((#[trigger] list[i]).value))
}

/// Decides whether the text of an array of assigned URLs gives a field of one
/// twice.
pub fn repeats_in_urls(text: &str) -> (r: bool)
    ensures
        r == urls_repeated(text@),
{
    let list = Members::read(text);
    let count: usize = list.count();
    for i in 0..count
        invariant
            count == list@.len(),
            list@ == members::listing(text@),
            forall|k: int|
                0 <= k < i ==> !url_repeated(members::listing((#[trigger] list@[k]).value)),
    {
        let url = Members::read(list.item(i).as_str());
        if url.repeats("name") || url.repeats("url") || url.repeats("ttl") {
            assert(url_repeated(members::listing(list@[i as int].value)));
            return true;
        }
    }
    false
}

/// A text that shows assigned URLs gives no field of one twice.
pub proof fn urls_are_not_repeated(text: Seq<char>, urls: Seq<UrlView>)
    requires
        json::is_shown(text, urls_json(urls)),
    ensures
        !urls_repeated(text),
{
    let list = members::listing(text);
    let j = urls_json(urls);
    assert(json::shows(text, j, 0));
    assert forall|i: int| 0 <= i < list.len() implies !url_repeated(
        members::listing((#[trigger] list[i]).value),
    ) by {
        if urls.len() == 0 {
            members::nothing_is_listed();
        } else {
            let a = j->Array_0;
            assert forall|depth: nat| #[trigger] json::shows(list[i].value, a[i], depth) by {
                assert(json::shows(text, j, depth + 1));
            }
            json::shown_is_not_repeated(list[i].value, a[i]);
        }
    }
}

/// The array of assigned URLs.
pub fn urls_value(list: &Vec<ExposedUrl>) -> (r: JsonValue)
    ensures
        r@ == urls_json(urls(list@)),
{
    let ghost whole = urls_json(urls(list@))->Array_0;
    let mut out: Vec<JsonValue> = Vec::new();
    assert(whole.take(0) =~= Seq::<Json>::empty());
    for i in 0..list.len()
        invariant
            whole == urls_json(urls(list@))->Array_0,
            json::array_json(out@) == whole.take(i as int),
    {
        let ghost before = out@;
        out.push(list[i].to_value());
        proof {
            assert(out@.drop_last() =~= before);
            assert(urls(list@)[i as int] == list@[i as int]@);
            assert(whole.take(i + 1) =~= whole.take(i as int).push(whole[i as int]));
        }
    }
    assert(whole.take(list@.len() as int) =~= whole);
    JsonValue::Array(out)
}

/// Reads an array of assigned URLs.
pub fn read_urls(v: &JsonValue) -> (r: Option<Vec<ExposedUrl>>)
    ensures
        (match r {
            Some(list) => Some(urls(list@)),
            None => None,
        }) == urls_of(v@),
{
    match v {
        JsonValue::Array(a) => {
            let ghost whole = json::array_json(a@);
            let mut out: Vec<ExposedUrl> = Vec::new();
            proof {
                json::array_length(a@);
            }
            for i in 0..a.len()
                invariant
                    whole == json::array_json(a@),
                    whole.len() == a@.len(),
                    v@ == Json::Array(whole),
                    out@.len() == i,
                    forall|k: int| 0 <= k < i ==> url_of(#[trigger] whole[k]) == Some(out@[k]@),
            {
                proof {
                    json::array_element(a@, i as int);
                }
                match ExposedUrl::from_value(&a[i]) {
                    Some(u) => {
                        out.push(u);
                    },
                    None => {
                        assert(url_of(whole[i as int]) is None);
                        return None;
                    },
                }
            }
            assert(urls(out@) =~= whole.map_values(|e: Json| url_of(e)->0));
            Some(out)
        },
        _ => None,
    }
}

/// The frame that asks to expose a service.
pub open spec fn expose_frame(s: ServiceView) -> FrameView {
    FrameView::Event(EventView { event: "expose.request"@, data: service_json(s) })
}

/// The frame that asks to stop exposing a service.
pub open spec fn unexpose_frame(name: Seq<char>) -> FrameView {
    FrameView::Event(
        EventView {
            event: "expose.stop"@,
            data: Json::Object(Map::empty().insert("name"@, Json::Str(name))),
        },
    )
}

/// Request to expose a local service.
pub fn expose(service: &ExposedService) -> (r: Frame)
    ensures
        r@ == expose_frame(service@),
{
    Frame::Event(EventPayload { event: "expose.request".to_owned(), data: service.to_value() })
}

/// Request to stop exposing a service.
pub fn unexpose(name: &str) -> (r: Frame)
    ensures
        r@ == unexpose_frame(name@),
{
    let mut data = ObjectBuilder::new();
    data.put("name", JsonValue::text(name));
    Frame::Event(EventPayload { event: "expose.stop".to_owned(), data: data.build() })
}

/// What services and URLs say is what their fields hold.
pub proof fn services_say_their_fields(s: ExposedService, u: ExposedUrl)
    ensures
        s@.name == s.name@ && s@.local_addr == s.local_addr@ && s@.protocol == s.protocol
            && s@.subdomain == text::optional(s.subdomain),
        u@.name == u.name@ && u@.url == u.url@ && u@.ttl == u.ttl,
{
}

/// A protocol has its own name on the wire, from which it is read.
pub proof fn protocols_have_names(p: ExposedProtocol)
    ensures
        protocol_name(ExposedProtocol::Http) == "http"@,
        protocol_name(ExposedProtocol::WebSocket) == "web_socket"@,
        protocol_name(ExposedProtocol::Tcp) == "tcp"@,
        protocol_of(Json::Str(protocol_name(p))) == Some(p),
{
    reveal_strlit("http");
    reveal_strlit("web_socket");
    reveal_strlit("tcp");
    assert("http"@.len() == 4 && "web_socket"@.len() == 10 && "tcp"@.len() == 3);
}

/// The names of the fields of services and URLs.
proof fn names()
    ensures
        "name"@.len() == 4 && "local_addr"@.len() == 10,
        "protocol"@.len() == 8 && "subdomain"@.len() == 9,
        "url"@.len() == 3 && "url"@[0] == 'u' && "ttl"@.len() == 3 && "ttl"@[0] == 't',
{
    reveal_strlit("name");
    reveal_strlit("local_addr");
    reveal_strlit("protocol");
    reveal_strlit("subdomain");
    reveal_strlit("url");
    reveal_strlit("ttl");
}

/// The document of a service has its name, its address, its protocol and, where
/// one is wanted, its subdomain, and nothing else.
pub proof fn service_is_written(s: ServiceView)
    ensures
        service_json(s) is Object,
        forall|n: Seq<char>| #[trigger]
            json::json_get(service_json(s), n) == if n == "name"@ {
                Some(Json::Str(s.name))
            } else if n == "local_addr"@ {
                Some(Json::Str(s.local_addr))
            } else if n == "protocol"@ {
                Some(
                    Json::Str(
                        match s.protocol {
                            ExposedProtocol::Http => "http"@,
                            ExposedProtocol::WebSocket => "web_socket"@,
                            ExposedProtocol::Tcp => "tcp"@,
                        },
                    ),
                )
            } else if n == "subdomain"@ && s.subdomain is Some {
                Some(Json::Str(s.subdomain->0))
            } else {
                None
            },
{
    names();
}

/// The cloud reads from a request to expose exactly the service that was asked
/// for: its name, its address, its protocol and its subdomain.
pub proof fn service_asked_for_is_exposed(s: ServiceView)
    ensures
        expose_frame(s) matches FrameView::Event(e) && e.event == "expose.request"@ && service_of(
            e.data,
        ) == Some(s),
{
    service_is_read_back(s);
}

/// In the frame by which a service is exposed, each field of the service stands
/// under its name.
pub proof fn exposed_service_is_named(r: Frame, service: ExposedService)
    requires
        r@ == expose_frame(service@),
    ensures
        ({
            &&& r matches Frame::Event(e)
            &&& e.event@ == "expose.request"@
            &&& json::json_get(e.data@, "name"@) == Some(Json::Str(service.name@))
            &&& json::json_get(e.data@, "local_addr"@) == Some(Json::Str(service.local_addr@))
            &&& json::json_get(e.data@, "protocol"@) == Some(
                Json::Str(
                    match service.protocol {
                        ExposedProtocol::Http => "http"@,
                        ExposedProtocol::WebSocket => "web_socket"@,
                        ExposedProtocol::Tcp => "tcp"@,
                    },
                ),
            )
            &&& service.subdomain is Some ==> json::json_get(e.data@, "subdomain"@) == Some(
                Json::Str(service.subdomain->0@),
            )
            &&& service.subdomain is None ==> json::json_get(e.data@, "subdomain"@) is None
        }),
{
    names();
    service_is_written(service@);
}

/// Two services that are exposed by the same frame are the same.
pub proof fn services_are_told_apart(a: ServiceView, b: ServiceView)
    requires
        expose_frame(a) == expose_frame(b),
    ensures
        a == b,
{
    service_is_read_back(a);
    service_is_read_back(b);
}

/// A request to stop exposing names the service, and nothing else.
pub proof fn stopped_service_is_named(name: Seq<char>)
    ensures
        unexpose_frame(name) matches FrameView::Event(e) && e.event == "expose.stop"@ && e.data
            is Object && forall|n: Seq<char>| #[trigger]
            json::json_get(e.data, n) == if n == "name"@ {
                Some(Json::Str(name))
            } else {
                None
            },
{
}

/// A document holds a service if and only if it has a name, an address and a
/// protocol; the subdomain is the one that it gives, if it does.
pub proof fn services_are_read(j: Json, s: ServiceView)
    ensures
        service_of(j) == Some(s) <==> {
            &&& wire::is_record(j, 4)
            &&& wire::field(j, 0, "name"@) == Some(Json::Str(s.name))
            &&& wire::field(j, 1, "local_addr"@) == Some(Json::Str(s.local_addr))
            &&& wire::field(j, 2, "protocol"@) matches Some(p) && protocol_of(p) == Some(s.protocol)
            &&& match s.subdomain {
                Some(d) => wire::field(j, 3, "subdomain"@) == Some(Json::Str(d)),
                None => wire::field(j, 3, "subdomain"@) == Some(Json::Null) || (wire::field(
                    j,
                    3,
                    "subdomain"@,
                ) is None && j is Object),
            }
        },
{
}

/// A protocol is read from its name, or from an object with that one name.
pub proof fn protocols_are_read(j: Json, p: ExposedProtocol)
    requires
        protocol_of(j) == Some(p),
    ensures
        j == Json::Str(protocol_name(p)) || j == Json::Object(
            Map::empty().insert(protocol_name(p), Json::Null),
        ),
{
}

/// The document of an assigned URL has its fields under their names, and
/// nothing else; one is read from a document if and only if that has a name and
/// a URL, with no limit where it gives none.
pub proof fn urls_are_written_and_read(j: Json, u: UrlView)
    ensures
        url_json(u) is Object,
        forall|n: Seq<char>| #[trigger]
            json::json_get(url_json(u), n) == if n == "name"@ {
                Some(Json::Str(u.name))
            } else if n == "url"@ {
                Some(Json::Str(u.url))
            } else if n == "ttl"@ {
                Some(Json::Int(u.ttl as int))
            } else {
                None
            },
        url_of(j) == Some(u) <==> {
            &&& wire::is_record(j, 3)
            &&& wire::field(j, 0, "name"@) == Some(Json::Str(u.name))
            &&& wire::field(j, 1, "url"@) == Some(Json::Str(u.url))
            &&& match wire::field(j, 2, "ttl"@) {
                Some(n) => n == Json::Int(u.ttl as int),
                None => u.ttl == 0,
            }
        },
{
    names();
}

/// A list of URLs is written, and read, item by item.
pub proof fn lists_of_urls_go_item_by_item(list: Seq<UrlView>, a: Seq<Json>)
    ensures
        urls_json(list) matches Json::Array(w) && w.len() == list.len() && forall|i: int|
            0 <= i < w.len() ==> #[trigger] w[i] == url_json(list[i]),
        urls_of(Json::Array(a)) == Some(list) <==> a.len() == list.len() && forall|i: int|
            0 <= i < a.len() ==> url_of(#[trigger] a[i]) == Some(list[i]),
{
    if urls_of(Json::Array(a)) == Some(list) {
        assert forall|i: int| 0 <= i < a.len() implies url_of(#[trigger] a[i]) == Some(list[i]) by {
            assert(a.map_values(|e: Json| url_of(e)->0)[i] == url_of(a[i])->0);
        }
    }
    if a.len() == list.len() && forall|i: int|
        0 <= i < a.len() ==> url_of(#[trigger] a[i]) == Some(list[i]) {
        assert(a.map_values(|e: Json| url_of(e)->0) =~= list);
    }
}

/// Texts hold what their documents hold, unless they give a field twice.
pub proof fn fields_of_services_are_given_once(j: Json, list: Seq<Listed>)
    ensures
        service_in(None, list) is None && url_in(None, list) is None,
        service_in(Some(j), list) == if members::repeats(list, "name"@) || members::repeats(
            list,
            "local_addr"@,
        ) || members::repeats(list, "protocol"@) || members::repeats(list, "subdomain"@)
            || members::listing(members::field_text(list, 2, "protocol"@)).len() > 1 {
            None
        } else {
            service_of(j)
        },
        url_in(Some(j), list) == if members::repeats(list, "name"@) || members::repeats(
            list,
            "url"@,
        ) || members::repeats(list, "ttl"@) {
            None
        } else {
            url_of(j)
        },
{
}

/// Exposing a service asks the cloud for exactly that: its name, its address,
/// its protocol and its subdomain stand in the request, whatever they are.
pub proof fn exposing_asks_for_the_service(service: &ExposedService, r: Frame)
    requires
        call_ensures(expose, (service,), r),
    ensures
        r matches Frame::Event(e) && {
            &&& e.event@ == "expose.request"@
            &&& service_of(e.data@) == Some(service@)
            &&& forall|n: Seq<char>| #[trigger]
                json::json_get(e.data@, n) == if n == "name"@ {
                    Some(Json::Str(service.name@))
                } else if n == "local_addr"@ {
                    Some(Json::Str(service.local_addr@))
                } else if n == "protocol"@ {
                    Some(
                        Json::Str(
                            match service.protocol {
                                ExposedProtocol::Http => "http"@,
                                ExposedProtocol::WebSocket => "web_socket"@,
                                ExposedProtocol::Tcp => "tcp"@,
                            },
                        ),
                    )
                } else if n == "subdomain"@ && service.subdomain is Some {
                    Some(Json::Str(service.subdomain->0@))
                } else {
                    None
                }
        },
{
    service_is_written(service@);
    service_is_read_back(service@);
}

/// No longer exposing a service names it.
pub proof fn unexposing_names_the_service(name: &str, r: Frame)
    requires
        call_ensures(unexpose, (name,), r),
    ensures
        r matches Frame::Event(e) && e.event@ == "expose.stop"@ && e.data@ is Object && forall|
            n: Seq<char>,
        | #[trigger]
            json::json_get(e.data@, n) == if n == "name"@ {
                Some(Json::Str(name@))
            } else {
                None
            },
{
    stopped_service_is_named(name@);
}

/// Services and URLs are read back from what they are written as.
pub proof fn services_and_urls_are_kept(
    s: &ExposedService,
    sv: JsonValue,
    t: Option<ExposedService>,
    u: &ExposedUrl,
    uv: JsonValue,
    w: Option<ExposedUrl>,
)
    requires
        call_ensures(ExposedService::to_value, (s,), sv),
        call_ensures(ExposedService::from_value, (&sv,), t),
        call_ensures(ExposedUrl::to_value, (u,), uv),
        call_ensures(ExposedUrl::from_value, (&uv,), w),
    ensures
        t matches Some(k) && k.name@ == s.name@ && k.local_addr@ == s.local_addr@ && k.protocol
            == s.protocol && text::optional(k.subdomain) == text::optional(s.subdomain),
        w matches Some(k) && k.name@ == u.name@ && k.url@ == u.url@ && k.ttl == u.ttl,
        json::json_get(sv@, "name"@) == Some(Json::Str(s.name@)),
        json::json_get(sv@, "local_addr"@) == Some(Json::Str(s.local_addr@)),
        json::json_get(uv@, "name"@) == Some(Json::Str(u.name@)),
        json::json_get(uv@, "url"@) == Some(Json::Str(u.url@)),
        json::json_get(uv@, "ttl"@) == Some(Json::Int(u.ttl as int)),
{
    names();
    service_is_written(s@);
    service_is_read_back(s@);
    urls_are_written_and_read(uv@, u@);
}

/// A service, and a URL, is read from a document if and only if that has its
/// fields.
pub proof fn services_and_urls_are_read(
    v: &JsonValue,
    s: Option<ExposedService>,
    u: Option<ExposedUrl>,
)
    requires
        call_ensures(ExposedService::from_value, (v,), s),
        call_ensures(ExposedUrl::from_value, (v,), u),
    ensures
        s matches Some(k) ==> wire::field(v@, 0, "name"@) == Some(Json::Str(k.name@))
            && wire::field(v@, 1, "local_addr"@) == Some(Json::Str(k.local_addr@)) && (wire::field(
            v@,
            2,
            "protocol"@,
        ) matches Some(p) && protocol_of(p) == Some(k.protocol)) && (k.subdomain matches Some(d)
            ==> wire::field(v@, 3, "subdomain"@) == Some(Json::Str(d@))),
        u matches Some(k) ==> wire::field(v@, 0, "name"@) == Some(Json::Str(k.name@))
            && wire::field(v@, 1, "url"@) == Some(Json::Str(k.url@)) && (match wire::field(
            v@,
            2,
            "ttl"@,
        ) {
            Some(n) => n == Json::Int(k.ttl as int),
            None => k.ttl == 0,
        }),
        s is None <==> service_of(v@) is None,
        u is None <==> url_of(v@) is None,
{
    if s is Some {
        services_are_read(v@, s->0@);
    }
    if u is Some {
        urls_are_written_and_read(v@, u->0@);
    }
}

/// The name of a protocol on the wire.
pub proof fn protocols_say_their_names(p: &ExposedProtocol, r: &'static str)
    requires
        call_ensures(ExposedProtocol::name, (p,), r),
    ensures
        r@ == (match *p {
            ExposedProtocol::Http => "http"@,
            ExposedProtocol::WebSocket => "web_socket"@,
            ExposedProtocol::Tcp => "tcp"@,
        }),
{
}

/// A text holds what its document holds, as far as it gives its fields once.
pub proof fn texts_hold_services(text: &str, s: Option<ExposedService>, u: Option<ExposedUrl>)
    requires
        call_ensures(ExposedService::from_json, (text,), s),
        call_ensures(ExposedUrl::from_json, (text,), u),
    ensures
        (match s {
            Some(k) => Some(k@),
            None => None,
        }) == service_in(json::json_of_text(text@), members::listing(text@)),
        (match u {
            Some(k) => Some(k@),
            None => None,
        }) == url_in(json::json_of_text(text@), members::listing(text@)),
{
}

/// A protocol is read from its name, and from an object with that name and
/// null.
pub proof fn protocols_are_read_either_way(p: ExposedProtocol)
    ensures
        protocol_of(Json::Str(protocol_name(p))) == Some(p),
        protocol_of(Json::Object(Map::empty().insert(protocol_name(p), Json::Null))) == Some(p),
{
    protocols_have_names(p);
    let m = Map::empty().insert(protocol_name(p), Json::Null);
    assert(m.contains_key(protocol_name(p)));
    reveal_strlit("http");
    reveal_strlit("web_socket");
    reveal_strlit("tcp");
    assert("http"@.len() == 4 && "web_socket"@.len() == 10 && "tcp"@.len() == 3);
    assert(Map::<Seq<char>, Json>::empty().insert("http"@, Json::Null).contains_key("http"@));
    assert(Map::<Seq<char>, Json>::empty().insert("web_socket"@, Json::Null).contains_key(
        "web_socket"@,
    ));
    assert(Map::<Seq<char>, Json>::empty().insert("tcp"@, Json::Null).contains_key("tcp"@));
}

/// What is read from a document and what its text lists is what the document
/// holds, as far as the text gives its fields once; a list of URLs is read, and
/// written, item by item.
pub proof fn listed_services_are_read(
    v: Option<JsonValue>,
    list: &Members,
    s: Option<ExposedService>,
    u: Option<ExposedUrl>,
    l: &Vec<ExposedUrl>,
    lv: JsonValue,
    d: &JsonValue,
    r: Option<Vec<ExposedUrl>>,
)
    requires
        call_ensures(ExposedService::from_listed, (v, list), s),
        call_ensures(ExposedUrl::from_listed, (v, list), u),
        call_ensures(urls_value, (l,), lv),
        call_ensures(read_urls, (d,), r),
    ensures
        v is None ==> s is None && u is None,
        (match s {
            Some(k) => Some(k@),
            None => None,
        }) == service_in(json::held(v), list@),
        (match u {
            Some(k) => Some(k@),
            None => None,
        }) == url_in(json::held(v), list@),
        lv@ matches Json::Array(a) && a.len() == l@.len() && forall|i: int|
            0 <= i < a.len() ==> #[trigger] a[i] == url_json(l@[i]@),
        r is Some <==> urls_of(d@) is Some,
        r matches Some(k) ==> (d@ matches Json::Array(a) && a.len() == k@.len() && forall|i: int|
            0 <= i < a.len() ==> url_of(#[trigger] a[i]) == Some(k@[i]@)),
{
    lists_of_urls_go_item_by_item(urls(l@), Seq::empty());
    let a = lv@->Array_0;
    assert forall|i: int| 0 <= i < a.len() implies #[trigger] a[i] == url_json(l@[i]@) by {
        assert(urls(l@)[i] == l@[i]@);
    }
    if r is Some {
        let k = r->0;
        let b = d@->Array_0;
        lists_of_urls_go_item_by_item(urls(k@), b);
        assert(urls(k@).len() == k@.len());
        assert forall|i: int| 0 <= i < b.len() implies url_of(#[trigger] b[i]) == Some(k@[i]@) by {
            assert(urls(k@)[i] == k@[i]@);
        }
    }
}

} // verus!

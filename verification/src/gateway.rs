//! Bot gateway protocol adapter.
//!
//! Speaks the native WebSocket protocol of the Hanzo bot gateway
//! (challenge/connect/hello-ok handshake, req/res/event frames). This lets
//! tunnel clients register as nodes in the gateway's NodeRegistry and handle
//! `node.invoke` commands.

use crate::ident;
use crate::ident::fresh_id;
use crate::json;
use crate::json::{Json, JsonValue, ObjectBuilder};
use crate::members;
use crate::members::{Listed, Members};
use crate::protocol;
use crate::protocol::{value_copy, AppKind};
use crate::table::Table;
use crate::text;
use crate::text::{joined, number_text, same};
use crate::timing;
use crate::timing::Interval;
use crate::transport;
use crate::transport::{plain_dial, Dial};
use crate::tunnel::{ErrorView, TunnelError};
use crate::wire;
use crate::wire::{find_bool, find_maybe, find_maybe_value, find_text, record};
use vstd::prelude::*;

verus! {

/// Gateway frame types (matches bot gateway protocol).
#[derive(Debug, Clone)]
pub enum GatewayFrame {
    /// Request from client to gateway.
    Req { id: String, method: String, params: Option<JsonValue> },
    /// Response from gateway to client.
    Res { id: String, ok: bool, payload: Option<JsonValue>, error: Option<GatewayError> },
    /// Event broadcast.
    Event { event: String, payload: Option<JsonValue>, seq: Option<u64> },
}

/// What went wrong with a request.
#[derive(Debug, Clone)]
pub struct GatewayError {
    pub code: String,
    pub message: String,
    pub details: Option<JsonValue>,
}

/// What a [`GatewayError`] says.
pub struct GatewayErrorView {
    pub code: Seq<char>,
    pub message: Seq<char>,
    pub details: Option<Json>,
}

/// What a [`GatewayFrame`] says.
pub enum GatewayFrameView {
    Req { id: Seq<char>, method: Seq<char>, params: Option<Json> },
    Res { id: Seq<char>, ok: bool, payload: Option<Json>, error: Option<GatewayErrorView> },
    Event { event: Seq<char>, payload: Option<Json>, seq: Option<u64> },
}

impl View for GatewayError {
    type V = GatewayErrorView;

    open spec fn view(&self) -> GatewayErrorView {
        GatewayErrorView {
            code: self.code@,
            message: self.message@,
            details: json::held(self.details),
        }
    }
}

/// What an optional error says.
pub open spec fn seen_error(e: Option<GatewayError>) -> Option<GatewayErrorView> {
    match e {
        Some(e) => Some(e@),
        None => None,
    }
}

impl View for GatewayFrame {
    type V = GatewayFrameView;

    open spec fn view(&self) -> GatewayFrameView {
        match *self {
            GatewayFrame::Req { id, method, params } => GatewayFrameView::Req {
                id: id@,
                method: method@,
                params: json::held(params),
            },
            GatewayFrame::Res { id, ok, payload, error } => GatewayFrameView::Res {
                id: id@,
                ok,
                payload: json::held(payload),
                error: seen_error(error),
            },
            GatewayFrame::Event { event, payload, seq } => GatewayFrameView::Event {
                event: event@,
                payload: json::held(payload),
                seq,
            },
        }
    }
}

/// What an optional frame says.
pub open spec fn seen_frame(f: Option<GatewayFrame>) -> Option<GatewayFrameView> {
    match f {
        Some(f) => Some(f@),
        None => None,
    }
}

/// The JSON object of an error.
pub open spec fn error_json(e: GatewayErrorView) -> Json {
    Json::Object(
        json::with_some(
            Map::empty().insert("code"@, Json::Str(e.code)).insert(
                "message"@,
                Json::Str(e.message),
            ),
            "details"@,
            e.details,
        ),
    )
}

/// The JSON object of an optional error.
pub open spec fn maybe_error_json(e: Option<GatewayErrorView>) -> Option<Json> {
    match e {
        Some(e) => Some(error_json(e)),
        None => None,
    }
}

/// The error that a document holds.
pub open spec fn error_of(j: Json) -> Option<GatewayErrorView> {
    let code = wire::text_field(j, 0, "code"@);
    let message = wire::text_field(j, 1, "message"@);
    let details = wire::maybe_field(j, 2, "details"@, false);
    if wire::is_record(j, 3) && code is Some && message is Some && details is Some {
        Some(GatewayErrorView { code: code->0, message: message->0, details: details->0 })
    } else {
        None
    }
}

impl GatewayError {
    /// The JSON object of this error.
    pub fn to_value(&self) -> (r: JsonValue)
        ensures
            r@ == error_json(self@),
    {
        let mut o = ObjectBuilder::new();
        o.put("code", JsonValue::text(self.code.as_str()));
        o.put("message", JsonValue::text(self.message.as_str()));
        o.put_some("details", value_copy(&self.details));
        o.build()
    }

    /// Reads an error from a JSON value.
    pub fn from_value(v: &JsonValue) -> (r: Option<GatewayError>)
        ensures
            seen_error(r) == error_of(v@),
    {
        if !record(v, 3) {
            return None;
        }
        match (
            find_text(v, 0, "code"),
            find_text(v, 1, "message"),
            find_maybe_value(v, 2, "details"),
        ) {
            (Some(code), Some(message), Some(details)) => Some(
                GatewayError { code, message, details },
            ),
            _ => None,
        }
    }
}

fn error_value(e: &Option<GatewayError>) -> (r: Option<JsonValue>)
    ensures
        json::held(r) == maybe_error_json(seen_error(*e)),
{
    match e {
        Some(e) => Some(e.to_value()),
        None => None,
    }
}

fn number_value(n: Option<u64>) -> (r: Option<JsonValue>)
    ensures
        json::held(r) == maybe_number(n),
{
    match n {
        Some(n) => Some(JsonValue::unsigned(n)),
        None => None,
    }
}

/// An optional number as a JSON number.
pub open spec fn maybe_number(n: Option<u64>) -> Option<Json> {
    match n {
        Some(n) => Some(Json::Int(n as int)),
        None => None,
    }
}

/// The JSON object of a gateway frame.
pub open spec fn gateway_json(f: GatewayFrameView) -> Json {
    Json::Object(
        match f {
            GatewayFrameView::Req { id, method, params } => json::with_some(
                protocol::tagged("req"@).insert("id"@, Json::Str(id)).insert(
                    "method"@,
                    Json::Str(method),
                ),
                "params"@,
                params,
            ),
            GatewayFrameView::Res { id, ok, payload, error } => json::with_some(
                json::with_some(
                    protocol::tagged("res"@).insert("id"@, Json::Str(id)).insert(
                        "ok"@,
                        Json::Bool(ok),
                    ),
                    "payload"@,
                    payload,
                ),
                "error"@,
                maybe_error_json(error),
            ),
            GatewayFrameView::Event { event, payload, seq } => json::with_some(
                json::with_some(
                    protocol::tagged("event"@).insert("event"@, Json::Str(event)),
                    "payload"@,
                    payload,
                ),
                "seq"@,
                maybe_number(seq),
            ),
        },
    )
}

/// The error of a response that may be absent.
pub open spec fn maybe_error_of(j: Json) -> Option<Option<GatewayErrorView>> {
    match wire::maybe_field(j, 4, "error"@, false) {
        Some(Some(e)) => match error_of(e) {
            Some(e) => Some(Some(e)),
            None => None,
        },
        Some(None) => Some(None),
        None => None,
    }
}

/// The sequence number of an event that may be absent.
pub open spec fn maybe_seq_of(j: Json) -> Option<Option<u64>> {
    match wire::maybe_field(j, 3, "seq"@, false) {
        Some(Some(n)) => match json::json_u64(n) {
            Some(n) => Some(Some(n)),
            None => None,
        },
        Some(None) => Some(None),
        None => None,
    }
}

/// The gateway frame that a document holds.
pub open spec fn gateway_of(j: Json) -> Option<GatewayFrameView> {
    let kind = wire::text_field(j, 0, "type"@);
    let id = wire::text_field(j, 1, "id"@);
    if kind == Some("req"@) {
        let method = wire::text_field(j, 2, "method"@);
        let params = wire::maybe_field(j, 3, "params"@, false);
        if wire::is_record(j, 4) && id is Some && method is Some && params is Some {
            Some(GatewayFrameView::Req { id: id->0, method: method->0, params: params->0 })
        } else {
            None
        }
    } else if kind == Some("res"@) {
        let ok = wire::bool_field(j, 2, "ok"@);
        let payload = wire::maybe_field(j, 3, "payload"@, false);
        let error = maybe_error_of(j);
        if wire::is_record(j, 5) && id is Some && ok is Some && payload is Some && error is Some {
            Some(
                GatewayFrameView::Res {
                    id: id->0,
                    ok: ok->0,
                    payload: payload->0,
                    error: error->0,
                },
            )
        } else {
            None
        }
    } else if kind == Some("event"@) {
        let event = wire::text_field(j, 1, "event"@);
        let payload = wire::maybe_field(j, 2, "payload"@, false);
        let seq = maybe_seq_of(j);
        if wire::is_record(j, 4) && event is Some && payload is Some && seq is Some {
            Some(GatewayFrameView::Event { event: event->0, payload: payload->0, seq: seq->0 })
        } else {
            None
        }
    } else {
        None
    }
}

/// Whether a text gives a field of the frame twice that its discriminator
/// announces, or a field of its error.
pub open spec fn is_repeated(kind: Seq<char>, list: Seq<Listed>) -> bool {
    ||| members::repeats(list, "type"@)
    ||| kind == "req"@ && (members::repeats(list, "id"@) || members::repeats(list, "method"@)
        || members::repeats(list, "params"@))
    ||| kind == "res"@ && (members::repeats(list, "id"@) || members::repeats(list, "ok"@)
        || members::repeats(list, "payload"@) || members::repeats(list, "error"@)
        || is_error_repeated(members::listing(members::field_text(list, 4, "error"@))))
    ||| kind == "event"@ && (members::repeats(list, "event"@) || members::repeats(
        list,
        "payload"@,
    ) || members::repeats(list, "seq"@))
}

/// Whether a text gives a field of an error twice.
pub open spec fn is_error_repeated(list: Seq<Listed>) -> bool {
    members::repeats(list, "code"@) || members::repeats(list, "message"@) || members::repeats(
        list,
        "details"@,
    )
}

/// Decides whether a text gives a field of a frame twice.
fn repeated(kind: &str, list: &Members) -> (r: bool)
    ensures
        r == is_repeated(kind@, list@),
{
    proof {
        names();
    }
    if list.repeats("type") {
        true
    } else if same(kind, "req") {
        list.repeats("id") || list.repeats("method") || list.repeats("params")
    } else if same(kind, "res") {
        let error = Members::read(list.field(4, "error").as_str());
        list.repeats("id") || list.repeats("ok") || list.repeats("payload") || list.repeats("error")
            || error.repeats("code") || error.repeats("message") || error.repeats("details")
    } else if same(kind, "event") {
        list.repeats("event") || list.repeats("payload") || list.repeats("seq")
    } else {
        false
    }
}

/// The gateway frame that a text holds which has this JSON value and lists
/// these members; none where it gives a field of the frame twice.
pub open spec fn gateway_in(j: Option<Json>, list: Seq<Listed>) -> Option<GatewayFrameView> {
    match j {
        Some(j) => match wire::text_field(j, 0, "type"@) {
            Some(kind) => if is_repeated(kind, list) {
                None
            } else {
                gateway_of(j)
            },
            None => None,
        },
        None => None,
    }
}

/// The gateway frame that a text holds.
pub open spec fn gateway_of_text(text: Seq<char>) -> Option<GatewayFrameView> {
    gateway_in(json::json_of_text(text), members::listing(text))
}

/// A text that lists the members of a frame gives no field of it twice.
proof fn members_are_not_repeated(f: GatewayFrameView, text: Seq<char>)
    requires
        json::lists(text, gateway_members(f)),
    ensures
        forall|kind: Seq<char>| !(#[trigger] is_repeated(kind, members::listing(text))),
{
    names();
    let m = gateway_members(f);
    let list = members::listing(text);
    assert(json::distinct_members(m));
    assert forall|name: Seq<char>| !(#[trigger] members::repeats(list, name)) by {
        json::distinct_are_not_repeated(text, m, name);
    }
    if exists|k: int| 0 <= k < m.len() && (#[trigger] m[k]).0 == "error"@ {
        let k = choose|k: int| 0 <= k < m.len() && (#[trigger] m[k]).0 == "error"@;
        assert(list[k].name == Some(m[k].0));
        assert forall|j: int| 0 <= j < k implies (#[trigger] list[j]).name != Some("error"@) by {
            assert(list[j].name == Some(m[j].0));
            assert(m[j].0 != m[k].0);
        }
        members::value_of_first(list, "error"@, k);
        json::shown_is_not_repeated(list[k].value, m[k].1);
    } else {
        assert forall|j: int| 0 <= j < list.len() implies (#[trigger] list[j]).name != Some(
            "error"@,
        ) by {
            assert(list[j].name == Some(m[j].0));
        }
        members::value_of_none(list, "error"@);
        members::nothing_is_listed();
    }
}

/// Whether a gateway frame has its own form on the wire. One that holds null
/// where something may be absent has not: it reads back without that.
pub open spec fn is_canonical(f: GatewayFrameView) -> bool {
    match f {
        GatewayFrameView::Req { params, .. } => params != Some(Json::Null),
        GatewayFrameView::Res { payload, error, .. } => payload != Some(Json::Null) && (
        error matches Some(e) ==> e.details != Some(Json::Null)),
        GatewayFrameView::Event { payload, .. } => payload != Some(Json::Null),
    }
}

/// The lengths and some characters of the names on the wire.
proof fn names()
    ensures
        "type"@.len() == 4 && "seq"@.len() == 3,
        "req"@.len() == 3 && "req"@[2] == 'q' && "res"@.len() == 3 && "res"@[2] == 's',
        "event"@.len() == 5 && "event"@[0] == 'e' && "event"@[1] == 'v',
        "error"@.len() == 5 && "error"@[1] == 'r',
        "id"@.len() == 2 && "id"@[0] == 'i' && "ok"@.len() == 2 && "ok"@[0] == 'o',
        "method"@.len() == 6 && "method"@[0] == 'm',
        "params"@.len() == 6 && "params"@[0] == 'p',
        "payload"@.len() == 7 && "code"@.len() == 4,
        "message"@.len() == 7 && "message"@[0] == 'm',
        "details"@.len() == 7 && "details"@[0] == 'd',
{
    reveal_strlit("type");
    reveal_strlit("req");
    reveal_strlit("res");
    reveal_strlit("event");
    reveal_strlit("id");
    reveal_strlit("method");
    reveal_strlit("params");
    reveal_strlit("ok");
    reveal_strlit("payload");
    reveal_strlit("error");
    reveal_strlit("seq");
    reveal_strlit("code");
    reveal_strlit("message");
    reveal_strlit("details");
}

/// What is written on the wire is read back: the JSON object of a gateway
/// frame holds that frame.
pub proof fn gateway_is_read_back(f: GatewayFrameView)
    requires
        is_canonical(f),
    ensures
        gateway_of(gateway_json(f)) == Some(f),
{
    names();
    let j = gateway_json(f);
    match f {
        GatewayFrameView::Req { id, method, params } => {
            assert(wire::text_field(j, 0, "type"@) == Some("req"@));
            assert(wire::text_field(j, 1, "id"@) == Some(id));
        },
        GatewayFrameView::Res { id, ok, payload, error } => {
            assert(wire::text_field(j, 0, "type"@) == Some("res"@));
            assert(wire::text_field(j, 1, "id"@) == Some(id));
            if error is Some {
                let e = error->0;
                assert(wire::text_field(error_json(e), 0, "code"@) == Some(e.code));
                assert(error_of(error_json(e)) == Some(e));
            }
        },
        GatewayFrameView::Event { event, payload, seq } => {
            assert(wire::text_field(j, 0, "type"@) == Some("event"@));
            assert(wire::text_field(j, 1, "event"@) == Some(event));
        },
    }
}

/// The members of the JSON object of a gateway frame, in the order in which
/// they are written.
pub open spec fn gateway_members(f: GatewayFrameView) -> Seq<(Seq<char>, Json)> {
    let m = Seq::<(Seq<char>, Json)>::empty();
    match f {
        GatewayFrameView::Req { id, method, params } => json::push_some(
            m.push(("type"@, Json::Str("req"@))).push(("id"@, Json::Str(id))).push(
                ("method"@, Json::Str(method)),
            ),
            "params"@,
            params,
        ),
        GatewayFrameView::Res { id, ok, payload, error } => json::push_some(
            json::push_some(
                m.push(("type"@, Json::Str("res"@))).push(("id"@, Json::Str(id))).push(
                    ("ok"@, Json::Bool(ok)),
                ),
                "payload"@,
                payload,
            ),
            "error"@,
            maybe_error_json(error),
        ),
        GatewayFrameView::Event { event, payload, seq } => json::push_some(
            json::push_some(
                m.push(("type"@, Json::Str("event"@))).push(("event"@, Json::Str(event))),
                "payload"@,
                payload,
            ),
            "seq"@,
            maybe_number(seq),
        ),
    }
}

/// The text of a gateway frame.
pub open spec fn gateway_text(f: GatewayFrameView) -> Seq<char> {
    json::text_of_members(gateway_members(f))
}

/// A gateway frame is written with members that are those of its object.
proof fn members_are_plain(f: GatewayFrameView)
    requires
        json::is_plain(gateway_json(f), json::deepest()),
    ensures
        json::plain_members(gateway_members(f)),
{
    names();
    let m = gateway_json(f)->Object_0;
    let list = gateway_members(f);
    assert forall|i: int| 0 <= i < list.len() implies json::is_plain(
        (#[trigger] list[i]).1,
        (json::deepest() - 1) as nat,
    ) by {
        assert(m.contains_key(list[i].0) && m[list[i].0] == list[i].1);
    }
}

impl GatewayFrame {
    fn object(&self) -> (r: ObjectBuilder)
        ensures
            Json::Object(r@) == gateway_json(self@),
            r.list() == gateway_members(self@),
    {
        let mut o = ObjectBuilder::new();
        match self {
            GatewayFrame::Req { id, method, params } => {
                o.put("type", JsonValue::text("req"));
                o.put("id", JsonValue::text(id.as_str()));
                o.put("method", JsonValue::text(method.as_str()));
                o.put_some("params", value_copy(params));
            },
            GatewayFrame::Res { id, ok, payload, error } => {
                o.put("type", JsonValue::text("res"));
                o.put("id", JsonValue::text(id.as_str()));
                o.put("ok", JsonValue::Bool(*ok));
                o.put_some("payload", value_copy(payload));
                o.put_some("error", error_value(error));
            },
            GatewayFrame::Event { event, payload, seq } => {
                o.put("type", JsonValue::text("event"));
                o.put("event", JsonValue::text(event.as_str()));
                o.put_some("payload", value_copy(payload));
                o.put_some("seq", number_value(*seq));
            },
        }
        o
    }

    /// The JSON object of this frame.
    pub fn to_value(&self) -> (r: JsonValue)
        ensures
            r@ == gateway_json(self@),
    {
        self.object().build()
    }

    /// The JSON text of this frame. What one end writes the other reads: the
    /// text holds the frame, where its document has no fraction and is not
    /// nested too deep.
    pub fn to_json(&self) -> (r: String)
        ensures
            r@ == gateway_text(self@),
            is_canonical(self@) && json::is_plain(gateway_json(self@), json::deepest())
                ==> gateway_of_text(r@) == Some(self@),
    {
        proof {
            if is_canonical(self@) && json::is_plain(gateway_json(self@), json::deepest()) {
                gateway_is_read_back(self@);
                members_are_plain(self@);
            }
        }
        let r = self.object().text();
        proof {
            members_are_not_repeated(self@, r@);
        }
        r
    }

    /// Reads a frame from a JSON value.
    pub fn from_value(v: &JsonValue) -> (r: Option<GatewayFrame>)
        ensures
            seen_frame(r) == gateway_of(v@),
    {
        proof {
            reveal_strlit("req");
            reveal_strlit("res");
            reveal_strlit("event");
            assert("req"@[2] != "res"@[2]);
            assert("req"@.len() != "event"@.len());
            assert("res"@.len() != "event"@.len());
        }
        let kind = match find_text(v, 0, "type") {
            Some(kind) => kind,
            None => {
                return None;
            },
        };
        if same(kind.as_str(), "req") {
            if !record(v, 4) {
                return None;
            }
            match (
                find_text(v, 1, "id"),
                find_text(v, 2, "method"),
                find_maybe_value(v, 3, "params"),
            ) {
                (Some(id), Some(method), Some(params)) => Some(
                    GatewayFrame::Req { id, method, params },
                ),
                _ => None,
            }
        } else if same(kind.as_str(), "res") {
            if !record(v, 5) {
                return None;
            }
            let error = match find_maybe(v, 4, "error", false) {
                Some(Some(e)) => match GatewayError::from_value(e) {
                    Some(e) => Some(Some(e)),
                    None => None,
                },
                Some(None) => Some(None),
                None => None,
            };
            match (
                find_text(v, 1, "id"),
                find_bool(v, 2, "ok"),
                find_maybe_value(v, 3, "payload"),
                error,
            ) {
                (Some(id), Some(ok), Some(payload), Some(error)) => Some(
                    GatewayFrame::Res { id, ok, payload, error },
                ),
                _ => None,
            }
        } else if same(kind.as_str(), "event") {
            if !record(v, 4) {
                return None;
            }
            let seq = match find_maybe(v, 3, "seq", false) {
                Some(Some(n)) => match n.as_u64() {
                    Some(n) => Some(Some(n)),
                    None => None,
                },
                Some(None) => Some(None),
                None => None,
            };
            match (find_text(v, 1, "event"), find_maybe_value(v, 2, "payload"), seq) {
                (Some(event), Some(payload), Some(seq)) => Some(
                    GatewayFrame::Event { event, payload, seq },
                ),
                _ => None,
            }
        } else {
            None
        }
    }

    /// Reads a frame from the JSON value of a text and from what the text lists.
    pub fn from_listed(v: Option<JsonValue>, list: &Members) -> (r: Option<GatewayFrame>)
        ensures
            seen_frame(r) == gateway_in(json::held(v), list@),
    {
        match v {
            Some(v) => match find_text(&v, 0, "type") {
                Some(kind) => if repeated(kind.as_str(), list) {
                    None
                } else {
                    GatewayFrame::from_value(&v)
                },
                None => None,
            },
            None => None,
        }
    }

    /// Reads a frame from JSON text.
    pub fn from_json(text: &str) -> (r: Option<GatewayFrame>)
        ensures
            seen_frame(r) == gateway_of_text(text@),
    {
        GatewayFrame::from_listed(JsonValue::parse(text), &Members::read(text))
    }
}

/// Configuration for connecting to the bot gateway.
#[derive(Debug, Clone)]
pub struct GatewayConfig {
    /// Gateway WebSocket URL (e.g., ws://127.0.0.1:18789 or wss://gw.hanzo.bot).
    pub url: String,
    /// Auth token (device token or password).
    pub auth_token: String,
    /// Auth method: "token" or "password".
    pub auth_method: String,
    /// Client ID (used as node ID).
    pub client_id: String,
    /// Display name shown in the gateway.
    pub display_name: String,
    /// App kind (mapped to platform string).
    pub app_kind: AppKind,
    /// Version string.
    pub version: String,
    /// Capabilities advertised to the gateway.
    pub capabilities: Vec<String>,
    /// Commands this node can handle.
    pub commands: Vec<String>,
    /// Connect timeout.
    pub connect_timeout: Interval,
    /// Heartbeat interval.
    pub heartbeat_interval: Interval,
}

/// Whether a configuration is the usual one, for the client with the given ID.
pub open spec fn is_default(c: GatewayConfig, client_id: Seq<char>) -> bool {
    &&& c.url@ == "ws://127.0.0.1:18789"@
    &&& c.auth_token@ == Seq::<char>::empty()
    &&& c.auth_method@ == "token"@
    &&& c.client_id@ == client_id
    &&& c.display_name@ == Seq::<char>::empty()
    &&& c.app_kind == AppKind::Dev
    &&& c.version@ == Seq::<char>::empty()
    &&& c.capabilities@ == Seq::<String>::empty()
    &&& c.commands@ == Seq::<String>::empty()
    &&& c.connect_timeout.span() == 10 * timing::second()
    &&& c.heartbeat_interval.span() == 30 * timing::second()
}

impl GatewayConfig {
    /// The usual configuration, for the client with the given ID.
    pub fn for_client(client_id: String) -> (r: GatewayConfig)
        ensures
            is_default(r, client_id@),
    {
        GatewayConfig {
            url: "ws://127.0.0.1:18789".to_owned(),
            auth_token: String::new(),
            auth_method: "token".to_owned(),
            client_id,
            display_name: String::new(),
            app_kind: AppKind::Dev,
            version: String::new(),
            capabilities: Vec::new(),
            commands: Vec::new(),
            connect_timeout: Interval::from_secs(10),
            heartbeat_interval: Interval::from_secs(30),
        }
    }
}

impl Default for GatewayConfig {
    fn default() -> (r: GatewayConfig)
        ensures
            is_default(r, r.client_id@),
            ident::is_uuid(r.client_id@),
    {
        GatewayConfig::for_client(fresh_id())
    }
}

/// A command received from the gateway via node.invoke.
#[derive(Debug, Clone)]
pub struct NodeInvokeRequest {
    /// Request ID (must be echoed in the result).
    pub id: String,
    /// Target node ID.
    pub node_id: String,
    /// Command name (e.g., "dev.chat", "terminal.open", "system.run").
    pub command: String,
    /// Command parameters (JSON).
    pub params: Option<JsonValue>,
    /// Timeout in ms.
    pub timeout_ms: Option<u64>,
}

/// What a [`NodeInvokeRequest`] says.
pub struct InvokeView {
    pub id: Seq<char>,
    pub node_id: Seq<char>,
    pub command: Seq<char>,
    pub params: Option<Json>,
    pub timeout_ms: Option<u64>,
}

impl View for NodeInvokeRequest {
    type V = InvokeView;

    open spec fn view(&self) -> InvokeView {
        InvokeView {
            id: self.id@,
            node_id: self.node_id@,
            command: self.command@,
            params: json::held(self.params),
            timeout_ms: self.timeout_ms,
        }
    }
}

/// The text of a member of an object, empty where there is none.
pub open spec fn member_text(j: Json, name: Seq<char>) -> Seq<char> {
    match json::json_get_str(j, name) {
        Some(s) => s,
        None => Seq::empty(),
    }
}

fn get_text(v: &JsonValue, name: &str) -> (r: String)
    ensures
        r@ == member_text(v@, name@),
{
    match v.get_str(name) {
        Some(s) => s.to_owned(),
        None => String::new(),
    }
}

/// The command that the payload of a `node.invoke.request` event asks for. Its
/// parameters are a JSON text of their own; one that is none counts as absent.
pub open spec fn invoke_of(payload: Json) -> InvokeView {
    InvokeView {
        id: member_text(payload, "id"@),
        node_id: member_text(payload, "nodeId"@),
        command: member_text(payload, "command"@),
        params: match json::json_get_str(payload, "paramsJSON"@) {
            Some(s) => json::json_of_text(s),
            None => None,
        },
        timeout_ms: json::json_get_u64(payload, "timeoutMs"@),
    }
}

impl NodeInvokeRequest {
    /// Reads the payload of a `node.invoke.request` event.
    pub fn from_payload(payload: &JsonValue) -> (r: NodeInvokeRequest)
        ensures
            r@ == invoke_of(payload@),
    {
        let params = match payload.get_str("paramsJSON") {
            Some(s) => JsonValue::parse(s),
            None => None,
        };
        NodeInvokeRequest {
            id: get_text(payload, "id"),
            node_id: get_text(payload, "nodeId"),
            command: get_text(payload, "command"),
            params,
            timeout_ms: payload.get_u64("timeoutMs"),
        }
    }
}

/// A live connection to the bot gateway.
#[derive(Debug)]
pub struct GatewayConnection {
    /// Node ID assigned by gateway.
    pub node_id: String,
    /// Connection ID from hello-ok.
    pub conn_id: String,
    /// Next request ID.
    pub next_id: u64,
    /// The requests that wait for a response: their IDs and their numbers.
    pub pending: Table<u64>,
}

/// What a [`GatewayConnection`] says.
pub struct ConnectionView {
    pub node_id: Seq<char>,
    pub conn_id: Seq<char>,
    pub next_id: u64,
    pub pending: Map<Seq<char>, u64>,
}

impl View for GatewayConnection {
    type V = ConnectionView;

    open spec fn view(&self) -> ConnectionView {
        ConnectionView {
            node_id: self.node_id@,
            conn_id: self.conn_id@,
            next_id: self.next_id,
            pending: self.pending@,
        }
    }
}

/// A connection that has just been made.
pub open spec fn new_connection(node_id: Seq<char>, conn_id: Seq<char>) -> ConnectionView {
    ConnectionView { node_id, conn_id, next_id: 1, pending: Map::empty() }
}

/// A response of the gateway to a request.
#[derive(Debug)]
pub struct GatewayReply {
    pub ok: bool,
    pub payload: Option<JsonValue>,
    pub error: Option<GatewayError>,
}

/// What a [`GatewayReply`] says.
pub struct ReplyView {
    pub ok: bool,
    pub payload: Option<Json>,
    pub error: Option<GatewayErrorView>,
}

impl View for GatewayReply {
    type V = ReplyView;

    open spec fn view(&self) -> ReplyView {
        ReplyView {
            ok: self.ok,
            payload: json::held(self.payload),
            error: seen_error(self.error),
        }
    }
}

/// An optional document as a JSON string that holds its text, null where there is none.
pub open spec fn text_or_null(v: Option<Json>) -> Json {
    match v {
        Some(v) => Json::Str(json::text_of_json(v)),
        None => Json::Null,
    }
}

/// Whether a frame carries a payload as text, from which the payload is read
/// where it has no fraction and is not nested too deep, and null where there is
/// none.
pub open spec fn carries(f: GatewayFrameView, payload: Option<Json>) -> bool {
    &&& f matches GatewayFrameView::Req { params: Some(p), .. }
    &&& match payload {
        Some(v) => {
            &&& json::json_get_str(p, "payloadJSON"@) matches Some(s)
            &&& json::is_plain(v, json::deepest()) ==> json::json_of_text(s) == Some(v)
        },
        None => json::json_get(p, "payloadJSON"@) == Some(Json::Null),
    }
}

fn text_value(v: Option<JsonValue>) -> (r: JsonValue)
    ensures
        r@ == text_or_null(json::held(v)),
        json::held(v) matches Some(p) ==> json::is_plain(p, json::deepest())
            ==> json::json_of_text(json::text_of_json(p)) == Some(p),
{
    match v {
        Some(v) => JsonValue::String(v.to_text()),
        None => JsonValue::Null,
    }
}

/// The frame that carries the result of a node.invoke.
pub open spec fn result_frame(
    id: Seq<char>,
    request_id: Seq<char>,
    node_id: Seq<char>,
    ok: bool,
    payload: Option<Json>,
    error: Option<GatewayErrorView>,
) -> GatewayFrameView {
    GatewayFrameView::Req {
        id,
        method: "node.invoke.result"@,
        params: Some(
            Json::Object(
                Map::empty().insert("id"@, Json::Str(request_id)).insert(
                    "nodeId"@,
                    Json::Str(node_id),
                ).insert("ok"@, Json::Bool(ok)).insert("payloadJSON"@, text_or_null(payload)).insert(
                    "error"@,
                    json::or_null(maybe_error_json(error)),
                ),
            ),
        ),
    }
}

/// The frame that carries a node event.
pub open spec fn event_frame(
    id: Seq<char>,
    event: Seq<char>,
    payload: Option<Json>,
) -> GatewayFrameView {
    GatewayFrameView::Req {
        id,
        method: "node.event"@,
        params: Some(
            Json::Object(
                Map::empty().insert("event"@, Json::Str(event)).insert(
                    "payloadJSON"@,
                    text_or_null(payload),
                ),
            ),
        ),
    }
}

/// The ID of the request with the given number.
pub open spec fn request_id(n: u64) -> Seq<char> {
    "req-"@ + text::decimal(n as nat)
}

/// Different numbers make different request IDs.
pub proof fn request_ids_differ(a: u64, b: u64)
    requires
        a != b,
    ensures
        request_id(a) != request_id(b),
{
    if request_id(a) == request_id(b) {
        let n = "req-"@.len() as int;
        assert(request_id(a).skip(n) =~= text::decimal(a as nat));
        assert(request_id(b).skip(n) =~= text::decimal(b as nat));
        text::decimal_is_injective(a as nat, b as nat);
    }
}

impl GatewayConnection {
    /// A connection that has just been made.
    pub fn new(node_id: String, conn_id: String) -> (r: GatewayConnection)
        ensures
            r@ == new_connection(node_id@, conn_id@),
    {
        GatewayConnection { node_id, conn_id, next_id: 1, pending: Table::new() }
    }

    /// The frame with the result of a node.invoke, under an ID that is given.
    pub fn invoke_result_as(
        &self,
        id: String,
        request_id: &str,
        ok: bool,
        payload: Option<JsonValue>,
        error: Option<GatewayError>,
    ) -> (r: GatewayFrame)
        ensures
            r@ == result_frame(
                id@,
                request_id@,
                self.node_id@,
                ok,
                json::held(payload),
                seen_error(error),
            ),
            carries(r@, json::held(payload)),
    {
        proof {
            reveal_strlit("payloadJSON");
            reveal_strlit("error");
            assert("payloadJSON"@.len() != "error"@.len());
        }
        let mut params = ObjectBuilder::new();
        params.put("id", JsonValue::text(request_id));
        params.put("nodeId", JsonValue::text(self.node_id.as_str()));
        params.put("ok", JsonValue::Bool(ok));
        params.put("payloadJSON", text_value(payload));
        params.put("error", JsonValue::nullable(error_value(&error)));
        GatewayFrame::Req {
            id,
            method: "node.invoke.result".to_owned(),
            params: Some(params.build()),
        }
    }

    /// Send the result of a node.invoke back to the gateway.
    pub fn send_invoke_result(
        &self,
        request_id: &str,
        ok: bool,
        payload: Option<JsonValue>,
        error: Option<GatewayError>,
    ) -> (r: GatewayFrame)
        ensures
            r@ is Req && ident::is_uuid(r@->Req_id),
            r@ == result_frame(
                r@->Req_id,
                request_id@,
                self.node_id@,
                ok,
                json::held(payload),
                seen_error(error),
            ),
            carries(r@, json::held(payload)),
    {
        self.invoke_result_as(fresh_id(), request_id, ok, payload, error)
    }

    /// The frame with a node event, under an ID that is given.
    pub fn node_event_as(id: String, event: &str, payload: Option<JsonValue>) -> (r: GatewayFrame)
        ensures
            r@ == event_frame(id@, event@, json::held(payload)),
            carries(r@, json::held(payload)),
    {
        let mut params = ObjectBuilder::new();
        params.put("event", JsonValue::text(event));
        params.put("payloadJSON", text_value(payload));
        GatewayFrame::Req { id, method: "node.event".to_owned(), params: Some(params.build()) }
    }

    /// Send a node event to the gateway (broadcast to operators).
    pub fn send_node_event(&self, event: &str, payload: Option<JsonValue>) -> (r: GatewayFrame)
        ensures
            r@ is Req && ident::is_uuid(r@->Req_id),
            r@ == event_frame(r@->Req_id, event@, json::held(payload)),
            carries(r@, json::held(payload)),
    {
        GatewayConnection::node_event_as(fresh_id(), event, payload)
    }

    /// Send a request to the gateway and get a response: the request is pending
    /// until its response comes. Requests are numbered from one on.
    pub fn request(&mut self, method: &str, params: Option<JsonValue>) -> (r: GatewayFrame)
        ensures
            r@ == (GatewayFrameView::Req {
                id: request_id(old(self)@.next_id),
                method: method@,
                params: json::held(params),
            }),
            final(self)@ == after_request(old(self)@),
    {
        let n: u64 = self.next_id;
        self.next_id = n.wrapping_add(1);
        let id = joined("req-", number_text(n).as_str());
        self.pending.insert(id.as_str(), n);
        GatewayFrame::Req { id, method: method.to_owned(), params }
    }
}

/// A connection once a request has been made on it. After the last number the
/// count begins again.
pub open spec fn after_request(c: ConnectionView) -> ConnectionView {
    ConnectionView {
        next_id: if c.next_id == u64::MAX {
            0
        } else {
            (c.next_id + 1) as u64
        },
        pending: c.pending.insert(request_id(c.next_id), c.next_id),
        ..c
    }
}

/// The result of a node.invoke echoes the ID of the request that it answers.
pub proof fn result_echoes_request(
    id: Seq<char>,
    request_id: Seq<char>,
    node_id: Seq<char>,
    ok: bool,
    payload: Option<Json>,
    error: Option<GatewayErrorView>,
)
    ensures
        result_frame(id, request_id, node_id, ok, payload, error) matches GatewayFrameView::Req {
            params,
            ..
        } && params is Some && json::json_get_str(params->0, "id"@) == Some(request_id)
            && json::json_get(params->0, "ok"@) == Some(Json::Bool(ok)),
{
    reveal_strlit("id");
    reveal_strlit("nodeId");
    reveal_strlit("ok");
    reveal_strlit("payloadJSON");
    reveal_strlit("error");
    assert("id"@.len() == 2 && "id"@[0] == 'i' && "ok"@.len() == 2 && "ok"@[0] == 'o');
    assert("nodeId"@.len() == 6 && "payloadJSON"@.len() == 11 && "error"@.len() == 5);
}

/// The gateway reads the result of every node.invoke, where its error has no
/// details, and every node event: their documents are read back from their
/// texts, and hold the frames.
pub proof fn reports_are_plain(
    id: Seq<char>,
    name: Seq<char>,
    node_id: Seq<char>,
    ok: bool,
    payload: Option<Json>,
    error: Option<GatewayErrorView>,
)
    requires
        error matches Some(e) ==> e.details is None,
    ensures
        is_canonical(result_frame(id, name, node_id, ok, payload, error)),
        is_canonical(event_frame(id, name, payload)),
        json::is_plain(
            gateway_json(result_frame(id, name, node_id, ok, payload, error)),
            json::deepest(),
        ),
        json::is_plain(gateway_json(event_frame(id, name, payload)), json::deepest()),
{
    let d1 = (json::deepest() - 1) as nat;
    let d2 = (json::deepest() - 2) as nat;
    let result = result_frame(id, name, node_id, ok, payload, error);
    let event = event_frame(id, name, payload);
    let r = result->Req_params->0->Object_0;
    let e = event->Req_params->0->Object_0;
    assert forall|k: Seq<char>| #[trigger] r.contains_key(k) implies json::is_plain(r[k], d2) by {
        reveal_with_fuel(json::is_plain, 2);
    }
    assert forall|k: Seq<char>| #[trigger] e.contains_key(k) implies json::is_plain(e[k], d2) by {}
    assert(json::is_plain(result->Req_params->0, d1));
    assert(json::is_plain(event->Req_params->0, d1));
    let top_r = gateway_json(result)->Object_0;
    let top_e = gateway_json(event)->Object_0;
    assert forall|k: Seq<char>| #[trigger] top_r.contains_key(k) implies json::is_plain(
        top_r[k],
        d1,
    ) by {}
    assert forall|k: Seq<char>| #[trigger] top_e.contains_key(k) implies json::is_plain(
        top_e[k],
        d1,
    ) by {}
}

/// How a client proves who it is: by a password where that is its method, else by a token.
pub open spec fn credentials(method: Seq<char>, token: Seq<char>) -> Json {
    Json::Object(
        Map::empty().insert(
            if method == "password"@ {
                "password"@
            } else {
                "token"@
            },
            Json::Str(token),
        ),
    )
}

/// The platform string that an app kind maps to, on a host with the given
/// operating system and architecture.
pub open spec fn node_platform(kind: AppKind, host: Seq<char>) -> Seq<char> {
    protocol::kind_name(kind) + "-"@ + host
}

/// The platform string tells the app kinds apart, and the hosts.
pub proof fn platforms_differ(a: AppKind, b: AppKind, host: Seq<char>, other: Seq<char>)
    requires
        node_platform(a, host) == node_platform(b, other),
    ensures
        a == b,
        host == other,
{
    reveal_strlit("-");
    reveal_strlit("dev");
    reveal_strlit("node");
    reveal_strlit("desktop");
    reveal_strlit("bot");
    reveal_strlit("extension");
    let x = node_platform(a, host);
    let y = node_platform(b, other);
    let n = protocol::kind_name(a).len() as int;
    let m = protocol::kind_name(b).len() as int;
    assert("dev"@.len() == 3 && "node"@.len() == 4 && "desktop"@.len() == 7 && "bot"@.len() == 3
        && "extension"@.len() == 9 && "-"@.len() == 1);
    assert(x[n] == '-' && y[m] == '-');
    assert(forall|i: int| 0 <= i < n ==> x[i] == #[trigger] protocol::kind_name(a)[i]);
    assert(forall|i: int| 0 <= i < m ==> y[i] == #[trigger] protocol::kind_name(b)[i]);
    if n < m {
        assert(protocol::kind_name(b)[n] == '-');
    } else if m < n {
        assert(protocol::kind_name(a)[m] == '-');
    } else {
        assert(protocol::kind_name(a)[0] == protocol::kind_name(b)[0]);
        assert("dev"@[0] == 'd' && "bot"@[0] == 'b');
        assert(x.skip(n + 1) =~= host);
        assert(y.skip(m + 1) =~= other);
    }
}

/// The request by which a client connects from a host with the given operating
/// system and architecture.
pub open spec fn connect_frame(
    c: GatewayConfig,
    host: Seq<char>,
    id: Seq<char>,
) -> GatewayFrameView {
    let client = Map::empty().insert("id"@, Json::Str(c.client_id@)).insert(
        "displayName"@,
        Json::Str(c.display_name@),
    ).insert("version"@, Json::Str(c.version@)).insert(
        "platform"@,
        Json::Str(node_platform(c.app_kind, host)),
    ).insert(
        "mode"@,
        Json::Str("node"@),
    );
    GatewayFrameView::Req {
        id,
        method: "connect"@,
        params: Some(
            Json::Object(
                Map::empty().insert("minProtocol"@, Json::Int(1)).insert(
                    "maxProtocol"@,
                    Json::Int(1),
                ).insert("client"@, Json::Object(client)).insert(
                    "caps"@,
                    json::json_texts(text::texts(c.capabilities@)),
                ).insert("commands"@, json::json_texts(text::texts(c.commands@))).insert(
                    "role"@,
                    Json::Str("node"@),
                ).insert("auth"@, credentials(c.auth_method@, c.auth_token@)),
            ),
        ),
    }
}

/// The gateway reads every request to connect: its document is read back from
/// its text, and holds the frame.
pub proof fn connect_is_plain(c: GatewayConfig, platform: Seq<char>, id: Seq<char>)
    ensures
        is_canonical(connect_frame(c, platform, id)),
        json::is_plain(gateway_json(connect_frame(c, platform, id)), json::deepest()),
{
    let d = json::deepest();
    let d1 = (d - 1) as nat;
    let d2 = (d - 2) as nat;
    json::texts_are_plain(text::texts(c.capabilities@), d2);
    json::texts_are_plain(text::texts(c.commands@), d2);
    let f = gateway_json(connect_frame(c, platform, id));
    let params = connect_frame(c, platform, id)->Req_params->0;
    let m = params->Object_0;
    assert forall|k: Seq<char>| #[trigger] m.contains_key(k) implies json::is_plain(m[k], d2) by {
        reveal_with_fuel(json::is_plain, 2);
    }
    assert(json::is_plain(params, d1));
    let top = f->Object_0;
    assert forall|k: Seq<char>| #[trigger] top.contains_key(k) implies json::is_plain(
        top[k],
        d1,
    ) by {}
}

/// The request by which a client connects, under an ID that is given.
pub fn connect_request(config: &GatewayConfig, platform: &str, id: &str) -> (r: GatewayFrame)
    ensures
        r@ == connect_frame(*config, platform@, id@),
{
    let mut client = ObjectBuilder::new();
    client.put("id", JsonValue::text(config.client_id.as_str()));
    client.put("displayName", JsonValue::text(config.display_name.as_str()));
    client.put("version", JsonValue::text(config.version.as_str()));
    let kind = joined(config.app_kind.name(), "-");
    client.put("platform", JsonValue::String(joined(kind.as_str(), platform)));
    client.put("mode", JsonValue::text("node"));
    let mut auth = ObjectBuilder::new();
    if same(config.auth_method.as_str(), "password") {
        auth.put("password", JsonValue::text(config.auth_token.as_str()));
    } else {
        auth.put("token", JsonValue::text(config.auth_token.as_str()));
    }
    let mut params = ObjectBuilder::new();
    params.put("minProtocol", JsonValue::unsigned(1));
    params.put("maxProtocol", JsonValue::unsigned(1));
    params.put("client", client.build());
    params.put("caps", JsonValue::texts(&config.capabilities));
    params.put("commands", JsonValue::texts(&config.commands));
    params.put("role", JsonValue::text("node"));
    params.put("auth", auth.build());
    GatewayFrame::Req {
        id: id.to_owned(),
        method: "connect".to_owned(),
        params: Some(params.build()),
    }
}

/// What to dial for the gateway, which has a handshake of its own in place of
/// an `Authorization` header.
pub fn gateway_dial(config: &GatewayConfig) -> (r: Result<Dial, TunnelError>)
    ensures
        transport::dial_view(r) == transport::dialled(
            config.url@,
            transport::url_refusal(config.url@),
            Seq::empty(),
            config.connect_timeout.span(),
        ),
{
    plain_dial(config.url.as_str(), config.connect_timeout)
}

/// What a handshake waits for.
#[derive(Debug, Clone, Copy, PartialEq, Eq, Structural)]
pub enum HandshakePhase {
    /// The challenge of the gateway.
    Challenge,
    /// The answer to the connect request.
    Hello,
}

/// A handshake under way.
#[derive(Debug)]
pub struct Handshake {
    pub config: GatewayConfig,
    pub platform: String,
    pub connect_id: String,
    pub phase: HandshakePhase,
}

/// What has happened during a handshake.
pub enum HandshakeEvent {
    /// The gateway has sent a text message.
    Text(String),
    /// The gateway has sent another message, or reading one has failed.
    OtherMessage,
    /// The WebSocket has ended.
    Ended,
    /// The phase has taken too long.
    TimedOut,
    /// The connect request has been sent.
    Sent,
    /// The connect request could not be sent, for this reason.
    SendFailed(String),
}

/// What to do next in a handshake.
pub enum HandshakeAction {
    /// Wait for the next event.
    Wait,
    /// Send a text message; the limit of the new phase begins.
    Send(String),
    /// The connection stands.
    Done(GatewayConnection),
    /// There will be none.
    Fail(TunnelError),
}

/// What a [`HandshakeEvent`] says.
pub enum HandshakeEventOf {
    Text(Seq<char>),
    OtherMessage,
    Ended,
    TimedOut,
    Sent,
    SendFailed(Seq<char>),
}

/// What a [`HandshakeAction`] says.
pub enum HandshakeActionOf {
    Wait,
    Send(Seq<char>),
    Done(ConnectionView),
    Fail(ErrorView),
}

impl View for HandshakeEvent {
    type V = HandshakeEventOf;

    open spec fn view(&self) -> HandshakeEventOf {
        match *self {
            HandshakeEvent::Text(s) => HandshakeEventOf::Text(s@),
            HandshakeEvent::OtherMessage => HandshakeEventOf::OtherMessage,
            HandshakeEvent::Ended => HandshakeEventOf::Ended,
            HandshakeEvent::TimedOut => HandshakeEventOf::TimedOut,
            HandshakeEvent::Sent => HandshakeEventOf::Sent,
            HandshakeEvent::SendFailed(s) => HandshakeEventOf::SendFailed(s@),
        }
    }
}

impl View for HandshakeAction {
    type V = HandshakeActionOf;

    open spec fn view(&self) -> HandshakeActionOf {
        match *self {
            HandshakeAction::Wait => HandshakeActionOf::Wait,
            HandshakeAction::Send(s) => HandshakeActionOf::Send(s@),
            HandshakeAction::Done(c) => HandshakeActionOf::Done(c@),
            HandshakeAction::Fail(e) => HandshakeActionOf::Fail(e@),
        }
    }
}

/// Whether a frame is the challenge of the gateway.
pub open spec fn is_challenge(f: Option<GatewayFrameView>) -> bool {
    f matches Some(GatewayFrameView::Event { event, .. }) && event == "connect.challenge"@
}

/// Decides whether a frame is the challenge of the gateway.
pub fn challenges(f: &Option<GatewayFrame>) -> (r: bool)
    ensures
        r == is_challenge(seen_frame(*f)),
{
    match f {
        Some(GatewayFrame::Event { event, .. }) => same(event.as_str(), "connect.challenge"),
        _ => false,
    }
}

/// What a message is to a client that has asked to connect.
pub enum Answer {
    /// It is no answer.
    Nothing,
    /// The connection stands, under this ID.
    Welcome(Seq<char>),
    /// The client is not let in, for this reason.
    Refused(Seq<char>),
}

/// The connection ID that a hello-ok gives, "unknown" where it gives none.
pub open spec fn connection_id(hello: Json) -> Seq<char> {
    match json::json_get(hello, "server"@) {
        Some(server) => match json::json_get_str(server, "connId"@) {
            Some(id) => id,
            None => "unknown"@,
        },
        None => "unknown"@,
    }
}

/// What a document, and the frame that it holds, is to a client that has asked
/// to connect under the given ID: a hello-ok lets it in, a failed response to
/// its request does not, and anything else is no answer.
pub open spec fn answer_of(
    j: Option<Json>,
    f: Option<GatewayFrameView>,
    connect_id: Seq<char>,
) -> Answer {
    match j {
        None => Answer::Nothing,
        Some(j) => if json::json_get_str(j, "type"@) == Some("hello-ok"@) {
            Answer::Welcome(connection_id(j))
        } else {
            match f {
                Some(GatewayFrameView::Res { id, ok, error, .. }) => if id == connect_id && !ok {
                    Answer::Refused(
                        match error {
                            Some(e) => e.message,
                            None => "connect rejected"@,
                        },
                    )
                } else {
                    Answer::Nothing
                },
                _ => Answer::Nothing,
            }
        },
    }
}

/// What to do about an answer.
pub open spec fn on_answer(a: Answer, client_id: Seq<char>) -> HandshakeActionOf {
    match a {
        Answer::Nothing => HandshakeActionOf::Wait,
        Answer::Welcome(conn_id) => HandshakeActionOf::Done(new_connection(client_id, conn_id)),
        Answer::Refused(reason) => HandshakeActionOf::Fail(ErrorView::Auth(reason)),
    }
}

/// What to do about a document, and the frame that it holds, that has come
/// after the request to connect.
pub fn hear_answer(
    v: Option<JsonValue>,
    f: Option<GatewayFrame>,
    connect_id: &str,
    client_id: &str,
) -> (r: HandshakeAction)
    ensures
        r@ == on_answer(answer_of(json::held(v), seen_frame(f), connect_id@), client_id@),
{
    match v {
        None => HandshakeAction::Wait,
        Some(v) => {
            let hello = match v.get_str("type") {
                Some(kind) => same(kind, "hello-ok"),
                None => false,
            };
            if hello {
                let conn_id = match v.get("server") {
                    Some(server) => match server.get_str("connId") {
                        Some(id) => id.to_owned(),
                        None => "unknown".to_owned(),
                    },
                    None => "unknown".to_owned(),
                };
                HandshakeAction::Done(GatewayConnection::new(client_id.to_owned(), conn_id))
            } else {
                match f {
                    Some(GatewayFrame::Res { id, ok, error, .. }) => if same(
                        id.as_str(),
                        connect_id,
                    ) && !ok {
                        let reason = match error {
                            Some(e) => e.message,
                            None => "connect rejected".to_owned(),
                        };
                        HandshakeAction::Fail(TunnelError::Auth(reason))
                    } else {
                        HandshakeAction::Wait
                    },
                    _ => HandshakeAction::Wait,
                }
            }
        },
    }
}

/// What to do about an event of a handshake, and what it waits for then.
pub open spec fn on_handshake(h: Handshake, e: HandshakeEventOf) -> (
    HandshakePhase,
    HandshakeActionOf,
) {
    match e {
        HandshakeEventOf::OtherMessage | HandshakeEventOf::Sent => (
            h.phase,
            HandshakeActionOf::Wait,
        ),
        HandshakeEventOf::SendFailed(reason) => (
            h.phase,
            HandshakeActionOf::Fail(ErrorView::Connection(reason)),
        ),
        HandshakeEventOf::Text(s) => match h.phase {
            HandshakePhase::Challenge => if is_challenge(gateway_of_text(s)) {
                (
                    HandshakePhase::Hello,
                    HandshakeActionOf::Send(
                        gateway_text(connect_frame(h.config, h.platform@, h.connect_id@)),
                    ),
                )
            } else {
                (h.phase, HandshakeActionOf::Wait)
            },
            HandshakePhase::Hello => (
                h.phase,
                on_answer(
                    answer_of(json::json_of_text(s), gateway_of_text(s), h.connect_id@),
                    h.config.client_id@,
                ),
            ),
        },
        HandshakeEventOf::Ended => (
            h.phase,
            HandshakeActionOf::Fail(
                ErrorView::Connection(
                    match h.phase {
                        HandshakePhase::Challenge => "no challenge received"@,
                        HandshakePhase::Hello => "no hello-ok received"@,
                    },
                ),
            ),
        ),
        HandshakeEventOf::TimedOut => (
            h.phase,
            HandshakeActionOf::Fail(
                ErrorView::Connection(
                    match h.phase {
                        HandshakePhase::Challenge => "challenge timeout"@,
                        HandshakePhase::Hello => "hello-ok timeout"@,
                    },
                ),
            ),
        ),
    }
}

impl Handshake {
    /// A handshake that begins, with the ID of its connect request given.
    pub fn begin_as(config: GatewayConfig, platform: String, connect_id: String) -> (r: Handshake)
        ensures
            r.config == config,
            r.platform@ == platform@,
            r.connect_id@ == connect_id@,
            r.phase == HandshakePhase::Challenge,
    {
        Handshake { config, platform, connect_id, phase: HandshakePhase::Challenge }
    }

    /// A handshake that begins.
    pub fn begin(config: GatewayConfig, platform: String) -> (r: Handshake)
        ensures
            r.config == config,
            r.platform@ == platform@,
            ident::is_uuid(r.connect_id@),
            r.phase == HandshakePhase::Challenge,
    {
        Handshake::begin_as(config, platform, fresh_id())
    }

    /// How long the phase may take.
    pub fn limit(&self) -> (r: Interval)
        ensures
            r.span() == timing::second() * (match self.phase {
                HandshakePhase::Challenge => 5nat,
                HandshakePhase::Hello => 10nat,
            }),
    {
        match self.phase {
            HandshakePhase::Challenge => Interval::from_secs(5),
            HandshakePhase::Hello => Interval::from_secs(10),
        }
    }
}

/// Connect to the bot gateway using its native protocol: one turn of the
/// challenge/connect/hello-ok handshake. What is sent the gateway reads as the
/// request to connect.
pub fn connect_gateway(handshake: &mut Handshake, event: HandshakeEvent) -> (r: HandshakeAction)
    ensures
        (final(handshake).phase, r@) == on_handshake(*old(handshake), event@),
        final(handshake).config == old(handshake).config,
        final(handshake).platform == old(handshake).platform,
        final(handshake).connect_id == old(handshake).connect_id,
        r@ matches HandshakeActionOf::Send(s) ==> gateway_of_text(s) == Some(
            connect_frame(
                old(handshake).config,
                old(handshake).platform@,
                old(handshake).connect_id@,
            ),
        ),
{
    proof {
        connect_is_plain(handshake.config, handshake.platform@, handshake.connect_id@);
    }
    match event {
        HandshakeEvent::OtherMessage => HandshakeAction::Wait,
        HandshakeEvent::Sent => HandshakeAction::Wait,
        HandshakeEvent::SendFailed(reason) => HandshakeAction::Fail(
            TunnelError::Connection(reason),
        ),
        HandshakeEvent::Text(s) => match handshake.phase {
            HandshakePhase::Challenge => {
                if challenges(&GatewayFrame::from_json(s.as_str())) {
                    handshake.phase = HandshakePhase::Hello;
                    let request = connect_request(
                        &handshake.config,
                        handshake.platform.as_str(),
                        handshake.connect_id.as_str(),
                    );
                    HandshakeAction::Send(request.to_json())
                } else {
                    HandshakeAction::Wait
                }
            },
            HandshakePhase::Hello => hear_answer(
                JsonValue::parse(s.as_str()),
                GatewayFrame::from_json(s.as_str()),
                handshake.connect_id.as_str(),
                handshake.config.client_id.as_str(),
            ),
        },
        HandshakeEvent::Ended => HandshakeAction::Fail(
            TunnelError::connection(
                match handshake.phase {
                    HandshakePhase::Challenge => "no challenge received",
                    HandshakePhase::Hello => "no hello-ok received",
                },
            ),
        ),
        HandshakeEvent::TimedOut => HandshakeAction::Fail(
            TunnelError::connection(
                match handshake.phase {
                    HandshakePhase::Challenge => "challenge timeout",
                    HandshakePhase::Hello => "hello-ok timeout",
                },
            ),
        ),
    }
}

/// No connection stands before the challenge has been answered, and none
/// without a hello-ok.
pub proof fn handshake_is_ordered(h: Handshake, e: HandshakeEventOf)
    ensures
        on_handshake(h, e).1 is Send ==> h.phase == HandshakePhase::Challenge && on_handshake(
            h,
            e,
        ).0 == HandshakePhase::Hello,
        on_handshake(h, e).1 is Done ==> {
            &&& h.phase == HandshakePhase::Hello
            &&& e matches HandshakeEventOf::Text(s)
            &&& json::json_of_text(s) matches Some(j)
            &&& json::json_get_str(j, "type"@) == Some("hello-ok"@)
        },
        h.phase == HandshakePhase::Hello ==> on_handshake(h, e).0 == HandshakePhase::Hello,
{
}

/// What has happened on a connection to the gateway.
pub enum GatewayEvent {
    /// The shutdown signal has changed, to this.
    Shutdown(bool),
    /// There is a frame for the gateway.
    Outgoing(GatewayFrame),
    /// The gateway has sent a text message.
    Text(String),
    /// The gateway has sent a WebSocket ping with this data.
    WsPing(Vec<u8>),
    /// The gateway has closed the WebSocket, or it has ended.
    Closed,
    /// The gateway has sent a message of another kind.
    OtherMessage,
    /// Reading the WebSocket has failed.
    ReadFailed,
    /// It is time for a heartbeat.
    Tick,
    /// A frame has been sent, or could not be.
    Sent(bool),
}

/// What to do next on a connection to the gateway.
pub enum GatewayAction {
    /// Wait for the next event.
    Wait,
    /// Send a text message.
    SendText(String),
    /// Send a WebSocket pong with this data, whether or not that succeeds.
    SendPong(Vec<u8>),
    /// Hand a command to whoever receives commands, if anybody does.
    Invoke(NodeInvokeRequest),
    /// Hand an event to whoever receives events, if anybody does.
    Event(String, Option<JsonValue>),
    /// Hand a response to whoever made the request with this ID.
    Answer(String, GatewayReply),
    /// Close the WebSocket and end.
    Close,
    /// End.
    End,
}

/// What a [`GatewayEvent`] says.
pub enum GatewayEventOf {
    Shutdown(bool),
    Outgoing(GatewayFrameView),
    Text(Seq<char>),
    WsPing(Seq<u8>),
    Closed,
    OtherMessage,
    ReadFailed,
    Tick,
    Sent(bool),
}

/// What a [`GatewayAction`] says.
pub enum GatewayActionOf {
    Wait,
    SendText(Seq<char>),
    SendPong(Seq<u8>),
    Invoke(InvokeView),
    Event(Seq<char>, Option<Json>),
    Answer(Seq<char>, ReplyView),
    Close,
    End,
}

impl View for GatewayEvent {
    type V = GatewayEventOf;

    open spec fn view(&self) -> GatewayEventOf {
        match *self {
            GatewayEvent::Shutdown(b) => GatewayEventOf::Shutdown(b),
            GatewayEvent::Outgoing(f) => GatewayEventOf::Outgoing(f@),
            GatewayEvent::Text(s) => GatewayEventOf::Text(s@),
            GatewayEvent::WsPing(d) => GatewayEventOf::WsPing(d@),
            GatewayEvent::Closed => GatewayEventOf::Closed,
            GatewayEvent::OtherMessage => GatewayEventOf::OtherMessage,
            GatewayEvent::ReadFailed => GatewayEventOf::ReadFailed,
            GatewayEvent::Tick => GatewayEventOf::Tick,
            GatewayEvent::Sent(b) => GatewayEventOf::Sent(b),
        }
    }
}

impl View for GatewayAction {
    type V = GatewayActionOf;

    open spec fn view(&self) -> GatewayActionOf {
        match *self {
            GatewayAction::Wait => GatewayActionOf::Wait,
            GatewayAction::SendText(s) => GatewayActionOf::SendText(s@),
            GatewayAction::SendPong(d) => GatewayActionOf::SendPong(d@),
            GatewayAction::Invoke(r) => GatewayActionOf::Invoke(r@),
            GatewayAction::Event(s, p) => GatewayActionOf::Event(s@, json::held(p)),
            GatewayAction::Answer(id, r) => GatewayActionOf::Answer(id@, r@),
            GatewayAction::Close => GatewayActionOf::Close,
            GatewayAction::End => GatewayActionOf::End,
        }
    }
}

/// What to do about a frame of the gateway, and the requests that wait for a
/// response then: a request to invoke a command is handed on, unless it has no
/// payload, ticks are ignored and other events handed on; the response to a
/// request is handed to whoever made it; other responses, requests and what is
/// no frame are ignored.
pub open spec fn on_gateway_frame(
    pending: Map<Seq<char>, u64>,
    f: Option<GatewayFrameView>,
) -> (Map<Seq<char>, u64>, GatewayActionOf) {
    match f {
        Some(GatewayFrameView::Event { event, payload, .. }) => (
            pending,
            if event == "node.invoke.request"@ {
                match payload {
                    Some(p) => GatewayActionOf::Invoke(invoke_of(p)),
                    None => GatewayActionOf::Wait,
                }
            } else if event == "tick"@ {
                GatewayActionOf::Wait
            } else {
                GatewayActionOf::Event(event, payload)
            },
        ),
        Some(GatewayFrameView::Res { id, ok, payload, error }) => if pending.contains_key(id) {
            (pending.remove(id), GatewayActionOf::Answer(id, ReplyView { ok, payload, error }))
        } else {
            (pending, GatewayActionOf::Wait)
        },
        _ => (pending, GatewayActionOf::Wait),
    }
}

/// What to do about an event of a connection to the gateway, and the requests
/// that wait for a response then.
pub open spec fn on_gateway(pending: Map<Seq<char>, u64>, e: GatewayEventOf) -> (
    Map<Seq<char>, u64>,
    GatewayActionOf,
) {
    match e {
        GatewayEventOf::Shutdown(stop) => (
            pending,
            if stop {
                GatewayActionOf::Close
            } else {
                GatewayActionOf::Wait
            },
        ),
        GatewayEventOf::Outgoing(f) => (pending, GatewayActionOf::SendText(gateway_text(f))),
        GatewayEventOf::Text(s) => on_gateway_frame(pending, gateway_of_text(s)),
        GatewayEventOf::WsPing(d) => (pending, GatewayActionOf::SendPong(d)),
        GatewayEventOf::Closed => (pending, GatewayActionOf::End),
        GatewayEventOf::OtherMessage => (pending, GatewayActionOf::Wait),
        GatewayEventOf::ReadFailed => (pending, GatewayActionOf::End),
        GatewayEventOf::Tick => (pending, GatewayActionOf::Wait),
        GatewayEventOf::Sent(done) => (
            pending,
            if done {
                GatewayActionOf::Wait
            } else {
                GatewayActionOf::End
            },
        ),
    }
}

/// The requests that still wait for their response after the given frames.
pub open spec fn pending_after(
    pending: Map<Seq<char>, u64>,
    frames: Seq<Option<GatewayFrameView>>,
) -> Map<Seq<char>, u64>
    decreases frames.len(),
{
    if frames.len() == 0 {
        pending
    } else {
        on_gateway_frame(pending_after(pending, frames.drop_last()), frames.last()).0
    }
}

/// Whether a frame is a response to the request with the given ID.
pub open spec fn responds(f: Option<GatewayFrameView>, to: Seq<char>) -> bool {
    f matches Some(GatewayFrameView::Res { id, .. }) && id == to
}

/// A request waits until a response to it has come, and not after.
proof fn waits_for_response(
    pending: Map<Seq<char>, u64>,
    frames: Seq<Option<GatewayFrameView>>,
    id: Seq<char>,
)
    ensures
        pending_after(pending, frames).contains_key(id) == (pending.contains_key(id) && forall|
            i: int,
        |
            0 <= i < frames.len() ==> !responds(#[trigger] frames[i], id)),
    decreases frames.len(),
{
    if frames.len() > 0 {
        let fewer = frames.drop_last();
        waits_for_response(pending, fewer, id);
        if forall|i: int| 0 <= i < frames.len() ==> !responds(#[trigger] frames[i], id) {
            assert forall|i: int| 0 <= i < fewer.len() implies !responds(
                #[trigger] fewer[i],
                id,
            ) by {
                assert(fewer[i] == frames[i]);
            }
        } else if pending_after(pending, fewer).contains_key(id) {
            assert forall|i: int| 0 <= i < frames.len() - 1 implies !responds(
                #[trigger] frames[i],
                id,
            ) by {
                assert(fewer[i] == frames[i]);
            }
        }
    }
}

/// Whatever comes before it, the first response to a request is handed to who
/// asked, and whatever comes after it, no other is.
pub proof fn requests_get_their_response(
    c: ConnectionView,
    before: Seq<Option<GatewayFrameView>>,
    ok: bool,
    payload: Option<Json>,
    error: Option<GatewayErrorView>,
    after: Seq<Option<GatewayFrameView>>,
    again: Option<GatewayFrameView>,
)
    requires
        forall|i: int|
            0 <= i < before.len() ==> !responds(#[trigger] before[i], request_id(c.next_id)),
        responds(again, request_id(c.next_id)),
    ensures
        ({
            let id = request_id(c.next_id);
            let response = Some(GatewayFrameView::Res { id, ok, payload, error });
            let waiting = pending_after(after_request(c).pending, before);
            let (answered, action) = on_gateway_frame(waiting, response);
            &&& waiting.contains_key(id)
            &&& action == GatewayActionOf::Answer(id, ReplyView { ok, payload, error })
            &&& on_gateway_frame(pending_after(answered, after), again).1 == GatewayActionOf::Wait
        }),
{
    let id = request_id(c.next_id);
    let response = Some(GatewayFrameView::Res { id, ok, payload, error });
    let asked = after_request(c).pending;
    waits_for_response(asked, before, id);
    let (answered, action) = on_gateway_frame(pending_after(asked, before), response);
    waits_for_response(answered, after, id);
}

/// What to do about a frame that has come from the gateway.
pub fn receive(connection: &mut GatewayConnection, f: Option<GatewayFrame>) -> (r: GatewayAction)
    ensures
        (final(connection)@.pending, r@) == on_gateway_frame(
            old(connection)@.pending,
            seen_frame(f),
        ),
        final(connection)@ == (ConnectionView {
            pending: final(connection)@.pending,
            ..old(connection)@
        }),
{
    match f {
        Some(GatewayFrame::Event { event, payload, .. }) => if same(
            event.as_str(),
            "node.invoke.request",
        ) {
            match payload {
                Some(p) => GatewayAction::Invoke(NodeInvokeRequest::from_payload(&p)),
                None => GatewayAction::Wait,
            }
        } else if same(event.as_str(), "tick") {
            GatewayAction::Wait
        } else {
            GatewayAction::Event(event, payload)
        },
        Some(GatewayFrame::Res { id, ok, payload, error }) => {
            if connection.pending.get(id.as_str()).is_some() {
                connection.pending.remove(id.as_str());
                GatewayAction::Answer(id, GatewayReply { ok, payload, error })
            } else {
                GatewayAction::Wait
            }
        },
        _ => GatewayAction::Wait,
    }
}

/// One turn of the loop that runs a connection to the gateway. What is sent
/// the gateway reads as the same frame, where its document has no fraction and
/// is not nested too deep.
pub fn run_gateway(connection: &mut GatewayConnection, event: GatewayEvent) -> (r: GatewayAction)
    ensures
        (final(connection)@.pending, r@) == on_gateway(old(connection)@.pending, event@),
        final(connection)@ == (ConnectionView {
            pending: final(connection)@.pending,
            ..old(connection)@
        }),
        event@ matches GatewayEventOf::Outgoing(f) ==> is_canonical(f) && json::is_plain(
            gateway_json(f),
            json::deepest(),
        ) ==> gateway_of_text(r@->SendText_0) == Some(f),
{
    match event {
        GatewayEvent::Shutdown(stop) => if stop {
            GatewayAction::Close
        } else {
            GatewayAction::Wait
        },
        GatewayEvent::Outgoing(f) => GatewayAction::SendText(f.to_json()),
        GatewayEvent::Text(s) => receive(connection, GatewayFrame::from_json(s.as_str())),
        GatewayEvent::WsPing(d) => GatewayAction::SendPong(d),
        GatewayEvent::Closed => GatewayAction::End,
        GatewayEvent::OtherMessage => GatewayAction::Wait,
        GatewayEvent::ReadFailed => GatewayAction::End,
        GatewayEvent::Tick => GatewayAction::Wait,
        GatewayEvent::Sent(done) => if done {
            GatewayAction::Wait
        } else {
            GatewayAction::End
        },
    }
}

/// What the fields of frames, errors, requests and replies hold is what these
/// say.
pub proof fn values_say_their_fields(
    e: GatewayError,
    r: NodeInvokeRequest,
    y: GatewayReply,
    c: GatewayConnection,
)
    ensures
        e@.code == e.code@ && e@.message == e.message@ && e@.details == json::held(e.details),
        seen_error(Some(e)) == Some(e@) && seen_error(None) is None,
        r@.id == r.id@ && r@.node_id == r.node_id@ && r@.command == r.command@ && r@.params
            == json::held(r.params) && r@.timeout_ms == r.timeout_ms,
        y@.ok == y.ok && y@.payload == json::held(y.payload) && y@.error == seen_error(y.error),
        c@.node_id == c.node_id@ && c@.conn_id == c.conn_id@ && c@.next_id == c.next_id
            && c@.pending == c.pending@,
{
}

/// What a gateway frame says is what its fields hold.
pub proof fn frames_say_their_fields(f: GatewayFrame)
    ensures
        f matches GatewayFrame::Req { id, method, params } ==> f@ == (GatewayFrameView::Req {
            id: id@,
            method: method@,
            params: json::held(params),
        }),
        f matches GatewayFrame::Res { id, ok, payload, error } ==> f@ == (GatewayFrameView::Res {
            id: id@,
            ok,
            payload: json::held(payload),
            error: seen_error(error),
        }),
        f matches GatewayFrame::Event { event, payload, seq } ==> f@ == (GatewayFrameView::Event {
            event: event@,
            payload: json::held(payload),
            seq,
        }),
        seen_frame(Some(f)) == Some(f@),
        seen_frame(None) is None,
{
}

/// The document of an error has its code, its message and its details, where it
/// has some, and nothing else.
pub proof fn error_is_written(e: GatewayErrorView)
    ensures
        error_json(e) is Object,
        forall|name: Seq<char>| #[trigger]
            json::json_get(error_json(e), name) == if name == "code"@ {
                Some(Json::Str(e.code))
            } else if name == "message"@ {
                Some(Json::Str(e.message))
            } else if name == "details"@ {
                e.details
            } else {
                None
            },
{
    names();
}

/// The document of a gateway frame has its discriminator, each field of the
/// frame under its name, the optional ones where they are there, and nothing
/// else.
pub proof fn gateway_frame_is_written(f: GatewayFrameView)
    ensures
        gateway_json(f) is Object,
        forall|name: Seq<char>| #[trigger]
            json::json_get(gateway_json(f), name) == (match f {
                GatewayFrameView::Req { id, method, params } => if name == "type"@ {
                    Some(Json::Str("req"@))
                } else if name == "id"@ {
                    Some(Json::Str(id))
                } else if name == "method"@ {
                    Some(Json::Str(method))
                } else if name == "params"@ {
                    params
                } else {
                    None
                },
                GatewayFrameView::Res { id, ok, payload, error } => if name == "type"@ {
                    Some(Json::Str("res"@))
                } else if name == "id"@ {
                    Some(Json::Str(id))
                } else if name == "ok"@ {
                    Some(Json::Bool(ok))
                } else if name == "payload"@ {
                    payload
                } else if name == "error"@ && error is Some {
                    Some(error_json(error->0))
                } else {
                    None
                },
                GatewayFrameView::Event { event, payload, seq } => if name == "type"@ {
                    Some(Json::Str("event"@))
                } else if name == "event"@ {
                    Some(Json::Str(event))
                } else if name == "payload"@ {
                    payload
                } else if name == "seq"@ && seq is Some {
                    Some(Json::Int(seq->0 as int))
                } else {
                    None
                },
            }),
{
    names();
}

/// The text of a gateway frame is written from the members of its document,
/// each once, with the discriminator first.
pub proof fn gateway_members_are_those_of_the_document(f: GatewayFrameView)
    ensures
        gateway_text(f) == json::text_of_members(gateway_members(f)),
        gateway_members(f).len() > 0,
        gateway_members(f)[0].0 == "type"@,
        json::distinct_members(gateway_members(f)),
        forall|i: int|
            0 <= i < gateway_members(f).len() ==> json::json_get(
                gateway_json(f),
                (#[trigger] gateway_members(f)[i]).0,
            ) == Some(gateway_members(f)[i].1),
        forall|name: Seq<char>|
            json::json_get(gateway_json(f), name) is Some ==> exists|i: int|
                0 <= i < gateway_members(f).len() && (#[trigger] gateway_members(f)[i]).0 == name,
{
    names();
    let l = gateway_members(f);
    assert forall|name: Seq<char>|
        json::json_get(gateway_json(f), name) is Some implies exists|i: int|
        0 <= i < l.len() && (#[trigger] l[i]).0 == name by {
        gateway_frame_is_written(f);
        assert(l[0].0 == "type"@);
        match f {
            GatewayFrameView::Req { params, .. } => {
                assert(l[1].0 == "id"@ && l[2].0 == "method"@);
                if params is Some {
                    assert(l[3].0 == "params"@);
                }
            },
            GatewayFrameView::Res { payload, error, .. } => {
                assert(l[1].0 == "id"@ && l[2].0 == "ok"@);
                if payload is Some {
                    assert(l[3].0 == "payload"@);
                    if error is Some {
                        assert(l[4].0 == "error"@);
                    }
                } else if error is Some {
                    assert(l[3].0 == "error"@);
                }
            },
            GatewayFrameView::Event { payload, seq, .. } => {
                assert(l[1].0 == "event"@);
                if payload is Some {
                    assert(l[2].0 == "payload"@);
                    if seq is Some {
                        assert(l[3].0 == "seq"@);
                    }
                } else if seq is Some {
                    assert(l[2].0 == "seq"@);
                }
            },
        }
    }
}

/// A document holds an error if and only if it has a code and a message; the
/// details are those that it gives, if it does.
pub proof fn errors_are_read(j: Json, e: GatewayErrorView)
    ensures
        error_of(j) == Some(e) <==> {
            &&& wire::is_record(j, 3)
            &&& wire::field(j, 0, "code"@) == Some(Json::Str(e.code))
            &&& wire::field(j, 1, "message"@) == Some(Json::Str(e.message))
            &&& match e.details {
                Some(d) => d != Json::Null && wire::field(j, 2, "details"@) == Some(d),
                None => wire::field(j, 2, "details"@) == Some(Json::Null) || (wire::field(
                    j,
                    2,
                    "details"@,
                ) is None && j is Object),
            }
        },
{
}

/// A document holds a request if and only if it says so and has an ID and a
/// method; the parameters are those that it gives, if it does.
pub proof fn requests_are_read(j: Json, id: Seq<char>, method: Seq<char>, params: Option<Json>)
    ensures
        gateway_of(j) == Some(GatewayFrameView::Req { id, method, params }) <==> {
            &&& wire::is_record(j, 4)
            &&& wire::field(j, 0, "type"@) == Some(Json::Str("req"@))
            &&& wire::field(j, 1, "id"@) == Some(Json::Str(id))
            &&& wire::field(j, 2, "method"@) == Some(Json::Str(method))
            &&& match params {
                Some(p) => p != Json::Null && wire::field(j, 3, "params"@) == Some(p),
                None => wire::field(j, 3, "params"@) == Some(Json::Null) || (wire::field(
                    j,
                    3,
                    "params"@,
                ) is None && j is Object),
            }
        },
{
    names();
}

/// A document holds an event if and only if it says so and has a name; payload
/// and number are those that it gives, if it does.
pub proof fn gateway_events_are_read(
    j: Json,
    event: Seq<char>,
    payload: Option<Json>,
    seq: Option<u64>,
)
    ensures
        gateway_of(j) == Some(GatewayFrameView::Event { event, payload, seq }) <==> {
            &&& wire::is_record(j, 4)
            &&& wire::field(j, 0, "type"@) == Some(Json::Str("event"@))
            &&& wire::field(j, 1, "event"@) == Some(Json::Str(event))
            &&& match payload {
                Some(p) => p != Json::Null && wire::field(j, 2, "payload"@) == Some(p),
                None => wire::field(j, 2, "payload"@) == Some(Json::Null) || (wire::field(
                    j,
                    2,
                    "payload"@,
                ) is None && j is Object),
            }
            &&& match seq {
                Some(n) => wire::field(j, 3, "seq"@) == Some(Json::Int(n as int)),
                None => wire::field(j, 3, "seq"@) == Some(Json::Null) || (wire::field(
                    j,
                    3,
                    "seq"@,
                ) is None && j is Object),
            }
        },
{
    names();
}

/// A document holds a response if and only if it says so and has the ID and
/// whether it went well; payload and error are those that it gives, if it does.
pub proof fn gateway_responses_are_read(
    j: Json,
    id: Seq<char>,
    ok: bool,
    payload: Option<Json>,
    error: Option<GatewayErrorView>,
)
    ensures
        gateway_of(j) == Some(GatewayFrameView::Res { id, ok, payload, error }) <==> {
            &&& wire::is_record(j, 5)
            &&& wire::field(j, 0, "type"@) == Some(Json::Str("res"@))
            &&& wire::field(j, 1, "id"@) == Some(Json::Str(id))
            &&& wire::field(j, 2, "ok"@) == Some(Json::Bool(ok))
            &&& match payload {
                Some(p) => p != Json::Null && wire::field(j, 3, "payload"@) == Some(p),
                None => wire::field(j, 3, "payload"@) == Some(Json::Null) || (wire::field(
                    j,
                    3,
                    "payload"@,
                ) is None && j is Object),
            }
            &&& match error {
                Some(e) => wire::field(j, 4, "error"@) matches Some(d) && error_of(d) == Some(e),
                None => wire::field(j, 4, "error"@) == Some(Json::Null) || (wire::field(
                    j,
                    4,
                    "error"@,
                ) is None && j is Object),
            }
        },
{
    names();
}

/// A text holds the gateway frame of its document, unless it gives a field of
/// that frame twice; what it gives twice besides does not matter.
pub proof fn gateway_fields_are_given_once(j: Json, list: Seq<Listed>, f: GatewayFrameView)
    requires
        gateway_of(j) == Some(f),
    ensures
        gateway_in(None, list) is None,
        gateway_in(Some(j), list) == None::<GatewayFrameView> || gateway_in(Some(j), list) == Some(
            f,
        ),
        gateway_in(Some(j), list) is None <==> {
            ||| members::repeats(list, "type"@)
            ||| f is Req && (members::repeats(list, "id"@) || members::repeats(list, "method"@)
                || members::repeats(list, "params"@))
            ||| f is Res && (members::repeats(list, "id"@) || members::repeats(list, "ok"@)
                || members::repeats(list, "payload"@) || members::repeats(list, "error"@)
                || members::repeats(
                members::listing(members::field_text(list, 4, "error"@)),
                "code"@,
            ) || members::repeats(
                members::listing(members::field_text(list, 4, "error"@)),
                "message"@,
            ) || members::repeats(
                members::listing(members::field_text(list, 4, "error"@)),
                "details"@,
            ))
            ||| f is Event && (members::repeats(list, "event"@) || members::repeats(
                list,
                "payload"@,
            ) || members::repeats(list, "seq"@))
        },
{
    names();
}

/// A request to invoke a command says who asks what of whom: the ID, the node
/// and the command are the texts that the payload has under their names, empty
/// where it has none; the parameters are what the text under `paramsJSON`
/// holds, and the limit is the number under `timeoutMs`, whatever else the
/// payload has or lacks.
pub proof fn invocations_are_read(payload: Json)
    ensures
        match json::json_get(payload, "id"@) {
            Some(Json::Str(s)) => invoke_of(payload).id == s,
            _ => invoke_of(payload).id.len() == 0,
        },
        match json::json_get(payload, "nodeId"@) {
            Some(Json::Str(s)) => invoke_of(payload).node_id == s,
            _ => invoke_of(payload).node_id.len() == 0,
        },
        match json::json_get(payload, "command"@) {
            Some(Json::Str(s)) => invoke_of(payload).command == s,
            _ => invoke_of(payload).command.len() == 0,
        },
        match json::json_get(payload, "paramsJSON"@) {
            Some(Json::Str(s)) => invoke_of(payload).params == json::json_of_text(s),
            _ => invoke_of(payload).params is None,
        },
        match json::json_get(payload, "timeoutMs"@) {
            Some(Json::Int(n)) => if 0 <= n <= u64::MAX {
                invoke_of(payload).timeout_ms == Some(n as u64)
            } else {
                invoke_of(payload).timeout_ms is None
            },
            _ => invoke_of(payload).timeout_ms is None,
        },
{
}

/// Parameters that are sent as the text of a document arrive as that document,
/// in every payload that has this text.
pub proof fn parameters_arrive(payload: Json, s: Seq<char>, v: Json)
    requires
        json::json_get(payload, "paramsJSON"@) == Some(Json::Str(s)),
        json::json_of_text(s) == Some(v),
    ensures
        invoke_of(payload).params == Some(v),
{
}

/// Each part of a request to invoke depends on its own member of the payload
/// alone.
pub proof fn parts_of_invocations_are_independent(a: Json, b: Json)
    ensures
        json::json_get(a, "id"@) == json::json_get(b, "id"@) ==> invoke_of(a).id
            == invoke_of(b).id,
        json::json_get(a, "nodeId"@) == json::json_get(b, "nodeId"@) ==> invoke_of(a).node_id
            == invoke_of(b).node_id,
        json::json_get(a, "command"@) == json::json_get(b, "command"@) ==> invoke_of(a).command
            == invoke_of(b).command,
        json::json_get(a, "paramsJSON"@) == json::json_get(b, "paramsJSON"@) ==> invoke_of(
            a,
        ).params == invoke_of(b).params,
        json::json_get(a, "timeoutMs"@) == json::json_get(b, "timeoutMs"@) ==> invoke_of(
            a,
        ).timeout_ms == invoke_of(b).timeout_ms,
{
}

/// A request of the gateway reaches the dispatcher with the command and the
/// parameters that it was sent with.
pub proof fn invocations_reach_the_dispatcher(
    pending: Map<Seq<char>, u64>,
    payload: Json,
    seq: Option<u64>,
    command: Seq<char>,
    s: Seq<char>,
    v: Json,
)
    requires
        json::json_get(payload, "command"@) == Some(Json::Str(command)),
        json::json_get(payload, "paramsJSON"@) == Some(Json::Str(s)),
        json::json_of_text(s) == Some(v),
    ensures
        ({
            let f = GatewayFrameView::Event {
                event: "node.invoke.request"@,
                payload: Some(payload),
                seq,
            };
            &&& on_gateway_frame(pending, Some(f)).0 == pending
            &&& on_gateway_frame(pending, Some(f)).1 matches GatewayActionOf::Invoke(r)
            &&& r.command == command && r.params == Some(v)
        }),
{
    invocations_are_read(payload);
}

/// What is done about a frame of the gateway: requests to invoke are handed on
/// and so are events, but for ticks; a response is handed to whoever waits for
/// it, and nothing else ends a wait.
pub proof fn gateway_frames_are_handed_on(
    pending: Map<Seq<char>, u64>,
    f: GatewayFrameView,
    id: Seq<char>,
)
    ensures
        on_gateway_frame(pending, None) == (pending, GatewayActionOf::Wait),
        f is Req ==> on_gateway_frame(pending, Some(f)) == (pending, GatewayActionOf::Wait),
        f matches GatewayFrameView::Event { event, payload, .. } ==> {
            &&& on_gateway_frame(pending, Some(f)).0 == pending
            &&& event == "tick"@ ==> on_gateway_frame(pending, Some(f)).1 is Wait
            &&& event == "node.invoke.request"@ && payload is None ==> on_gateway_frame(
                pending,
                Some(f),
            ).1 is Wait
            &&& event == "node.invoke.request"@ && payload is Some ==> on_gateway_frame(
                pending,
                Some(f),
            ).1 == GatewayActionOf::Invoke(invoke_of(payload->0))
            &&& event != "tick"@ && event != "node.invoke.request"@ ==> on_gateway_frame(
                pending,
                Some(f),
            ).1 == GatewayActionOf::Event(event, payload)
        },
        f matches GatewayFrameView::Res { id: to, ok, payload, error } ==> {
            &&& !pending.contains_key(to) ==> on_gateway_frame(pending, Some(f)) == (
                pending,
                GatewayActionOf::Wait,
            )
            &&& pending.contains_key(to) ==> {
                &&& on_gateway_frame(pending, Some(f)).1 matches GatewayActionOf::Answer(i, y)
                &&& i == to && y.ok == ok && y.payload == payload && y.error == error
            }
        },
        on_gateway_frame(pending, Some(f)).0.contains_key(id) <==> pending.contains_key(id) && !(f
            matches GatewayFrameView::Res { id: to, .. } && to == id),
{
    reveal_strlit("tick");
    reveal_strlit("node.invoke.request");
    assert("tick"@.len() != "node.invoke.request"@.len());
}

/// What is done about each event of a connection to the gateway: frames go out
/// as their texts, pings are answered with their data, and the connection ends
/// when it is told to, when the gateway ends it, or when it can no longer be
/// read or written.
pub proof fn gateway_events_are_handled(pending: Map<Seq<char>, u64>, e: GatewayEventOf)
    ensures
        on_gateway(pending, e).1 is Close <==> e == GatewayEventOf::Shutdown(true),
        on_gateway(pending, e).1 is End <==> e is Closed || e is ReadFailed || e
            == GatewayEventOf::Sent(false),
        e matches GatewayEventOf::Outgoing(f) ==> on_gateway(pending, e).1
            == GatewayActionOf::SendText(json::text_of_members(gateway_members(f))),
        e matches GatewayEventOf::WsPing(d) ==> on_gateway(pending, e).1
            == GatewayActionOf::SendPong(d),
        e matches GatewayEventOf::Text(s) ==> on_gateway(pending, e) == on_gateway_frame(
            pending,
            gateway_in(json::json_of_text(s), members::listing(s)),
        ),
        e == GatewayEventOf::Shutdown(false) || e is OtherMessage || e is Tick || e
            == GatewayEventOf::Sent(true) ==> on_gateway(pending, e).1 is Wait,
        !(e is Text) ==> on_gateway(pending, e).0 == pending,
{
}

/// The names of the members of what a node reports.
proof fn report_names()
    ensures
        "id"@.len() == 2 && "id"@[0] == 'i' && "ok"@.len() == 2 && "ok"@[0] == 'o',
        "nodeId"@.len() == 6 && "payloadJSON"@.len() == 11 && "error"@.len() == 5,
        "event"@.len() == 5 && "event"@[1] == 'v' && "error"@[1] == 'r',
{
    reveal_strlit("id");
    reveal_strlit("nodeId");
    reveal_strlit("ok");
    reveal_strlit("payloadJSON");
    reveal_strlit("error");
    reveal_strlit("event");
}

/// The result of a command says which request it answers, for which node, and
/// what came of it: the payload as text, or the error.
pub proof fn results_say_what_came_of_it(
    id: Seq<char>,
    request_id: Seq<char>,
    node_id: Seq<char>,
    ok: bool,
    payload: Option<Json>,
    error: Option<GatewayErrorView>,
)
    ensures
        ({
            &&& result_frame(id, request_id, node_id, ok, payload, error)
                matches GatewayFrameView::Req { id: frame_id, method, params: Some(p) }
            &&& frame_id == id
            &&& method == "node.invoke.result"@
            &&& json::json_get(p, "id"@) == Some(Json::Str(request_id))
            &&& json::json_get(p, "nodeId"@) == Some(Json::Str(node_id))
            &&& json::json_get(p, "ok"@) == Some(Json::Bool(ok))
            &&& json::json_get(p, "payloadJSON"@) == Some(
                match payload {
                    Some(v) => Json::Str(json::text_of_json(v)),
                    None => Json::Null,
                },
            )
            &&& json::json_get(p, "error"@) matches Some(e) && match error {
                Some(x) => {
                    &&& json::json_get(e, "code"@) == Some(Json::Str(x.code))
                    &&& json::json_get(e, "message"@) == Some(Json::Str(x.message))
                    &&& json::json_get(e, "details"@) == x.details
                },
                None => e == Json::Null,
            }
            &&& forall|name: Seq<char>| #[trigger]
                json::json_get(p, name) is Some ==> name == "id"@ || name == "nodeId"@ || name
                    == "ok"@ || name == "payloadJSON"@ || name == "error"@
        }),
{
    report_names();
    if error is Some {
        error_is_written(error->0);
        names();
    }
}

/// A node event says what happened, and to what, as text.
pub proof fn node_events_say_what_happened(
    id: Seq<char>,
    event: Seq<char>,
    payload: Option<Json>,
)
    ensures
        ({
            &&& event_frame(id, event, payload) matches GatewayFrameView::Req {
                id: frame_id,
                method,
                params: Some(p),
            }
            &&& frame_id == id
            &&& method == "node.event"@
            &&& json::json_get(p, "event"@) == Some(Json::Str(event))
            &&& json::json_get(p, "payloadJSON"@) == Some(
                match payload {
                    Some(v) => Json::Str(json::text_of_json(v)),
                    None => Json::Null,
                },
            )
            &&& forall|name: Seq<char>| #[trigger]
                json::json_get(p, name) is Some ==> name == "event"@ || name == "payloadJSON"@
        }),
{
    report_names();
}

/// What a frame carries is read back from it.
pub proof fn payloads_are_carried(f: GatewayFrameView, payload: Json)
    requires
        carries(f, Some(payload)),
        json::is_plain(payload, json::deepest()),
    ensures
        ({
            &&& f matches GatewayFrameView::Req { params: Some(p), .. }
            &&& json::json_get(p, "payloadJSON"@) matches Some(Json::Str(s))
            &&& json::json_of_text(s) == Some(payload)
        }),
{
}

/// A request is numbered by the connection, waits for its response, and leaves
/// the rest of the connection and the other requests as they were.
pub proof fn requests_are_numbered(c: ConnectionView, other: Seq<char>)
    ensures
        request_id(c.next_id) == "req-"@ + text::decimal(c.next_id as nat),
        after_request(c).node_id == c.node_id,
        after_request(c).conn_id == c.conn_id,
        c.next_id < u64::MAX ==> after_request(c).next_id == c.next_id + 1,
        c.next_id == u64::MAX ==> after_request(c).next_id == 0,
        after_request(c).pending.contains_key(request_id(c.next_id)),
        other != request_id(c.next_id) ==> (after_request(c).pending.contains_key(other)
            <==> c.pending.contains_key(other)),
{
}

/// Two requests in a row have different IDs, and both wait.
pub proof fn requests_do_not_collide(c: ConnectionView)
    ensures
        request_id(c.next_id) != request_id(after_request(c).next_id),
        after_request(after_request(c)).pending.contains_key(request_id(c.next_id)),
        after_request(after_request(c)).pending.contains_key(
            request_id(after_request(c).next_id),
        ),
{
    request_ids_differ(c.next_id, after_request(c).next_id);
}

/// A new connection has the IDs that it is given, counts from one, and waits
/// for nothing.
pub proof fn connections_begin(node_id: Seq<char>, conn_id: Seq<char>, id: Seq<char>)
    ensures
        new_connection(node_id, conn_id).node_id == node_id,
        new_connection(node_id, conn_id).conn_id == conn_id,
        new_connection(node_id, conn_id).next_id == 1,
        !new_connection(node_id, conn_id).pending.contains_key(id),
{
}

/// The names of the members of a request to connect.
proof fn connect_names()
    ensures
        "minProtocol"@.len() == 11 && "minProtocol"@[1] == 'i',
        "maxProtocol"@.len() == 11 && "maxProtocol"@[1] == 'a',
        "client"@.len() == 6 && "caps"@.len() == 4 && "caps"@[0] == 'c',
        "commands"@.len() == 8 && "role"@.len() == 4 && "role"@[0] == 'r',
        "auth"@.len() == 4 && "auth"@[0] == 'a',
        "id"@.len() == 2 && "displayName"@.len() == 11 && "version"@.len() == 7,
        "platform"@.len() == 8 && "mode"@.len() == 4,
        "password"@.len() == 8 && "token"@.len() == 5,
{
    reveal_strlit("minProtocol");
    reveal_strlit("maxProtocol");
    reveal_strlit("client");
    reveal_strlit("caps");
    reveal_strlit("commands");
    reveal_strlit("role");
    reveal_strlit("auth");
    reveal_strlit("id");
    reveal_strlit("displayName");
    reveal_strlit("version");
    reveal_strlit("platform");
    reveal_strlit("mode");
    reveal_strlit("password");
    reveal_strlit("token");
}

/// A client introduces itself as what its configuration says that it is, and
/// proves it with the configured token, under the name of the method.
pub proof fn client_introduces_itself(c: GatewayConfig, host: Seq<char>, id: Seq<char>)
    ensures
        ({
            &&& connect_frame(c, host, id) matches GatewayFrameView::Req {
                id: frame_id,
                method,
                params: Some(p),
            }
            &&& frame_id == id
            &&& method == "connect"@
            &&& json::json_get(p, "minProtocol"@) == Some(Json::Int(1))
            &&& json::json_get(p, "maxProtocol"@) == Some(Json::Int(1))
            &&& json::json_get(p, "role"@) == Some(Json::Str("node"@))
            &&& json::json_get(p, "caps"@) matches Some(Json::Array(a)) && a.len()
                == c.capabilities@.len() && forall|i: int|
                0 <= i < a.len() ==> #[trigger] a[i] == Json::Str(c.capabilities@[i]@)
            &&& json::json_get(p, "commands"@) matches Some(Json::Array(a)) && a.len()
                == c.commands@.len() && forall|i: int|
                0 <= i < a.len() ==> #[trigger] a[i] == Json::Str(c.commands@[i]@)
            &&& json::json_get(p, "client"@) matches Some(client) && {
                &&& json::json_get(client, "id"@) == Some(Json::Str(c.client_id@))
                &&& json::json_get(client, "displayName"@) == Some(Json::Str(c.display_name@))
                &&& json::json_get(client, "version"@) == Some(Json::Str(c.version@))
                &&& json::json_get(client, "mode"@) == Some(Json::Str("node"@))
                &&& json::json_get(client, "platform"@) == Some(
                    Json::Str(protocol::kind_name(c.app_kind) + "-"@ + host),
                )
            }
            &&& json::json_get(p, "auth"@) matches Some(auth) && {
                &&& c.auth_method@ == "password"@ ==> json::json_get(auth, "password"@) == Some(
                    Json::Str(c.auth_token@),
                ) && json::json_get(auth, "token"@) is None
                &&& c.auth_method@ != "password"@ ==> json::json_get(auth, "token"@) == Some(
                    Json::Str(c.auth_token@),
                ) && json::json_get(auth, "password"@) is None
            }
        }),
{
    connect_names();
}

/// A document lets a client in if and only if it says hello-ok, under the
/// connection ID that it gives; a client is refused if and only if its own
/// request to connect failed, for the reason that is given.
pub proof fn clients_are_let_in(
    j: Option<Json>,
    f: Option<GatewayFrameView>,
    connect_id: Seq<char>,
    client_id: Seq<char>,
)
    ensures
        ({
            let hello = j matches Some(d) && json::json_get(d, "type"@) == Some(
                Json::Str("hello-ok"@),
            );
            let refused = j is Some && !hello && (f matches Some(
                GatewayFrameView::Res { id, ok, .. },
            ) && id == connect_id && !ok);
            let action = on_answer(answer_of(j, f, connect_id), client_id);
            &&& action is Done <==> hello
            &&& action is Fail <==> refused
            &&& action is Wait <==> !hello && !refused
            &&& hello ==> (action matches HandshakeActionOf::Done(c) && c.node_id == client_id
                && c.next_id == 1 && c.pending == Map::<Seq<char>, u64>::empty())
            &&& refused ==> (action matches HandshakeActionOf::Fail(ErrorView::Auth(reason))
                && match f->0->Res_error {
                Some(e) => reason == e.message,
                None => reason == "connect rejected"@,
            })
        }),
{
}

/// The connection ID is the one under `server` and `connId`, and "unknown"
/// where there is none.
pub proof fn connections_have_ids(hello: Json, server: Json, id: Seq<char>)
    ensures
        json::json_get(hello, "server"@) == Some(server) && json::json_get(server, "connId"@)
            == Some(Json::Str(id)) ==> connection_id(hello) == id,
        json::json_get(hello, "server"@) is None ==> connection_id(hello) == "unknown"@,
        json::json_get(hello, "server"@) == Some(server) && !(json::json_get(server, "connId"@)
            matches Some(Json::Str(_))) ==> connection_id(hello) == "unknown"@,
        on_answer(
            answer_of(Some(hello), None, id),
            id,
        ) matches HandshakeActionOf::Done(c) ==> c.conn_id == connection_id(hello),
{
}

/// What happens in a handshake: the challenge is answered by the request to
/// connect, a hello makes the connection, and whatever ends the handshake says
/// what was waited for.
pub proof fn handshakes_are_carried_out(h: Handshake, e: HandshakeEventOf)
    ensures
        e is OtherMessage || e is Sent ==> on_handshake(h, e) == (h.phase, HandshakeActionOf::Wait),
        e matches HandshakeEventOf::SendFailed(s) ==> on_handshake(h, e).1
            == HandshakeActionOf::Fail(ErrorView::Connection(s)),
        e is Ended ==> on_handshake(h, e).1 == HandshakeActionOf::Fail(
            ErrorView::Connection(
                if h.phase == HandshakePhase::Challenge {
                    "no challenge received"@
                } else {
                    "no hello-ok received"@
                },
            ),
        ),
        e is TimedOut ==> on_handshake(h, e).1 == HandshakeActionOf::Fail(
            ErrorView::Connection(
                if h.phase == HandshakePhase::Challenge {
                    "challenge timeout"@
                } else {
                    "hello-ok timeout"@
                },
            ),
        ),
        !(e is Text) ==> on_handshake(h, e).0 == h.phase,
        h.phase == HandshakePhase::Challenge ==> (e matches HandshakeEventOf::Text(s) ==> {
            let challenged = gateway_of_text(s) matches Some(
                GatewayFrameView::Event { event, .. },
            ) && event == "connect.challenge"@;
            &&& challenged ==> on_handshake(h, e) == (
                HandshakePhase::Hello,
                HandshakeActionOf::Send(
                    json::text_of_members(
                        gateway_members(connect_frame(h.config, h.platform@, h.connect_id@)),
                    ),
                ),
            )
            &&& !challenged ==> on_handshake(h, e) == (h.phase, HandshakeActionOf::Wait)
        }),
        h.phase == HandshakePhase::Hello ==> (e matches HandshakeEventOf::Text(s) ==> {
            &&& on_handshake(h, e).0 == HandshakePhase::Hello
            &&& on_handshake(h, e).1 == on_answer(
                answer_of(json::json_of_text(s), gateway_of_text(s), h.connect_id@),
                h.config.client_id@,
            )
        }),
{
}

/// Whoever says hello lets the client in under its own ID, and whoever refuses
/// its request keeps it out.
pub proof fn hello_ends_the_handshake(h: Handshake, s: Seq<char>, j: Json)
    requires
        h.phase == HandshakePhase::Hello,
        json::json_of_text(s) == Some(j),
    ensures
        json::json_get(j, "type"@) == Some(Json::Str("hello-ok"@)) ==> (on_handshake(
            h,
            HandshakeEventOf::Text(s),
        ).1 matches HandshakeActionOf::Done(c) && c.node_id == h.config.client_id@ && c.conn_id
            == connection_id(j)),
        json::json_get(j, "type"@) != Some(Json::Str("hello-ok"@)) ==> !(on_handshake(
            h,
            HandshakeEventOf::Text(s),
        ).1 is Done),
{
}

/// The usual configuration dials the gateway of this machine.
pub proof fn usual_gateway_is_local(c: GatewayConfig, client_id: Seq<char>)
    requires
        is_default(c, client_id),
    ensures
        c.url@ == "ws://127.0.0.1:18789"@,
        c.auth_token@.len() == 0,
        c.auth_method@ == "token"@,
        c.client_id@ == client_id,
        c.display_name@.len() == 0,
        c.app_kind == AppKind::Dev,
        c.version@.len() == 0,
        c.capabilities@.len() == 0,
        c.commands@.len() == 0,
        c.connect_timeout.span() == 10 * timing::second(),
        c.heartbeat_interval.span() == 30 * timing::second(),
{
}

/// A frame that reads back as itself holds no null where something may be
/// absent.
pub proof fn canonical_frames(f: GatewayFrameView)
    ensures
        is_canonical(f) <==> !(f matches GatewayFrameView::Req { params, .. } && params == Some(
            Json::Null,
        )) && !(f matches GatewayFrameView::Res { payload, .. } && payload == Some(Json::Null))
            && !(f matches GatewayFrameView::Res { error: Some(e), .. } && e.details == Some(
            Json::Null,
        )) && !(f matches GatewayFrameView::Event { payload, .. } && payload == Some(Json::Null)),
{
}

/// A request to invoke is read from its payload: each of its parts is what the
/// payload has under its name, whatever else it has or lacks. Parameters that
/// are the text of a document are that document.
pub proof fn payloads_of_invocations_are_read(payload: &JsonValue, r: NodeInvokeRequest)
    requires
        call_ensures(NodeInvokeRequest::from_payload, (payload,), r),
    ensures
        r.id@ == (match json::json_get(payload@, "id"@) {
            Some(Json::Str(s)) => s,
            _ => Seq::empty(),
        }),
        r.node_id@ == (match json::json_get(payload@, "nodeId"@) {
            Some(Json::Str(s)) => s,
            _ => Seq::empty(),
        }),
        r.command@ == (match json::json_get(payload@, "command"@) {
            Some(Json::Str(s)) => s,
            _ => Seq::empty(),
        }),
        json::held(r.params) == (match json::json_get(payload@, "paramsJSON"@) {
            Some(Json::Str(s)) => json::json_of_text(s),
            _ => None,
        }),
        r.timeout_ms is Some <==> (json::json_get(payload@, "timeoutMs"@) matches Some(Json::Int(n))
            && 0 <= n <= u64::MAX),
        r.timeout_ms matches Some(n) ==> json::json_get(payload@, "timeoutMs"@) == Some(
            Json::Int(n as int),
        ),
{
    invocations_are_read(payload@);
}

/// The result of a command is reported for the node of the connection, with the
/// ID of the request that it answers, and says what came of it.
pub proof fn results_are_reported(
    conn: &GatewayConnection,
    id: String,
    request_id: &str,
    ok: bool,
    payload: Option<JsonValue>,
    error: Option<GatewayError>,
    r: GatewayFrame,
)
    requires
        call_ensures(
            GatewayConnection::invoke_result_as,
            (conn, id, request_id, ok, payload, error),
            r,
        ),
    ensures
        r matches GatewayFrame::Req { id: i, method, params: Some(p) } && {
            &&& i@ == id@
            &&& method@ == "node.invoke.result"@
            &&& json::json_get(p@, "id"@) == Some(Json::Str(request_id@))
            &&& json::json_get(p@, "nodeId"@) == Some(Json::Str(conn.node_id@))
            &&& json::json_get(p@, "ok"@) == Some(Json::Bool(ok))
            &&& payload is None ==> json::json_get(p@, "payloadJSON"@) == Some(Json::Null)
            &&& payload matches Some(v) ==> json::json_get(p@, "payloadJSON"@) == Some(
                Json::Str(json::text_of_json(v@)),
            ) && (json::is_plain(v@, json::deepest()) ==> json::json_of_text(
                json::text_of_json(v@),
            ) == Some(v@))
            &&& error is None ==> json::json_get(p@, "error"@) == Some(Json::Null)
            &&& error matches Some(x) ==> (json::json_get(p@, "error"@) matches Some(e)
                && json::json_get(e, "code"@) == Some(Json::Str(x.code@)) && json::json_get(
                e,
                "message"@,
            ) == Some(Json::Str(x.message@)) && json::json_get(e, "details"@) == json::held(
                x.details,
            ))
        },
{
    results_say_what_came_of_it(
        id@,
        request_id@,
        conn.node_id@,
        ok,
        json::held(payload),
        seen_error(error),
    );
}

/// A node event is reported with its name, and with what happened as text.
pub proof fn node_events_are_reported(
    id: String,
    event: &str,
    payload: Option<JsonValue>,
    r: GatewayFrame,
)
    requires
        call_ensures(GatewayConnection::node_event_as, (id, event, payload), r),
    ensures
        r matches GatewayFrame::Req { id: i, method, params: Some(p) } && {
            &&& i@ == id@
            &&& method@ == "node.event"@
            &&& json::json_get(p@, "event"@) == Some(Json::Str(event@))
            &&& payload is None ==> json::json_get(p@, "payloadJSON"@) == Some(Json::Null)
            &&& payload matches Some(v) ==> json::json_get(p@, "payloadJSON"@) == Some(
                Json::Str(json::text_of_json(v@)),
            ) && (json::is_plain(v@, json::deepest()) ==> json::json_of_text(
                json::text_of_json(v@),
            ) == Some(v@))
        },
{
    node_events_say_what_happened(id@, event@, json::held(payload));
}

/// What is sent under a new ID is what is sent under that ID.
pub proof fn reports_take_new_ids(
    conn: &GatewayConnection,
    request_id: &str,
    ok: bool,
    payload: Option<JsonValue>,
    error: Option<GatewayError>,
    event: &str,
    data: Option<JsonValue>,
    r: GatewayFrame,
    e: GatewayFrame,
    ids: (String, String),
    s: GatewayFrame,
    f: GatewayFrame,
)
    requires
        call_ensures(
            GatewayConnection::send_invoke_result,
            (conn, request_id, ok, payload, error),
            r,
        ),
        call_ensures(GatewayConnection::send_node_event, (conn, event, data), e),
        r@ matches GatewayFrameView::Req { id, .. } ==> id == ids.0@,
        e@ matches GatewayFrameView::Req { id, .. } ==> id == ids.1@,
        call_ensures(
            GatewayConnection::invoke_result_as,
            (conn, ids.0, request_id, ok, payload, error),
            s,
        ),
        call_ensures(GatewayConnection::node_event_as, (ids.1, event, data), f),
    ensures
        r@ == s@ && e@ == f@,
        ident::is_uuid(ids.0@) && ident::is_uuid(ids.1@),
{
}

/// A request goes out as it is asked for, under the next number of the
/// connection; it waits for its response under that ID, with the requests that
/// waited already.
pub proof fn requests_go_out(
    conn: &mut GatewayConnection,
    method: &str,
    params: Option<JsonValue>,
    r: GatewayFrame,
)
    requires
        call_ensures(GatewayConnection::request, (conn, method, params), r),
    ensures
        ({
            let id = "req-"@ + text::decimal(old(conn).next_id as nat);
            &&& r matches GatewayFrame::Req { id: i, method: m, params: p } && i@ == id && m@
                == method@ && json::held(p) == json::held(params)
            &&& final(conn).pending@ == old(conn).pending@.insert(id, old(conn).next_id)
        }),
        final(conn).node_id@ == old(conn).node_id@ && final(conn).conn_id@ == old(conn).conn_id@,
        final(conn).next_id == (if old(conn).next_id == u64::MAX {
            0
        } else {
            old(conn).next_id + 1
        }),
{
    requests_are_numbered(old(conn)@, Seq::empty());
    let c = final(conn)@;
    assert(c.next_id == final(conn).next_id && c.pending == final(conn).pending@);
}

/// A new connection has the IDs that it is given and waits for nothing.
pub proof fn connections_are_made(node_id: String, conn_id: String, r: GatewayConnection)
    requires
        call_ensures(GatewayConnection::new, (node_id, conn_id), r),
    ensures
        r.node_id@ == node_id@,
        r.conn_id@ == conn_id@,
        r.next_id == 1,
        r.pending@ == Map::<Seq<char>, u64>::empty(),
{
    let c = r@;
    assert(c.next_id == r.next_id && c.pending == r.pending@);
}

/// The request to connect says of the client what is configured.
pub proof fn requests_to_connect_say_the_configuration(
    config: &GatewayConfig,
    platform: &str,
    id: &str,
    r: GatewayFrame,
)
    requires
        call_ensures(connect_request, (config, platform, id), r),
    ensures
        r matches GatewayFrame::Req { id: i, method, params: Some(params) } && {
            let p = params@;
            &&& i@ == id@
            &&& method@ == "connect"@
            &&& json::json_get(p, "minProtocol"@) == Some(Json::Int(1))
            &&& json::json_get(p, "maxProtocol"@) == Some(Json::Int(1))
            &&& json::json_get(p, "role"@) == Some(Json::Str("node"@))
            &&& json::json_get(p, "caps"@) == Some(
                json::json_texts(text::texts(config.capabilities@)),
            )
            &&& json::json_get(p, "commands"@) == Some(
                json::json_texts(text::texts(config.commands@)),
            )
            &&& json::json_get(p, "client"@) matches Some(client) && {
                &&& json::json_get(client, "id"@) == Some(Json::Str(config.client_id@))
                &&& json::json_get(client, "displayName"@) == Some(Json::Str(config.display_name@))
                &&& json::json_get(client, "version"@) == Some(Json::Str(config.version@))
                &&& json::json_get(client, "mode"@) == Some(Json::Str("node"@))
                &&& json::json_get(client, "platform"@) == Some(
                    Json::Str(
                        (match config.app_kind {
                            AppKind::Dev => "dev"@,
                            AppKind::Node => "node"@,
                            AppKind::Desktop => "desktop"@,
                            AppKind::Bot => "bot"@,
                            AppKind::Extension => "extension"@,
                        }) + "-"@ + platform@,
                    ),
                )
            }
            &&& json::json_get(p, "auth"@) matches Some(auth) && {
                &&& config.auth_method@ == "password"@ ==> json::json_get(auth, "password"@)
                    == Some(Json::Str(config.auth_token@)) && json::json_get(auth, "token"@) is None
                &&& config.auth_method@ != "password"@ ==> json::json_get(auth, "token"@) == Some(
                    Json::Str(config.auth_token@),
                ) && json::json_get(auth, "password"@) is None
            }
        },
{
    client_introduces_itself(*config, platform@, id@);
    connect_names();
}

/// A gateway is dialled at its configured URL, within the configured time and
/// without a header.
pub proof fn gateways_are_dialled(config: &GatewayConfig, r: Result<Dial, TunnelError>)
    requires
        call_ensures(gateway_dial, (config,), r),
    ensures
        r is Ok <==> transport::url_refusal(config.url@) is None,
        r matches Ok(d) ==> d.url@ == config.url@ && d.authorization is None && d.timeout.span()
            == config.connect_timeout.span(),
        r matches Err(e) ==> (e matches TunnelError::Connection(why) && transport::url_refusal(
            config.url@,
        ) == Some(why@)),
{
}

/// Where nothing is configured, a client dials the gateway of its own machine.
pub proof fn usual_gateway(client_id: String, r: GatewayConfig, d: GatewayConfig)
    requires
        call_ensures(GatewayConfig::for_client, (client_id,), r),
        call_ensures(GatewayConfig::default, (), d),
    ensures
        r.client_id@ == client_id@,
        ident::is_uuid(d.client_id@),
        forall|c: GatewayConfig|
            c == r || c == d ==> {
                &&& (#[trigger] c.url)@ == "ws://127.0.0.1:18789"@
                &&& c.auth_token@.len() == 0
                &&& c.auth_method@ == "token"@
                &&& c.display_name@.len() == 0
                &&& c.app_kind is Dev
                &&& c.version@.len() == 0
                &&& c.capabilities@.len() == 0
                &&& c.commands@.len() == 0
                &&& c.connect_timeout.span() == 10_000_000_000
                &&& c.heartbeat_interval.span() == 30_000_000_000
            },
{
    usual_gateway_is_local(r, client_id@);
    usual_gateway_is_local(d, d.client_id@);
}

/// A frame is the challenge of the gateway if and only if it is the event of
/// that name.
pub proof fn challenges_are_recognised(f: &Option<GatewayFrame>, r: bool)
    requires
        call_ensures(challenges, (f,), r),
    ensures
        r <==> (*f matches Some(GatewayFrame::Event { event, .. }) && event@
            == "connect.challenge"@),
{
}

/// What an answer to a client means: hello lets it in, the failure of its own
/// request keeps it out, and anything else is no answer.
pub proof fn answers_are_heard(
    v: Option<JsonValue>,
    f: Option<GatewayFrame>,
    connect_id: &str,
    client_id: &str,
    r: HandshakeAction,
)
    requires
        call_ensures(hear_answer, (v, f, connect_id, client_id), r),
    ensures
        ({
            let hello = v matches Some(d) && json::json_get(d@, "type"@) == Some(
                Json::Str("hello-ok"@),
            );
            let refused = v is Some && !hello && (f matches Some(GatewayFrame::Res { id, ok, .. })
                && id@ == connect_id@ && !ok);
            &&& r is Done <==> hello
            &&& r is Fail <==> refused
            &&& r is Wait <==> !hello && !refused
            &&& hello ==> (r matches HandshakeAction::Done(c) && c.node_id@ == client_id@
                && c.next_id == 1 && c.pending@ == Map::<Seq<char>, u64>::empty() && c.conn_id@ == (
            match json::json_get(v->0@, "server"@) {
                Some(server) => match json::json_get(server, "connId"@) {
                    Some(Json::Str(id)) => id,
                    _ => "unknown"@,
                },
                None => "unknown"@,
            }))
            &&& refused ==> (r matches HandshakeAction::Fail(TunnelError::Auth(why)) && why@ == (
            match f->0->Res_error {
                Some(e) => e.message@,
                None => "connect rejected"@,
            }))
        }),
{
    let j = json::held(v);
    clients_are_let_in(j, seen_frame(f), connect_id@, client_id@);
    if r is Done {
        let c = r->Done_0@;
        assert(c.next_id == r->Done_0.next_id && c.pending == r->Done_0.pending@);
    }
}

/// A handshake begins by waiting for the challenge, five seconds, and then has
/// ten for the answer.
pub proof fn handshakes_begin(
    config: GatewayConfig,
    platform: String,
    connect_id: String,
    a: Handshake,
    b: Handshake,
    h: &Handshake,
    limit: Interval,
)
    requires
        call_ensures(Handshake::begin_as, (config, platform, connect_id), a),
        call_ensures(Handshake::begin, (config, platform), b),
        call_ensures(Handshake::limit, (h,), limit),
    ensures
        a.config == config && a.platform@ == platform@ && a.connect_id@ == connect_id@
            && a.phase is Challenge,
        b.config == config && b.platform@ == platform@ && ident::is_uuid(b.connect_id@)
            && b.phase is Challenge,
        h.phase is Challenge ==> limit.span() == 5_000_000_000,
        h.phase is Hello ==> limit.span() == 10_000_000_000,
{
}

/// A handshake answers the challenge by its request to connect, and then does
/// as it is answered.
pub proof fn handshakes_are_run(h: &mut Handshake, event: HandshakeEvent, r: HandshakeAction)
    requires
        call_ensures(connect_gateway, (h, event), r),
    ensures
        final(h).config == old(h).config,
        final(h).platform@ == old(h).platform@,
        final(h).connect_id@ == old(h).connect_id@,
        event is OtherMessage || event is Sent ==> r is Wait && final(h).phase == old(h).phase,
        event matches HandshakeEvent::SendFailed(reason) ==> (r matches HandshakeAction::Fail(
            TunnelError::Connection(why),
        ) && why@ == reason@),
        event is Ended ==> (r matches HandshakeAction::Fail(TunnelError::Connection(why)) && why@
            == (match old(h).phase {
            HandshakePhase::Challenge => "no challenge received"@,
            HandshakePhase::Hello => "no hello-ok received"@,
        })),
        event is TimedOut ==> (r matches HandshakeAction::Fail(TunnelError::Connection(why))
            && why@ == (match old(h).phase {
            HandshakePhase::Challenge => "challenge timeout"@,
            HandshakePhase::Hello => "hello-ok timeout"@,
        })),
        event matches HandshakeEvent::Text(s) ==> old(h).phase is Challenge ==> ({
            let challenged = gateway_in(json::json_of_text(s@), members::listing(s@)) matches Some(
                GatewayFrameView::Event { event: e, .. },
            ) && e == "connect.challenge"@;
            &&& challenged ==> final(h).phase is Hello && (r matches HandshakeAction::Send(t)
                && gateway_of_text(t@) == Some(
                connect_frame(old(h).config, old(h).platform@, old(h).connect_id@),
            ))
            &&& !challenged ==> final(h).phase is Challenge && r is Wait
        }),
        event matches HandshakeEvent::Text(s) ==> old(h).phase is Hello ==> final(h).phase is Hello
            && ({
            let j = json::json_of_text(s@);
            let hello = j matches Some(d) && json::json_get(d, "type"@) == Some(
                Json::Str("hello-ok"@),
            );
            let refused = j is Some && !hello && (gateway_in(j, members::listing(s@)) matches Some(
                GatewayFrameView::Res { id, ok, .. },
            ) && id == old(h).connect_id@ && !ok);
            &&& r is Done <==> hello
            &&& r is Fail <==> refused
            &&& r is Wait <==> !hello && !refused
            &&& hello ==> (r matches HandshakeAction::Done(c) && c.node_id@
                == old(h).config.client_id@)
        }),
{
    handshakes_are_carried_out(*old(h), event@);
    if event is Text {
        let s = event->Text_0@;
        clients_are_let_in(
            json::json_of_text(s),
            gateway_of_text(s),
            old(h).connect_id@,
            old(h).config.client_id@,
        );
    }
}

/// A frame of the gateway is handed to whom it is for.
pub proof fn frames_of_the_gateway_are_handed_on(
    conn: &mut GatewayConnection,
    f: Option<GatewayFrame>,
    r: GatewayAction,
)
    requires
        call_ensures(receive, (conn, f), r),
    ensures
        final(conn).node_id@ == old(conn).node_id@ && final(conn).conn_id@ == old(conn).conn_id@
            && final(conn).next_id == old(conn).next_id,
        f is None || f->0 is Req ==> r is Wait && final(conn).pending@ == old(conn).pending@,
        f matches Some(GatewayFrame::Event { event, payload, seq }) ==> {
            &&& final(conn).pending@ == old(conn).pending@
            &&& event@ == "tick"@ ==> r is Wait
            &&& event@ == "node.invoke.request"@ && payload is None ==> r is Wait
            &&& event@ == "node.invoke.request"@ && payload is Some ==> (r
                matches GatewayAction::Invoke(q) && q@ == invoke_of(payload->0@))
            &&& event@ != "tick"@ && event@ != "node.invoke.request"@ ==> (r
                matches GatewayAction::Event(e, p) && e@ == event@ && json::held(p) == json::held(
                payload,
            ))
        },
        f matches Some(GatewayFrame::Res { id, ok, payload, error }) ==> {
            &&& final(conn).pending@ == old(conn).pending@.remove(id@)
            &&& !old(conn).pending@.contains_key(id@) ==> r is Wait
            &&& old(conn).pending@.contains_key(id@) ==> (r matches GatewayAction::Answer(i, y)
                && i@ == id@ && y.ok == ok && json::held(y.payload) == json::held(payload)
                && seen_error(y.error) == seen_error(error))
        },
{
    let a = old(conn)@;
    let b = final(conn)@;
    assert(a.pending == old(conn).pending@ && b.pending == final(conn).pending@);
    assert(a.next_id == old(conn).next_id && b.next_id == final(conn).next_id);
    if f is Some {
        gateway_frames_are_handed_on(a.pending, f->0@, Seq::empty());
        if f->0 is Res && !a.pending.contains_key(f->0->Res_id@) {
            assert(a.pending.remove(f->0->Res_id@) =~= a.pending);
        }
    }
}

/// What is done about each event of a connection to the gateway.
pub proof fn gateways_are_run(conn: &mut GatewayConnection, event: GatewayEvent, r: GatewayAction)
    requires
        call_ensures(run_gateway, (conn, event), r),
    ensures
        final(conn).node_id@ == old(conn).node_id@ && final(conn).conn_id@ == old(conn).conn_id@
            && final(conn).next_id == old(conn).next_id,
        !(event is Text) ==> final(conn).pending@ == old(conn).pending@,
        event matches GatewayEvent::Shutdown(stop) ==> (stop ==> r is Close) && (!stop ==> r
            is Wait),
        event matches GatewayEvent::Outgoing(f) ==> (r matches GatewayAction::SendText(s) && s@
            == json::text_of_members(gateway_members(f@)) && (is_canonical(f@) && json::is_plain(
            gateway_json(f@),
            json::deepest(),
        ) ==> gateway_of_text(s@) == Some(f@))),
        event matches GatewayEvent::WsPing(d) ==> (r matches GatewayAction::SendPong(e) && e@
            == d@),
        event is Closed || event is ReadFailed ==> r is End,
        event is OtherMessage || event is Tick ==> r is Wait,
        event matches GatewayEvent::Sent(done) ==> (done ==> r is Wait) && (!done ==> r is End),
        event matches GatewayEvent::Text(s) ==> (final(conn).pending@, r@) == on_gateway_frame(
            old(conn).pending@,
            gateway_in(json::json_of_text(s@), members::listing(s@)),
        ),
{
    let a = old(conn)@;
    let b = final(conn)@;
    assert(a.pending == old(conn).pending@ && b.pending == final(conn).pending@);
    assert(a.next_id == old(conn).next_id && b.next_id == final(conn).next_id);
    gateway_events_are_handled(a.pending, event@);
}

/// Frames and errors are written, and read, as their documents say.
pub proof fn frames_are_written_and_read(
    f: &GatewayFrame,
    v: JsonValue,
    t: String,
    d: &JsonValue,
    g: Option<GatewayFrame>,
    text: &str,
    h: Option<GatewayFrame>,
    e: &GatewayError,
    ev: JsonValue,
    x: Option<GatewayError>,
)
    requires
        call_ensures(GatewayFrame::to_value, (f,), v),
        call_ensures(GatewayFrame::to_json, (f,), t),
        call_ensures(GatewayFrame::from_value, (d,), g),
        call_ensures(GatewayFrame::from_json, (text,), h),
        call_ensures(GatewayError::to_value, (e,), ev),
        call_ensures(GatewayError::from_value, (&ev,), x),
    ensures
        v@ == gateway_json(f@),
        t@ == json::text_of_members(gateway_members(f@)),
        is_canonical(f@) ==> gateway_of(v@) == Some(f@),
        is_canonical(f@) && json::is_plain(v@, json::deepest()) && text@ == t@ ==> seen_frame(h)
            == Some(f@),
        seen_frame(g) == gateway_of(d@),
        seen_frame(h) == gateway_in(json::json_of_text(text@), members::listing(text@)),
        json::json_get(ev@, "code"@) == Some(Json::Str(e.code@)),
        json::json_get(ev@, "message"@) == Some(Json::Str(e.message@)),
        json::json_get(ev@, "details"@) == json::held(e.details),
        x matches Some(y) && y.code@ == e.code@ && y.message@ == e.message@,
{
    if is_canonical(f@) {
        gateway_is_read_back(f@);
    }
    names();
    error_is_written(e@);
    if x is Some {
        errors_are_read(ev@, x->0@);
    } else {
        errors_are_read(
            ev@,
            GatewayErrorView {
                code: e.code@,
                message: e.message@,
                details: if json::held(e.details) == Some(Json::Null) {
                    None
                } else {
                    json::held(e.details)
                },
            },
        );
    }
}

/// A frame that is read from a document and what its text lists is the one of
/// the document, as far as the text gives its fields once.
pub proof fn listed_frames_are_read(v: Option<JsonValue>, list: &Members, r: Option<GatewayFrame>)
    requires
        call_ensures(GatewayFrame::from_listed, (v, list), r),
    ensures
        v is None ==> r is None,
        seen_frame(r) == gateway_in(json::held(v), list@),
{
}

/// A request to connect says nothing else of the client, and shows nothing but
/// its one credential.
pub proof fn clients_say_nothing_else(
    c: GatewayConfig,
    host: Seq<char>,
    id: Seq<char>,
    name: Seq<char>,
)
    ensures
        connect_frame(c, host, id) matches GatewayFrameView::Req { params: Some(p), .. } && {
            &&& json::json_get(p, name) is Some <==> name == "minProtocol"@ || name
                == "maxProtocol"@ || name == "client"@ || name == "caps"@ || name == "commands"@
                || name == "role"@ || name == "auth"@
            &&& json::json_get(p, "client"@) matches Some(client) && (json::json_get(client, name)
                is Some <==> name == "id"@ || name == "displayName"@ || name == "version"@ || name
                == "platform"@ || name == "mode"@)
            &&& json::json_get(p, "auth"@) matches Some(auth) && (json::json_get(auth, name)
                is Some ==> name == "password"@ || name == "token"@)
        },
{
    connect_names();
}

} // verus!

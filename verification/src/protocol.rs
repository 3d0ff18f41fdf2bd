//! Wire protocol types for the tunnel connection.
//!
//! All communication between a Hanzo app instance and the cloud relay is via
//! JSON frames over WebSocket. Each frame has a `type` discriminator.

use crate::json;
use crate::json::{Json, JsonValue, ObjectBuilder};
use crate::members;
use crate::members::{Listed, Members};
use crate::text;
use crate::text::same;
use crate::wire;
use crate::wire::{
    find, find_bool, find_maybe_text, find_maybe_value, find_text, find_text_or_empty, find_texts,
    find_texts_or_empty, find_value, find_value_or_null, record, variant,
};
use vstd::prelude::*;

verus! {

/// What kind of Hanzo app this is.
#[derive(Debug, Clone, Copy, PartialEq, Eq, Hash, Structural)]
pub enum AppKind {
    Dev,
    Node,
    Desktop,
    Bot,
    Extension,
}

/// The name of an app kind, on the wire and for people.
pub open spec fn kind_name(k: AppKind) -> Seq<char> {
    match k {
        AppKind::Dev => "dev"@,
        AppKind::Node => "node"@,
        AppKind::Desktop => "desktop"@,
        AppKind::Bot => "bot"@,
        AppKind::Extension => "extension"@,
    }
}

impl AppKind {
    /// The name of the kind.
    pub fn name(&self) -> (r: &'static str)
        ensures
            r@ == kind_name(*self),
    {
        match self {
            AppKind::Dev => "dev",
            AppKind::Node => "node",
            AppKind::Desktop => "desktop",
            AppKind::Bot => "bot",
            AppKind::Extension => "extension",
        }
    }

    /// The name of the kind, as a text of its own.
    pub fn to_string(&self) -> (r: String)
        ensures
            r@ == kind_name(*self),
    {
        self.name().to_owned()
    }

    /// Reads a kind; `tagged` says that it lies in a tagged frame.
    pub fn from_json(v: &JsonValue, tagged: bool) -> (r: Option<AppKind>)
        ensures
            r == kind_of(v@, tagged),
    {
        if variant(v, "dev", tagged) {
            Some(AppKind::Dev)
        } else if variant(v, "node", tagged) {
            Some(AppKind::Node)
        } else if variant(v, "desktop", tagged) {
            Some(AppKind::Desktop)
        } else if variant(v, "bot", tagged) {
            Some(AppKind::Bot)
        } else if variant(v, "extension", tagged) {
            Some(AppKind::Extension)
        } else {
            None
        }
    }
}

/// The app kind that a document stands for.
pub open spec fn kind_of(j: Json, tagged: bool) -> Option<AppKind> {
    if wire::is_variant(j, kind_name(AppKind::Dev), tagged) {
        Some(AppKind::Dev)
    } else if wire::is_variant(j, kind_name(AppKind::Node), tagged) {
        Some(AppKind::Node)
    } else if wire::is_variant(j, kind_name(AppKind::Desktop), tagged) {
        Some(AppKind::Desktop)
    } else if wire::is_variant(j, kind_name(AppKind::Bot), tagged) {
        Some(AppKind::Bot)
    } else if wire::is_variant(j, kind_name(AppKind::Extension), tagged) {
        Some(AppKind::Extension)
    } else {
        None
    }
}

/// A kind is read back from its name.
pub proof fn kind_is_read_back(k: AppKind, tagged: bool)
    ensures
        kind_of(Json::Str(kind_name(k)), tagged) == Some(k),
{
    reveal_strlit("dev");
    reveal_strlit("node");
    reveal_strlit("desktop");
    reveal_strlit("bot");
    reveal_strlit("extension");
    assert("dev"@[0] != "bot"@[0]);
    assert("dev"@.len() != "desktop"@.len());
    assert("node"@.len() != "desktop"@.len());
}

/// Registration payload sent by the instance.
#[derive(Debug, Clone)]
pub struct RegisterPayload {
    pub instance_id: String,
    pub app_kind: AppKind,
    pub display_name: String,
    pub capabilities: Vec<String>,
    pub version: String,
    pub platform: String,
    pub cwd: Option<String>,
    pub commands: Vec<String>,
    pub metadata: JsonValue,
}

/// Registration confirmation from the cloud.
#[derive(Debug, Clone)]
pub struct RegisteredPayload {
    pub instance_id: String,
    pub session_url: Option<String>,
}

/// An event frame from instance to cloud.
#[derive(Debug, Clone)]
pub struct EventPayload {
    pub event: String,
    pub data: JsonValue,
}

/// A command frame from cloud to instance.
#[derive(Debug, Clone)]
pub struct CommandPayload {
    pub id: String,
    pub method: String,
    pub params: JsonValue,
}

/// A response to a cloud command.
#[derive(Debug, Clone)]
pub struct ResponsePayload {
    pub id: String,
    pub ok: bool,
    pub data: Option<JsonValue>,
    pub error: Option<String>,
}

/// A wire frame: the unit of communication over the tunnel.
#[derive(Debug, Clone)]
pub enum Frame {
    /// Instance to cloud: register this instance.
    Register(RegisterPayload),
    /// Cloud to instance: registration confirmed.
    Registered(RegisteredPayload),
    /// Instance to cloud: an event (streaming output, state change, etc.).
    Event(EventPayload),
    /// Cloud to instance: a command (chat message, approval, config).
    Command(CommandPayload),
    /// Instance to cloud: response to a command.
    Response(ResponsePayload),
    /// Bidirectional heartbeat.
    Ping,
    /// Bidirectional heartbeat response.
    Pong,
}

/// What a [`RegisterPayload`] says.
pub struct RegisterView {
    pub instance_id: Seq<char>,
    pub app_kind: AppKind,
    pub display_name: Seq<char>,
    pub capabilities: Seq<Seq<char>>,
    pub version: Seq<char>,
    pub platform: Seq<char>,
    pub cwd: Option<Seq<char>>,
    pub commands: Seq<Seq<char>>,
    pub metadata: Json,
}

/// What a [`RegisteredPayload`] says.
pub struct RegisteredView {
    pub instance_id: Seq<char>,
    pub session_url: Option<Seq<char>>,
}

/// What an [`EventPayload`] says.
pub struct EventView {
    pub event: Seq<char>,
    pub data: Json,
}

/// What a [`CommandPayload`] says.
pub struct CommandView {
    pub id: Seq<char>,
    pub method: Seq<char>,
    pub params: Json,
}

/// What a [`ResponsePayload`] says.
pub struct ResponseView {
    pub id: Seq<char>,
    pub ok: bool,
    pub data: Option<Json>,
    pub error: Option<Seq<char>>,
}

/// What a [`Frame`] says.
pub enum FrameView {
    Register(RegisterView),
    Registered(RegisteredView),
    Event(EventView),
    Command(CommandView),
    Response(ResponseView),
    Ping,
    Pong,
}

impl View for RegisterPayload {
    type V = RegisterView;

    open spec fn view(&self) -> RegisterView {
        RegisterView {
            instance_id: self.instance_id@,
            app_kind: self.app_kind,
            display_name: self.display_name@,
            capabilities: text::texts(self.capabilities@),
            version: self.version@,
            platform: self.platform@,
            cwd: text::optional(self.cwd),
            commands: text::texts(self.commands@),
            metadata: self.metadata@,
        }
    }
}

impl View for RegisteredPayload {
    type V = RegisteredView;

    open spec fn view(&self) -> RegisteredView {
        RegisteredView {
            instance_id: self.instance_id@,
            session_url: text::optional(self.session_url),
        }
    }
}

impl View for EventPayload {
    type V = EventView;

    open spec fn view(&self) -> EventView {
        EventView { event: self.event@, data: self.data@ }
    }
}

impl View for CommandPayload {
    type V = CommandView;

    open spec fn view(&self) -> CommandView {
        CommandView { id: self.id@, method: self.method@, params: self.params@ }
    }
}

impl View for ResponsePayload {
    type V = ResponseView;

    open spec fn view(&self) -> ResponseView {
        ResponseView {
            id: self.id@,
            ok: self.ok,
            data: json::held(self.data),
            error: text::optional(self.error),
        }
    }
}

impl View for Frame {
    type V = FrameView;

    open spec fn view(&self) -> FrameView {
        match *self {
            Frame::Register(p) => FrameView::Register(p@),
            Frame::Registered(p) => FrameView::Registered(p@),
            Frame::Event(p) => FrameView::Event(p@),
            Frame::Command(p) => FrameView::Command(p@),
            Frame::Response(p) => FrameView::Response(p@),
            Frame::Ping => FrameView::Ping,
            Frame::Pong => FrameView::Pong,
        }
    }
}

/// What an optional frame says.
pub open spec fn seen_frame(f: Option<Frame>) -> Option<FrameView> {
    match f {
        Some(f) => Some(f@),
        None => None,
    }
}

/// An optional text as a JSON string.
pub open spec fn maybe_string(s: Option<Seq<char>>) -> Option<Json> {
    match s {
        Some(s) => Some(Json::Str(s)),
        None => None,
    }
}

/// An optional text as a JSON string.
pub fn string_value(s: &Option<String>) -> (r: Option<JsonValue>)
    ensures
        json::held(r) == maybe_string(text::optional(*s)),
{
    match s {
        Some(s) => Some(JsonValue::String(s.clone())),
        None => None,
    }
}

/// A copy of an optional value.
pub fn value_copy(v: &Option<JsonValue>) -> (r: Option<JsonValue>)
    ensures
        json::held(r) == json::held(*v),
{
    match v {
        Some(v) => Some(v.clone()),
        None => None,
    }
}

/// The discriminator of a frame.
pub open spec fn frame_type(f: FrameView) -> Seq<char> {
    match f {
        FrameView::Register(_) => "register"@,
        FrameView::Registered(_) => "registered"@,
        FrameView::Event(_) => "event"@,
        FrameView::Command(_) => "command"@,
        FrameView::Response(_) => "response"@,
        FrameView::Ping => "ping"@,
        FrameView::Pong => "pong"@,
    }
}

/// An object that has a discriminator only.
pub open spec fn tagged(t: Seq<char>) -> Map<Seq<char>, Json> {
    Map::empty().insert("type"@, Json::Str(t))
}

/// The JSON object of a frame.
pub open spec fn frame_json(f: FrameView) -> Json {
    let m = tagged(frame_type(f));
    Json::Object(
        match f {
            FrameView::Register(p) => json::with_some(
                m.insert("instance_id"@, Json::Str(p.instance_id)).insert(
                    "app_kind"@,
                    Json::Str(kind_name(p.app_kind)),
                ).insert("display_name"@, Json::Str(p.display_name)).insert(
                    "capabilities"@,
                    json::json_texts(p.capabilities),
                ).insert("version"@, Json::Str(p.version)).insert(
                    "platform"@,
                    Json::Str(p.platform),
                ),
                "cwd"@,
                maybe_string(p.cwd),
            ).insert("commands"@, json::json_texts(p.commands)).insert("metadata"@, p.metadata),
            FrameView::Registered(p) => json::with_some(
                m.insert("instance_id"@, Json::Str(p.instance_id)),
                "session_url"@,
                maybe_string(p.session_url),
            ),
            FrameView::Event(p) => m.insert("event"@, Json::Str(p.event)).insert("data"@, p.data),
            FrameView::Command(p) => m.insert("id"@, Json::Str(p.id)).insert(
                "method"@,
                Json::Str(p.method),
            ).insert("params"@, p.params),
            FrameView::Response(p) => json::with_some(
                json::with_some(
                    m.insert("id"@, Json::Str(p.id)).insert("ok"@, Json::Bool(p.ok)),
                    "data"@,
                    p.data,
                ),
                "error"@,
                maybe_string(p.error),
            ),
            FrameView::Ping => m,
            FrameView::Pong => m,
        },
    )
}

/// The members of the JSON object of a frame, in the order in which they are written.
pub open spec fn frame_members(f: FrameView) -> Seq<(Seq<char>, Json)> {
    let m = Seq::<(Seq<char>, Json)>::empty().push(("type"@, Json::Str(frame_type(f))));
    match f {
        FrameView::Register(p) => json::push_some(
            m.push(("instance_id"@, Json::Str(p.instance_id))).push(
                ("app_kind"@, Json::Str(kind_name(p.app_kind))),
            ).push(("display_name"@, Json::Str(p.display_name))).push(
                ("capabilities"@, json::json_texts(p.capabilities)),
            ).push(("version"@, Json::Str(p.version))).push(("platform"@, Json::Str(p.platform))),
            "cwd"@,
            maybe_string(p.cwd),
        ).push(("commands"@, json::json_texts(p.commands))).push(("metadata"@, p.metadata)),
        FrameView::Registered(p) => json::push_some(
            m.push(("instance_id"@, Json::Str(p.instance_id))),
            "session_url"@,
            maybe_string(p.session_url),
        ),
        FrameView::Event(p) => m.push(("event"@, Json::Str(p.event))).push(("data"@, p.data)),
        FrameView::Command(p) => m.push(("id"@, Json::Str(p.id))).push(
            ("method"@, Json::Str(p.method)),
        ).push(("params"@, p.params)),
        FrameView::Response(p) => json::push_some(
            json::push_some(
                m.push(("id"@, Json::Str(p.id))).push(("ok"@, Json::Bool(p.ok))),
                "data"@,
                p.data,
            ),
            "error"@,
            maybe_string(p.error),
        ),
        FrameView::Ping => m,
        FrameView::Pong => m,
    }
}

/// The text of a frame.
pub open spec fn frame_text(f: FrameView) -> Seq<char> {
    json::text_of_members(frame_members(f))
}

/// A frame is written with members that are those of its object.
proof fn members_are_plain(f: FrameView)
    requires
        json::is_plain(frame_json(f), json::deepest()),
    ensures
        json::plain_members(frame_members(f)),
{
    names();
    let m = frame_json(f)->Object_0;
    let list = frame_members(f);
    assert forall|i: int| 0 <= i < list.len() implies json::is_plain(
        (#[trigger] list[i]).1,
        (json::deepest() - 1) as nat,
    ) by {
        assert(m.contains_key(list[i].0) && m[list[i].0] == list[i].1);
    }
}

impl Frame {
    fn object(&self) -> (r: ObjectBuilder)
        ensures
            Json::Object(r@) == frame_json(self@),
            r.list() == frame_members(self@),
    {
        let mut o = ObjectBuilder::new();
        match self {
            Frame::Register(p) => {
                o.put("type", JsonValue::text("register"));
                o.put("instance_id", JsonValue::text(p.instance_id.as_str()));
                o.put("app_kind", JsonValue::text(p.app_kind.name()));
                o.put("display_name", JsonValue::text(p.display_name.as_str()));
                o.put("capabilities", JsonValue::texts(&p.capabilities));
                o.put("version", JsonValue::text(p.version.as_str()));
                o.put("platform", JsonValue::text(p.platform.as_str()));
                o.put_some("cwd", string_value(&p.cwd));
                o.put("commands", JsonValue::texts(&p.commands));
                o.put("metadata", p.metadata.clone());
            },
            Frame::Registered(p) => {
                o.put("type", JsonValue::text("registered"));
                o.put("instance_id", JsonValue::text(p.instance_id.as_str()));
                o.put_some("session_url", string_value(&p.session_url));
            },
            Frame::Event(p) => {
                o.put("type", JsonValue::text("event"));
                o.put("event", JsonValue::text(p.event.as_str()));
                o.put("data", p.data.clone());
            },
            Frame::Command(p) => {
                o.put("type", JsonValue::text("command"));
                o.put("id", JsonValue::text(p.id.as_str()));
                o.put("method", JsonValue::text(p.method.as_str()));
                o.put("params", p.params.clone());
            },
            Frame::Response(p) => {
                o.put("type", JsonValue::text("response"));
                o.put("id", JsonValue::text(p.id.as_str()));
                o.put("ok", JsonValue::Bool(p.ok));
                o.put_some("data", value_copy(&p.data));
                o.put_some("error", string_value(&p.error));
            },
            Frame::Ping => {
                o.put("type", JsonValue::text("ping"));
            },
            Frame::Pong => {
                o.put("type", JsonValue::text("pong"));
            },
        }
        o
    }

    /// The JSON object of this frame.
    pub fn to_value(&self) -> (r: JsonValue)
        ensures
            r@ == frame_json(self@),
    {
        self.object().build()
    }

    /// The JSON text of this frame. What one end writes the other reads: the
    /// text holds the frame, where its document has no fraction and is not
    /// nested too deep.
    pub fn to_json(&self) -> (r: String)
        ensures
            r@ == frame_text(self@),
            is_canonical(self@) && json::is_plain(frame_json(self@), json::deepest())
                ==> frame_of_text(r@) == Some(self@),
    {
        proof {
            if is_canonical(self@) && json::is_plain(frame_json(self@), json::deepest()) {
                frame_is_read_back(self@);
                members_are_plain(self@);
            }
        }
        let r = self.object().text();
        proof {
            members_are_not_repeated(self@, r@);
        }
        r
    }

    /// Reads a frame from a JSON value.
    pub fn from_value(v: &JsonValue) -> (r: Option<Frame>)
        ensures
            seen_frame(r) == frame_of(v@),
    {
        let kind = match find_text(v, 0, "type") {
            Some(kind) => kind,
            None => {
                return None;
            },
        };
        if same(kind.as_str(), "register") {
            match RegisterPayload::read(v) {
                Some(p) => Some(Frame::Register(p)),
                None => None,
            }
        } else if same(kind.as_str(), "registered") {
            match RegisteredPayload::read(v) {
                Some(p) => Some(Frame::Registered(p)),
                None => None,
            }
        } else if same(kind.as_str(), "event") {
            match EventPayload::read(v) {
                Some(p) => Some(Frame::Event(p)),
                None => None,
            }
        } else if same(kind.as_str(), "command") {
            match CommandPayload::read(v) {
                Some(p) => Some(Frame::Command(p)),
                None => None,
            }
        } else if same(kind.as_str(), "response") {
            match ResponsePayload::read(v) {
                Some(p) => Some(Frame::Response(p)),
                None => None,
            }
        } else if same(kind.as_str(), "ping") {
            if record(v, 1) {
                Some(Frame::Ping)
            } else {
                None
            }
        } else if same(kind.as_str(), "pong") {
            if record(v, 1) {
                Some(Frame::Pong)
            } else {
                None
            }
        } else {
            None
        }
    }

    /// Reads a frame from the JSON value of a text and from what the text lists.
    pub fn from_listed(v: Option<JsonValue>, list: &Members) -> (r: Option<Frame>)
        ensures
            seen_frame(r) == frame_in(json::held(v), list@),
    {
        match v {
            Some(v) => match find_text(&v, 0, "type") {
                Some(kind) => if repeated(kind.as_str(), list) {
                    None
                } else {
                    Frame::from_value(&v)
                },
                None => None,
            },
            None => None,
        }
    }

    /// Reads a frame from JSON text.
    pub fn from_json(text: &str) -> (r: Option<Frame>)
        ensures
            seen_frame(r) == frame_of_text(text@),
    {
        Frame::from_listed(JsonValue::parse(text), &Members::read(text))
    }
}

/// Whether a text gives a field of the frame twice that its discriminator
/// announces, or an app kind of more than one name.
pub open spec fn is_repeated(kind: Seq<char>, list: Seq<Listed>) -> bool {
    ||| members::repeats(list, "type"@)
    ||| kind == "register"@ && (members::repeats(list, "instance_id"@) || members::repeats(
        list,
        "app_kind"@,
    ) || members::repeats(list, "display_name"@) || members::repeats(list, "capabilities"@)
        || members::repeats(list, "version"@) || members::repeats(list, "platform"@)
        || members::repeats(list, "cwd"@) || members::repeats(list, "commands"@)
        || members::repeats(list, "metadata"@) || members::listing(
        members::field_text(list, 2, "app_kind"@),
    ).len() > 1)
    ||| kind == "registered"@ && (members::repeats(list, "instance_id"@) || members::repeats(
        list,
        "session_url"@,
    ))
    ||| kind == "event"@ && (members::repeats(list, "event"@) || members::repeats(list, "data"@))
    ||| kind == "command"@ && (members::repeats(list, "id"@) || members::repeats(list, "method"@)
        || members::repeats(list, "params"@))
    ||| kind == "response"@ && (members::repeats(list, "id"@) || members::repeats(list, "ok"@)
        || members::repeats(list, "data"@) || members::repeats(list, "error"@))
}

/// Decides whether a text gives a field of a frame twice.
fn repeated(kind: &str, list: &Members) -> (r: bool)
    ensures
        r == is_repeated(kind@, list@),
{
    proof {
        names();
    }
    if list.repeats("type") {
        true
    } else if same(kind, "register") {
        list.repeats("instance_id") || list.repeats("app_kind") || list.repeats("display_name")
            || list.repeats("capabilities") || list.repeats("version") || list.repeats("platform")
            || list.repeats("cwd") || list.repeats("commands") || list.repeats("metadata")
            || Members::read(list.field(2, "app_kind").as_str()).count() > 1
    } else if same(kind, "registered") {
        list.repeats("instance_id") || list.repeats("session_url")
    } else if same(kind, "event") {
        list.repeats("event") || list.repeats("data")
    } else if same(kind, "command") {
        list.repeats("id") || list.repeats("method") || list.repeats("params")
    } else if same(kind, "response") {
        list.repeats("id") || list.repeats("ok") || list.repeats("data") || list.repeats("error")
    } else {
        false
    }
}

/// The frame that a text holds which has this JSON value and lists these
/// members; none where it gives a field of the frame twice.
pub open spec fn frame_in(j: Option<Json>, list: Seq<Listed>) -> Option<FrameView> {
    match j {
        Some(j) => match wire::text_field(j, 0, "type"@) {
            Some(kind) => if is_repeated(kind, list) {
                None
            } else {
                frame_of(j)
            },
            None => None,
        },
        None => None,
    }
}

/// The frame that a text holds.
pub open spec fn frame_of_text(text: Seq<char>) -> Option<FrameView> {
    frame_in(json::json_of_text(text), members::listing(text))
}

/// A text that lists the members of a frame gives no field of it twice.
proof fn members_are_not_repeated(f: FrameView, text: Seq<char>)
    requires
        json::lists(text, frame_members(f)),
    ensures
        !is_repeated(frame_type(f), members::listing(text)),
{
    names();
    let m = frame_members(f);
    let list = members::listing(text);
    assert(json::distinct_members(m));
    assert forall|name: Seq<char>| !(#[trigger] members::repeats(list, name)) by {
        json::distinct_are_not_repeated(text, m, name);
    }
    if f is Register {
        assert(m[2].0 == "app_kind"@);
        assert(m[0].0 == "type"@ && m[1].0 == "instance_id"@);
        assert forall|j: int| 0 <= j < 2 implies (#[trigger] list[j]).name != Some(
            "app_kind"@,
        ) by {
            assert(list[j].name == Some(m[j].0));
        }
        members::value_of_first(list, "app_kind"@, 2);
        assert(json::is_shown(list[2].value, m[2].1));
        assert(json::shows(list[2].value, m[2].1, 0));
    }
}

/// The frame that a document holds.
pub open spec fn frame_of(j: Json) -> Option<FrameView> {
    match wire::text_field(j, 0, "type"@) {
        Some(kind) => if kind == "register"@ {
            match register_of(j) {
                Some(p) => Some(FrameView::Register(p)),
                None => None,
            }
        } else if kind == "registered"@ {
            match registered_of(j) {
                Some(p) => Some(FrameView::Registered(p)),
                None => None,
            }
        } else if kind == "event"@ {
            match event_of(j) {
                Some(p) => Some(FrameView::Event(p)),
                None => None,
            }
        } else if kind == "command"@ {
            match command_of(j) {
                Some(p) => Some(FrameView::Command(p)),
                None => None,
            }
        } else if kind == "response"@ {
            match response_of(j) {
                Some(p) => Some(FrameView::Response(p)),
                None => None,
            }
        } else if kind == "ping"@ && wire::is_record(j, 1) {
            Some(FrameView::Ping)
        } else if kind == "pong"@ && wire::is_record(j, 1) {
            Some(FrameView::Pong)
        } else {
            None
        },
        None => None,
    }
}

/// The registration that a tagged document holds.
pub open spec fn register_of(j: Json) -> Option<RegisterView> {
    let instance_id = wire::text_field(j, 1, "instance_id"@);
    let app_kind = match wire::field(j, 2, "app_kind"@) {
        Some(k) => kind_of(k, true),
        None => None,
    };
    let display_name = wire::text_field(j, 3, "display_name"@);
    let capabilities = wire::texts_field(j, 4, "capabilities"@);
    let version = wire::text_or_empty(j, 5, "version"@);
    let platform = wire::text_or_empty(j, 6, "platform"@);
    let cwd = wire::maybe_text(j, 7, "cwd"@, false);
    let commands = wire::texts_or_empty(j, 8, "commands"@);
    if wire::is_record(j, 10) && instance_id is Some && app_kind is Some && display_name is Some
        && capabilities is Some && version is Some && platform is Some && cwd is Some
        && commands is Some {
        Some(
            RegisterView {
                instance_id: instance_id->0,
                app_kind: app_kind->0,
                display_name: display_name->0,
                capabilities: capabilities->0,
                version: version->0,
                platform: platform->0,
                cwd: cwd->0,
                commands: commands->0,
                metadata: wire::value_or_null(j, 9, "metadata"@),
            },
        )
    } else {
        None
    }
}

/// The confirmation that a tagged document holds.
pub open spec fn registered_of(j: Json) -> Option<RegisteredView> {
    let instance_id = wire::text_field(j, 1, "instance_id"@);
    let session_url = wire::maybe_text(j, 2, "session_url"@, false);
    if wire::is_record(j, 3) && instance_id is Some && session_url is Some {
        Some(RegisteredView { instance_id: instance_id->0, session_url: session_url->0 })
    } else {
        None
    }
}

/// The event that a tagged document holds.
pub open spec fn event_of(j: Json) -> Option<EventView> {
    let event = wire::text_field(j, 1, "event"@);
    let data = wire::field(j, 2, "data"@);
    if wire::is_record(j, 3) && event is Some && data is Some {
        Some(EventView { event: event->0, data: data->0 })
    } else {
        None
    }
}

/// The command that a tagged document holds.
pub open spec fn command_of(j: Json) -> Option<CommandView> {
    let id = wire::text_field(j, 1, "id"@);
    let method = wire::text_field(j, 2, "method"@);
    if wire::is_record(j, 4) && id is Some && method is Some {
        Some(
            CommandView {
                id: id->0,
                method: method->0,
                params: wire::value_or_null(j, 3, "params"@),
            },
        )
    } else {
        None
    }
}

/// The response that a tagged document holds.
pub open spec fn response_of(j: Json) -> Option<ResponseView> {
    let id = wire::text_field(j, 1, "id"@);
    let ok = wire::bool_field(j, 2, "ok"@);
    let data = wire::maybe_field(j, 3, "data"@, false);
    let error = wire::maybe_text(j, 4, "error"@, false);
    if wire::is_record(j, 5) && id is Some && ok is Some && data is Some && error is Some {
        Some(ResponseView { id: id->0, ok: ok->0, data: data->0, error: error->0 })
    } else {
        None
    }
}

/// Whether a frame has its own form on the wire. A response whose data is null
/// has not: it reads back as one without data.
pub open spec fn is_canonical(f: FrameView) -> bool {
    f matches FrameView::Response(p) ==> p.data != Some(Json::Null)
}

/// The lengths and first characters of the names on the wire.
pub(crate) proof fn names()
    ensures
        "type"@.len() == 4,
        "instance_id"@.len() == 11,
        "app_kind"@.len() == 8 && "app_kind"@[0] == 'a',
        "display_name"@.len() == 12 && "display_name"@[0] == 'd',
        "capabilities"@.len() == 12 && "capabilities"@[0] == 'c',
        "version"@.len() == 7,
        "platform"@.len() == 8 && "platform"@[0] == 'p',
        "cwd"@.len() == 3,
        "commands"@.len() == 8 && "commands"@[0] == 'c',
        "metadata"@.len() == 8 && "metadata"@[0] == 'm',
        "session_url"@.len() == 11 && "session_url"@[0] == 's' && "instance_id"@[0] == 'i',
        "event"@.len() == 5 && "event"@[1] == 'v',
        "data"@.len() == 4 && "data"@[0] == 'd' && "type"@[0] == 't',
        "id"@.len() == 2 && "id"@[0] == 'i',
        "method"@.len() == 6,
        "params"@.len() == 6 && "params"@[0] == 'p' && "method"@[0] == 'm',
        "ok"@.len() == 2 && "ok"@[0] == 'o',
        "error"@.len() == 5 && "error"@[1] == 'r',
        "register"@.len() == 8,
        "registered"@.len() == 10,
        "command"@.len() == 7,
        "response"@.len() == 8 && "response"@[2] == 's' && "register"@[2] == 'g',
        "ping"@.len() == 4 && "ping"@[1] == 'i',
        "pong"@.len() == 4 && "pong"@[1] == 'o',
{
    reveal_strlit("type");
    reveal_strlit("instance_id");
    reveal_strlit("app_kind");
    reveal_strlit("display_name");
    reveal_strlit("capabilities");
    reveal_strlit("version");
    reveal_strlit("platform");
    reveal_strlit("cwd");
    reveal_strlit("commands");
    reveal_strlit("metadata");
    reveal_strlit("session_url");
    reveal_strlit("event");
    reveal_strlit("data");
    reveal_strlit("id");
    reveal_strlit("method");
    reveal_strlit("params");
    reveal_strlit("ok");
    reveal_strlit("error");
    reveal_strlit("register");
    reveal_strlit("registered");
    reveal_strlit("command");
    reveal_strlit("response");
    reveal_strlit("ping");
    reveal_strlit("pong");
}

/// What is written on the wire is read back: the JSON object of a frame holds that frame.
pub proof fn frame_is_read_back(f: FrameView)
    requires
        is_canonical(f),
    ensures
        frame_of(frame_json(f)) == Some(f),
{
    names();
    let j = frame_json(f);
    assert(wire::text_field(j, 0, "type"@) == Some(frame_type(f)));
    match f {
        FrameView::Register(p) => {
            kind_is_read_back(p.app_kind, true);
            wire::texts_are_read_back(p.capabilities);
            wire::texts_are_read_back(p.commands);
            assert(register_of(j) == Some(p));
        },
        FrameView::Registered(p) => {
            assert(registered_of(j) == Some(p));
        },
        FrameView::Event(p) => {
            assert(event_of(j) == Some(p));
        },
        FrameView::Command(p) => {
            assert(command_of(j) == Some(p));
        },
        FrameView::Response(p) => {
            assert(response_of(j) == Some(p));
        },
        FrameView::Ping => {},
        FrameView::Pong => {},
    }
}

/// The documents of heartbeats are read back from their texts.
pub proof fn heartbeats_are_plain()
    ensures
        json::is_plain(frame_json(FrameView::Ping), json::deepest()),
        json::is_plain(frame_json(FrameView::Pong), json::deepest()),
{
    reveal_with_fuel(json::is_plain, 2);
}

/// Every frame has a `type` discriminator, and different kinds of frames have
/// different ones.
pub proof fn frames_are_discriminated(f: FrameView, g: FrameView)
    ensures
        json::json_get_str(frame_json(f), "type"@) == Some(frame_type(f)),
        frame_type(f) == frame_type(g) ==> {
            &&& (f is Register <==> g is Register)
            &&& (f is Registered <==> g is Registered)
            &&& (f is Event <==> g is Event)
            &&& (f is Command <==> g is Command)
            &&& (f is Response <==> g is Response)
            &&& (f is Ping <==> g is Ping)
            &&& (f is Pong <==> g is Pong)
        },
{
    names();
}

impl RegisterPayload {
    fn read(v: &JsonValue) -> (r: Option<RegisterPayload>)
        ensures
            (match r {
                Some(p) => Some(p@),
                None => None,
            }) == register_of(v@),
    {
        let app_kind = match find(v, 2, "app_kind") {
            Some(k) => AppKind::from_json(k, true),
            None => None,
        };
        let instance_id = find_text(v, 1, "instance_id");
        let display_name = find_text(v, 3, "display_name");
        let capabilities = find_texts(v, 4, "capabilities");
        let version = find_text_or_empty(v, 5, "version");
        let platform = find_text_or_empty(v, 6, "platform");
        let cwd = find_maybe_text(v, 7, "cwd", false);
        let commands = find_texts_or_empty(v, 8, "commands");
        let metadata = find_value_or_null(v, 9, "metadata");
        if !record(v, 10) {
            return None;
        }
        match (
            instance_id,
            app_kind,
            display_name,
            capabilities,
            version,
            platform,
            cwd,
            commands,
        ) {
            (
                Some(instance_id),
                Some(app_kind),
                Some(display_name),
                Some(capabilities),
                Some(version),
                Some(platform),
                Some(cwd),
                Some(commands),
            ) => Some(
                RegisterPayload {
                    instance_id,
                    app_kind,
                    display_name,
                    capabilities,
                    version,
                    platform,
                    cwd,
                    commands,
                    metadata,
                },
            ),
            _ => None,
        }
    }
}

impl RegisteredPayload {
    fn read(v: &JsonValue) -> (r: Option<RegisteredPayload>)
        ensures
            (match r {
                Some(p) => Some(p@),
                None => None,
            }) == registered_of(v@),
    {
        if !record(v, 3) {
            return None;
        }
        match (find_text(v, 1, "instance_id"), find_maybe_text(v, 2, "session_url", false)) {
            (Some(instance_id), Some(session_url)) => Some(
                RegisteredPayload { instance_id, session_url },
            ),
            _ => None,
        }
    }
}

impl EventPayload {
    fn read(v: &JsonValue) -> (r: Option<EventPayload>)
        ensures
            (match r {
                Some(p) => Some(p@),
                None => None,
            }) == event_of(v@),
    {
        if !record(v, 3) {
            return None;
        }
        match (find_text(v, 1, "event"), find_value(v, 2, "data")) {
            (Some(event), Some(data)) => Some(EventPayload { event, data }),
            _ => None,
        }
    }
}

impl CommandPayload {
    fn read(v: &JsonValue) -> (r: Option<CommandPayload>)
        ensures
            (match r {
                Some(p) => Some(p@),
                None => None,
            }) == command_of(v@),
    {
        if !record(v, 4) {
            return None;
        }
        match (find_text(v, 1, "id"), find_text(v, 2, "method")) {
            (Some(id), Some(method)) => Some(
                CommandPayload { id, method, params: find_value_or_null(v, 3, "params") },
            ),
            _ => None,
        }
    }
}

impl ResponsePayload {
    fn read(v: &JsonValue) -> (r: Option<ResponsePayload>)
        ensures
            (match r {
                Some(p) => Some(p@),
                None => None,
            }) == response_of(v@),
    {
        if !record(v, 5) {
            return None;
        }
        match (
            find_text(v, 1, "id"),
            find_bool(v, 2, "ok"),
            find_maybe_value(v, 3, "data"),
            find_maybe_text(v, 4, "error", false),
        ) {
            (Some(id), Some(ok), Some(data), Some(error)) => Some(
                ResponsePayload { id, ok, data, error },
            ),
            _ => None,
        }
    }
}

/// An app kind has its own name on the wire.
pub proof fn kinds_have_names(k: AppKind)
    ensures
        kind_name(AppKind::Dev) == "dev"@,
        kind_name(AppKind::Node) == "node"@,
        kind_name(AppKind::Desktop) == "desktop"@,
        kind_name(AppKind::Bot) == "bot"@,
        kind_name(AppKind::Extension) == "extension"@,
        kind_of(Json::Str(kind_name(k)), false) == Some(k),
        kind_of(Json::Str(kind_name(k)), true) == Some(k),
{
    kind_is_read_back(k, false);
    kind_is_read_back(k, true);
}

/// A kind is read from its name alone, or from an object with that one name.
pub proof fn kinds_are_read_from_names(j: Json, k: AppKind, tagged: bool)
    requires
        kind_of(j, tagged) == Some(k),
    ensures
        j == Json::Str(kind_name(k)) || (j matches Json::Object(m) && m.contains_key(
            kind_name(k),
        ) && (forall|n: Seq<char>| m.contains_key(n) ==> n == kind_name(k)) && (m[kind_name(k)]
            == Json::Null || (tagged && m[kind_name(k)] == Json::Object(Map::empty())))),
{
    let n = kind_name(k);
    assert(Map::<Seq<char>, Json>::empty().insert(n, Json::Null).contains_key(n));
    assert(Map::<Seq<char>, Json>::empty().insert(n, Json::Object(Map::empty())).contains_key(n));
}

/// What a payload says is what its fields hold.
pub proof fn payloads_say_their_fields(
    a: RegisterPayload,
    b: RegisteredPayload,
    c: EventPayload,
    d: CommandPayload,
    e: ResponsePayload,
)
    ensures
        a@.instance_id == a.instance_id@ && a@.app_kind == a.app_kind && a@.display_name
            == a.display_name@ && a@.capabilities == text::texts(a.capabilities@) && a@.version
            == a.version@ && a@.platform == a.platform@ && a@.cwd == text::optional(a.cwd)
            && a@.commands == text::texts(a.commands@) && a@.metadata == a.metadata@,
        b@.instance_id == b.instance_id@ && b@.session_url == text::optional(b.session_url),
        c@.event == c.event@ && c@.data == c.data@,
        d@.id == d.id@ && d@.method == d.method@ && d@.params == d.params@,
        e@.id == e.id@ && e@.ok == e.ok && e@.data == json::held(e.data) && e@.error
            == text::optional(e.error),
        Frame::Register(a)@ == FrameView::Register(a@),
        Frame::Registered(b)@ == FrameView::Registered(b@),
        Frame::Event(c)@ == FrameView::Event(c@),
        Frame::Command(d)@ == FrameView::Command(d@),
        Frame::Response(e)@ == FrameView::Response(e@),
        Frame::Ping@ == FrameView::Ping,
        Frame::Pong@ == FrameView::Pong,
{
}

/// The document of a frame has its discriminator, each field of the frame under
/// its name, the optional ones where they are there, and nothing else.
pub proof fn frame_is_written(f: FrameView)
    ensures
        frame_json(f) is Object,
        forall|name: Seq<char>| #[trigger]
            json::json_get(frame_json(f), name) == (match f {
                FrameView::Register(p) => if name == "type"@ {
                    Some(Json::Str("register"@))
                } else if name == "instance_id"@ {
                    Some(Json::Str(p.instance_id))
                } else if name == "app_kind"@ {
                    Some(Json::Str(kind_name(p.app_kind)))
                } else if name == "display_name"@ {
                    Some(Json::Str(p.display_name))
                } else if name == "capabilities"@ {
                    Some(Json::Array(p.capabilities.map_values(|s: Seq<char>| Json::Str(s))))
                } else if name == "version"@ {
                    Some(Json::Str(p.version))
                } else if name == "platform"@ {
                    Some(Json::Str(p.platform))
                } else if name == "cwd"@ && p.cwd is Some {
                    Some(Json::Str(p.cwd->0))
                } else if name == "commands"@ {
                    Some(Json::Array(p.commands.map_values(|s: Seq<char>| Json::Str(s))))
                } else if name == "metadata"@ {
                    Some(p.metadata)
                } else {
                    None
                },
                FrameView::Registered(p) => if name == "type"@ {
                    Some(Json::Str("registered"@))
                } else if name == "instance_id"@ {
                    Some(Json::Str(p.instance_id))
                } else if name == "session_url"@ && p.session_url is Some {
                    Some(Json::Str(p.session_url->0))
                } else {
                    None
                },
                FrameView::Event(p) => if name == "type"@ {
                    Some(Json::Str("event"@))
                } else if name == "event"@ {
                    Some(Json::Str(p.event))
                } else if name == "data"@ {
                    Some(p.data)
                } else {
                    None
                },
                FrameView::Command(p) => if name == "type"@ {
                    Some(Json::Str("command"@))
                } else if name == "id"@ {
                    Some(Json::Str(p.id))
                } else if name == "method"@ {
                    Some(Json::Str(p.method))
                } else if name == "params"@ {
                    Some(p.params)
                } else {
                    None
                },
                FrameView::Response(p) => if name == "type"@ {
                    Some(Json::Str("response"@))
                } else if name == "id"@ {
                    Some(Json::Str(p.id))
                } else if name == "ok"@ {
                    Some(Json::Bool(p.ok))
                } else if name == "data"@ {
                    p.data
                } else if name == "error"@ && p.error is Some {
                    Some(Json::Str(p.error->0))
                } else {
                    None
                },
                FrameView::Ping => if name == "type"@ {
                    Some(Json::Str("ping"@))
                } else {
                    None
                },
                FrameView::Pong => if name == "type"@ {
                    Some(Json::Str("pong"@))
                } else {
                    None
                },
            }),
{
    names();
}

/// The text of a frame is written from the members of its document, each once,
/// with the discriminator first.
pub proof fn members_are_those_of_the_document(f: FrameView)
    ensures
        frame_text(f) == json::text_of_members(frame_members(f)),
        frame_members(f).len() > 0,
        frame_members(f)[0].0 == "type"@,
        json::distinct_members(frame_members(f)),
        forall|i: int|
            0 <= i < frame_members(f).len() ==> json::json_get(
                frame_json(f),
                (#[trigger] frame_members(f)[i]).0,
            ) == Some(frame_members(f)[i].1),
        forall|name: Seq<char>|
            json::json_get(frame_json(f), name) is Some ==> exists|i: int|
                0 <= i < frame_members(f).len() && (#[trigger] frame_members(f)[i]).0 == name,
{
    names();
    let l = frame_members(f);
    assert forall|name: Seq<char>| json::json_get(frame_json(f), name) is Some implies exists|i: int|
        0 <= i < l.len() && (#[trigger] l[i]).0 == name by {
        frame_is_written(f);
        assert(l[0].0 == "type"@);
        match f {
            FrameView::Register(p) => {
                assert(l[1].0 == "instance_id"@ && l[2].0 == "app_kind"@ && l[3].0
                    == "display_name"@ && l[4].0 == "capabilities"@ && l[5].0 == "version"@
                    && l[6].0 == "platform"@);
                if p.cwd is Some {
                    assert(l[7].0 == "cwd"@ && l[8].0 == "commands"@ && l[9].0 == "metadata"@);
                } else {
                    assert(l[7].0 == "commands"@ && l[8].0 == "metadata"@);
                }
            },
            FrameView::Registered(p) => {
                assert(l[1].0 == "instance_id"@);
                if p.session_url is Some {
                    assert(l[2].0 == "session_url"@);
                }
            },
            FrameView::Event(p) => {
                assert(l[1].0 == "event"@ && l[2].0 == "data"@);
            },
            FrameView::Command(p) => {
                assert(l[1].0 == "id"@ && l[2].0 == "method"@ && l[3].0 == "params"@);
            },
            FrameView::Response(p) => {
                assert(l[1].0 == "id"@ && l[2].0 == "ok"@);
                if p.data is Some {
                    assert(l[3].0 == "data"@);
                    if p.error is Some {
                        assert(l[4].0 == "error"@);
                    }
                } else if p.error is Some {
                    assert(l[3].0 == "error"@);
                }
            },
            _ => {},
        }
    }
}

/// A document holds a command if and only if it says so, and the command has
/// its ID, its method and its parameters, null where it gives none.
pub proof fn commands_are_read(j: Json, c: CommandView)
    ensures
        frame_of(j) == Some(FrameView::Command(c)) <==> {
            &&& wire::is_record(j, 4)
            &&& wire::field(j, 0, "type"@) == Some(Json::Str("command"@))
            &&& wire::field(j, 1, "id"@) == Some(Json::Str(c.id))
            &&& wire::field(j, 2, "method"@) == Some(Json::Str(c.method))
            &&& c.params == (match wire::field(j, 3, "params"@) {
                Some(p) => p,
                None => Json::Null,
            })
        },
{
    names();
}

/// A document holds an event if and only if it says so and has its name and its
/// data.
pub proof fn events_are_read(j: Json, e: EventView)
    ensures
        frame_of(j) == Some(FrameView::Event(e)) <==> {
            &&& wire::is_record(j, 3)
            &&& wire::field(j, 0, "type"@) == Some(Json::Str("event"@))
            &&& wire::field(j, 1, "event"@) == Some(Json::Str(e.event))
            &&& wire::field(j, 2, "data"@) == Some(e.data)
        },
{
    names();
}

/// A document holds a confirmation if and only if it says so and has the ID;
/// the session URL is the one that it gives, if it gives one.
pub proof fn confirmations_are_read(j: Json, p: RegisteredView)
    ensures
        frame_of(j) == Some(FrameView::Registered(p)) <==> {
            &&& wire::is_record(j, 3)
            &&& wire::field(j, 0, "type"@) == Some(Json::Str("registered"@))
            &&& wire::field(j, 1, "instance_id"@) == Some(Json::Str(p.instance_id))
            &&& match p.session_url {
                Some(u) => wire::field(j, 2, "session_url"@) == Some(Json::Str(u)),
                None => wire::field(j, 2, "session_url"@) == Some(Json::Null) || (wire::field(
                    j,
                    2,
                    "session_url"@,
                ) is None && j is Object),
            }
        },
{
    names();
}

/// A document holds a response if and only if it says so and has the ID and
/// whether it went well; data and error are those that it gives, if it does.
pub proof fn responses_are_read(j: Json, p: ResponseView)
    ensures
        frame_of(j) == Some(FrameView::Response(p)) <==> {
            &&& wire::is_record(j, 5)
            &&& wire::field(j, 0, "type"@) == Some(Json::Str("response"@))
            &&& wire::field(j, 1, "id"@) == Some(Json::Str(p.id))
            &&& wire::field(j, 2, "ok"@) == Some(Json::Bool(p.ok))
            &&& match p.data {
                Some(d) => d != Json::Null && wire::field(j, 3, "data"@) == Some(d),
                None => wire::field(j, 3, "data"@) == Some(Json::Null) || (wire::field(
                    j,
                    3,
                    "data"@,
                ) is None && j is Object),
            }
            &&& match p.error {
                Some(e) => wire::field(j, 4, "error"@) == Some(Json::Str(e)),
                None => wire::field(j, 4, "error"@) == Some(Json::Null) || (wire::field(
                    j,
                    4,
                    "error"@,
                ) is None && j is Object),
            }
        },
{
    names();
}

/// A document holds a heartbeat if and only if it says so.
pub proof fn heartbeats_are_read(j: Json)
    ensures
        frame_of(j) == Some(FrameView::Ping) <==> wire::is_record(j, 1) && wire::field(
            j,
            0,
            "type"@,
        ) == Some(Json::Str("ping"@)),
        frame_of(j) == Some(FrameView::Pong) <==> wire::is_record(j, 1) && wire::field(
            j,
            0,
            "type"@,
        ) == Some(Json::Str("pong"@)),
{
    names();
}

/// A document that holds a registration has each of its fields under the name
/// of that field; version, platform and commands may be left out.
pub proof fn registrations_are_read(j: Json, p: RegisterView)
    requires
        frame_of(j) == Some(FrameView::Register(p)),
    ensures
        wire::field(j, 0, "type"@) == Some(Json::Str("register"@)),
        wire::field(j, 1, "instance_id"@) == Some(Json::Str(p.instance_id)),
        wire::field(j, 2, "app_kind"@) matches Some(k) && kind_of(k, true) == Some(p.app_kind),
        wire::field(j, 3, "display_name"@) == Some(Json::Str(p.display_name)),
        wire::field(j, 4, "capabilities"@) matches Some(l) && wire::texts_of(l) == Some(
            p.capabilities,
        ),
        match wire::field(j, 5, "version"@) {
            Some(v) => v == Json::Str(p.version),
            None => p.version.len() == 0,
        },
        match wire::field(j, 6, "platform"@) {
            Some(v) => v == Json::Str(p.platform),
            None => p.platform.len() == 0,
        },
        match p.cwd {
            Some(d) => wire::field(j, 7, "cwd"@) == Some(Json::Str(d)),
            None => !(wire::field(j, 7, "cwd"@) matches Some(v) && v != Json::Null),
        },
        match wire::field(j, 8, "commands"@) {
            Some(l) => wire::texts_of(l) == Some(p.commands),
            None => p.commands.len() == 0,
        },
        match wire::field(j, 9, "metadata"@) {
            Some(v) => v == p.metadata,
            None => p.metadata == Json::Null,
        },
{
    names();
}

/// What one end writes the other reads, whatever the frame.
pub proof fn frames_are_exchanged(f: FrameView, g: FrameView)
    requires
        is_canonical(f),
        is_canonical(g),
    ensures
        frame_of(frame_json(f)) == Some(f),
        frame_json(f) == frame_json(g) ==> f == g,
{
    frame_is_read_back(f);
    frame_is_read_back(g);
}

/// A text holds the frame of its document, unless it gives a field of that
/// frame twice; what it gives twice besides does not matter.
pub proof fn fields_are_given_once(j: Json, list: Seq<Listed>, f: FrameView)
    requires
        frame_of(j) == Some(f),
        !(f is Register),
    ensures
        frame_in(None, list) is None,
        frame_in(Some(j), list) == None::<FrameView> || frame_in(Some(j), list) == Some(f),
        frame_in(Some(j), list) is None <==> {
            ||| members::repeats(list, "type"@)
            ||| f is Registered && (members::repeats(list, "instance_id"@) || members::repeats(
                list,
                "session_url"@,
            ))
            ||| f is Event && (members::repeats(list, "event"@) || members::repeats(list, "data"@))
            ||| f is Command && (members::repeats(list, "id"@) || members::repeats(
                list,
                "method"@,
            ) || members::repeats(list, "params"@))
            ||| f is Response && (members::repeats(list, "id"@) || members::repeats(list, "ok"@)
                || members::repeats(list, "data"@) || members::repeats(list, "error"@))
        },
{
    names();
}

/// A registration whose text gives no name twice, and its app kind as a string,
/// is read.
pub proof fn registrations_are_given_once(j: Json, list: Seq<Listed>, f: FrameView)
    requires
        frame_of(j) == Some(f),
        f is Register,
    ensures
        frame_in(Some(j), list) == None::<FrameView> || frame_in(Some(j), list) == Some(f),
        (forall|name: Seq<char>| !(#[trigger] members::repeats(list, name))) && members::listing(
            members::field_text(list, 2, "app_kind"@),
        ).len() <= 1 ==> frame_in(Some(j), list) == Some(f),
        frame_in(Some(j), list) is Some ==> !members::repeats(list, "type"@) && !members::repeats(
            list,
            "instance_id"@,
        ) && !members::repeats(list, "app_kind"@) && !members::repeats(list, "display_name"@)
            && !members::repeats(list, "capabilities"@) && !members::repeats(list, "version"@)
            && !members::repeats(list, "platform"@) && !members::repeats(list, "cwd"@)
            && !members::repeats(list, "commands"@) && !members::repeats(list, "metadata"@),
{
    names();
}

/// A kind is known by its name, everywhere.
pub proof fn kinds_say_their_names(k: &AppKind, a: &'static str, b: String)
    requires
        call_ensures(AppKind::name, (k,), a),
        call_ensures(AppKind::to_string, (k,), b),
    ensures
        a@ == b@,
        a@ == (match *k {
            AppKind::Dev => "dev"@,
            AppKind::Node => "node"@,
            AppKind::Desktop => "desktop"@,
            AppKind::Bot => "bot"@,
            AppKind::Extension => "extension"@,
        }),
{
}

/// Frames are written, and read, as their documents say.
pub proof fn frames_are_written_and_read(
    f: &Frame,
    v: JsonValue,
    t: String,
    d: &JsonValue,
    g: Option<Frame>,
    text: &str,
    h: Option<Frame>,
)
    requires
        call_ensures(Frame::to_value, (f,), v),
        call_ensures(Frame::to_json, (f,), t),
        call_ensures(Frame::from_value, (d,), g),
        call_ensures(Frame::from_json, (text,), h),
    ensures
        v@ == frame_json(f@),
        t@ == json::text_of_members(frame_members(f@)),
        is_canonical(f@) ==> frame_of(v@) == Some(f@),
        is_canonical(f@) && json::is_plain(v@, json::deepest()) && text@ == t@ ==> seen_frame(h)
            == Some(f@),
        seen_frame(g) == frame_of(d@),
        seen_frame(h) == frame_in(json::json_of_text(text@), members::listing(text@)),
{
    if is_canonical(f@) {
        frame_is_read_back(f@);
    }
}

/// A kind is read from a document as its name says.
pub proof fn kinds_are_read(v: &JsonValue, tagged: bool, r: Option<AppKind>, k: AppKind)
    requires
        call_ensures(AppKind::from_json, (v, tagged), r),
    ensures
        v@ == Json::Str(kind_name(k)) ==> r == Some(k),
        r == Some(k) ==> wire::is_variant(v@, kind_name(k), tagged),
{
    names();
    kinds_have_names(k);
    wire::variants_are_names(v@, kind_name(k), tagged);
    reveal_strlit("dev");
    reveal_strlit("node");
    reveal_strlit("desktop");
    reveal_strlit("bot");
    reveal_strlit("extension");
    assert("dev"@.len() == 3 && "node"@.len() == 4 && "desktop"@.len() == 7 && "bot"@.len() == 3
        && "extension"@.len() == 9 && "dev"@[0] == 'd' && "bot"@[0] == 'b');
}

/// Whatever says that it is a registration and has an ID, a kind, a name and
/// capabilities is one, as far as what else it gives is as it should be.
pub proof fn registrations_need_no_more(j: Json)
    ensures
        frame_of(j) matches Some(FrameView::Register(_)) <==> {
            &&& wire::is_record(j, 10)
            &&& wire::field(j, 0, "type"@) == Some(Json::Str("register"@))
            &&& wire::field(j, 1, "instance_id"@) matches Some(v) && v is Str
            &&& wire::field(j, 2, "app_kind"@) matches Some(v) && kind_of(v, true) is Some
            &&& wire::field(j, 3, "display_name"@) matches Some(v) && v is Str
            &&& wire::field(j, 4, "capabilities"@) matches Some(v) && wire::texts_of(v) is Some
            &&& wire::field(j, 5, "version"@) matches Some(v) ==> v is Str
            &&& wire::field(j, 6, "platform"@) matches Some(v) ==> v is Str
            &&& match wire::field(j, 7, "cwd"@) {
                Some(v) => v is Str || v is Null,
                None => !(j is Array),
            }
            &&& wire::field(j, 8, "commands"@) matches Some(v) ==> wire::texts_of(v) is Some
        },
{
    names();
}

/// A frame that is read from a document and what its text lists is the one of
/// the document, as far as the text gives its fields once.
pub proof fn listed_frames_are_read(v: Option<JsonValue>, list: &Members, r: Option<Frame>)
    requires
        call_ensures(Frame::from_listed, (v, list), r),
    ensures
        v is None ==> r is None,
        seen_frame(r) == frame_in(json::held(v), list@),
{
}

} // verus!

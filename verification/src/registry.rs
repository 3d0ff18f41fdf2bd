//! Instance registry types, used by the cloud relay and local gateways to
//! track connected Hanzo app instances.

use crate::expose;
use crate::expose::{read_urls, repeats_in_urls, urls_value, ExposedUrl, UrlView};
use crate::json;
use crate::json::{Json, JsonValue, ObjectBuilder};
use crate::members;
use crate::members::{Listed, Members};
use crate::protocol;
use crate::protocol::{string_value, value_copy, AppKind};
use crate::text;
use crate::wire;
use crate::wire::{
    find, find_bool, find_bool_or_false, find_maybe_text, find_maybe_value, find_text,
    find_text_or_empty, find_texts, find_texts_or_empty, find_uint_or, find_value_or_null, record,
};
use vstd::prelude::*;

verus! {

/// A registered instance visible in the cloud.
#[derive(Debug, Clone)]
pub struct Instance {
    pub instance_id: String,
    pub app_kind: AppKind,
    pub display_name: String,
    pub capabilities: Vec<String>,
    pub commands: Vec<String>,
    pub version: String,
    pub platform: String,
    pub cwd: Option<String>,
    pub connected: bool,
    pub connected_at_ms: u64,
    pub session_url: Option<String>,
    pub exposed: Vec<ExposedUrl>,
    pub metadata: JsonValue,
}

/// Parameters for invoking a command on a remote instance.
#[derive(Debug, Clone)]
pub struct InvokeParams {
    pub instance_id: String,
    pub command: String,
    pub params: JsonValue,
    pub timeout_ms: u64,
}

/// Result of invoking a command on a remote instance.
#[derive(Debug, Clone)]
pub struct InvokeResult {
    pub ok: bool,
    pub payload: Option<JsonValue>,
    pub error: Option<String>,
}

/// What an [`Instance`] says.
pub struct InstanceView {
    pub instance_id: Seq<char>,
    pub app_kind: AppKind,
    pub display_name: Seq<char>,
    pub capabilities: Seq<Seq<char>>,
    pub commands: Seq<Seq<char>>,
    pub version: Seq<char>,
    pub platform: Seq<char>,
    pub cwd: Option<Seq<char>>,
    pub connected: bool,
    pub connected_at_ms: u64,
    pub session_url: Option<Seq<char>>,
    pub exposed: Seq<UrlView>,
    pub metadata: Json,
}

/// What an [`InvokeParams`] says.
pub struct InvokeParamsView {
    pub instance_id: Seq<char>,
    pub command: Seq<char>,
    pub params: Json,
    pub timeout_ms: u64,
}

/// What an [`InvokeResult`] says.
pub struct InvokeResultView {
    pub ok: bool,
    pub payload: Option<Json>,
    pub error: Option<Seq<char>>,
}

impl View for Instance {
    type V = InstanceView;

    open spec fn view(&self) -> InstanceView {
        InstanceView {
            instance_id: self.instance_id@,
            app_kind: self.app_kind,
            display_name: self.display_name@,
            capabilities: text::texts(self.capabilities@),
            commands: text::texts(self.commands@),
            version: self.version@,
            platform: self.platform@,
            cwd: text::optional(self.cwd),
            connected: self.connected,
            connected_at_ms: self.connected_at_ms,
            session_url: text::optional(self.session_url),
            exposed: expose::urls(self.exposed@),
            metadata: self.metadata@,
        }
    }
}

impl View for InvokeParams {
    type V = InvokeParamsView;

    open spec fn view(&self) -> InvokeParamsView {
        InvokeParamsView {
            instance_id: self.instance_id@,
            command: self.command@,
            params: self.params@,
            timeout_ms: self.timeout_ms,
        }
    }
}

impl View for InvokeResult {
    type V = InvokeResultView;

    open spec fn view(&self) -> InvokeResultView {
        InvokeResultView {
            ok: self.ok,
            payload: json::held(self.payload),
            error: text::optional(self.error),
        }
    }
}

/// How long an invocation may take where nothing is said, in milliseconds.
pub fn default_timeout() -> (r: u64)
    ensures
        r == 30_000,
{
    30_000
}

/// The JSON object of an instance.
pub open spec fn instance_json(i: InstanceView) -> Json {
    let head = Map::empty().insert("instance_id"@, Json::Str(i.instance_id)).insert(
        "app_kind"@,
        Json::Str(protocol::kind_name(i.app_kind)),
    ).insert("display_name"@, Json::Str(i.display_name)).insert(
        "capabilities"@,
        json::json_texts(i.capabilities),
    ).insert("commands"@, json::json_texts(i.commands)).insert(
        "version"@,
        Json::Str(i.version),
    ).insert("platform"@, Json::Str(i.platform));
    let middle = json::with_some(head, "cwd"@, protocol::maybe_string(i.cwd)).insert(
        "connected"@,
        Json::Bool(i.connected),
    ).insert("connected_at_ms"@, Json::Int(i.connected_at_ms as int));
    Json::Object(
        json::with_some(middle, "session_url"@, protocol::maybe_string(i.session_url)).insert(
            "exposed"@,
            expose::urls_json(i.exposed),
        ).insert("metadata"@, i.metadata),
    )
}

/// The instance that a document holds.
pub open spec fn instance_of(j: Json) -> Option<InstanceView> {
    let instance_id = wire::text_field(j, 0, "instance_id"@);
    let app_kind = match wire::field(j, 1, "app_kind"@) {
        Some(k) => protocol::kind_of(k, false),
        None => None,
    };
    let display_name = wire::text_field(j, 2, "display_name"@);
    let capabilities = wire::texts_field(j, 3, "capabilities"@);
    let commands = wire::texts_or_empty(j, 4, "commands"@);
    let version = wire::text_or_empty(j, 5, "version"@);
    let platform = wire::text_or_empty(j, 6, "platform"@);
    let cwd = wire::maybe_text(j, 7, "cwd"@, false);
    let connected = wire::bool_or_false(j, 8, "connected"@);
    let connected_at_ms = wire::uint_or(j, 9, "connected_at_ms"@, u64::MAX, 0);
    let session_url = wire::maybe_text(j, 10, "session_url"@, false);
    let exposed = match wire::field(j, 11, "exposed"@) {
        Some(list) => expose::urls_of(list),
        None => Some(Seq::empty()),
    };
    if wire::is_record(j, 13) && instance_id is Some && app_kind is Some && display_name is Some
        && capabilities is Some && commands is Some && version is Some && platform is Some
        && cwd is Some && connected is Some && connected_at_ms is Some && session_url is Some
        && exposed is Some {
        Some(
            InstanceView {
                instance_id: instance_id->0,
                app_kind: app_kind->0,
                display_name: display_name->0,
                capabilities: capabilities->0,
                commands: commands->0,
                version: version->0,
                platform: platform->0,
                cwd: cwd->0,
                connected: connected->0,
                connected_at_ms: connected_at_ms->0,
                session_url: session_url->0,
                exposed: exposed->0,
                metadata: wire::value_or_null(j, 12, "metadata"@),
            },
        )
    } else {
        None
    }
}

/// The JSON object of invocation parameters.
pub open spec fn invoke_params_json(p: InvokeParamsView) -> Json {
    Json::Object(
        Map::empty().insert("instance_id"@, Json::Str(p.instance_id)).insert(
            "command"@,
            Json::Str(p.command),
        ).insert("params"@, p.params).insert("timeout_ms"@, Json::Int(p.timeout_ms as int)),
    )
}

/// The invocation parameters that a document holds.
pub open spec fn invoke_params_of(j: Json) -> Option<InvokeParamsView> {
    let instance_id = wire::text_field(j, 0, "instance_id"@);
    let command = wire::text_field(j, 1, "command"@);
    let timeout_ms = wire::uint_or(j, 3, "timeout_ms"@, u64::MAX, 30_000);
    if wire::is_record(j, 4) && instance_id is Some && command is Some && timeout_ms is Some {
        Some(
            InvokeParamsView {
                instance_id: instance_id->0,
                command: command->0,
                params: wire::value_or_null(j, 2, "params"@),
                timeout_ms: timeout_ms->0,
            },
        )
    } else {
        None
    }
}

/// The JSON object of an invocation result.
pub open spec fn invoke_result_json(r: InvokeResultView) -> Json {
    Json::Object(
        json::with_some(
            json::with_some(
                Map::empty().insert("ok"@, Json::Bool(r.ok)),
                "payload"@,
                r.payload,
            ),
            "error"@,
            protocol::maybe_string(r.error),
        ),
    )
}

/// The invocation result that a document holds.
pub open spec fn invoke_result_of(j: Json) -> Option<InvokeResultView> {
    let ok = wire::bool_field(j, 0, "ok"@);
    let payload = wire::maybe_field(j, 1, "payload"@, false);
    let error = wire::maybe_text(j, 2, "error"@, false);
    if wire::is_record(j, 3) && ok is Some && payload is Some && error is Some {
        Some(InvokeResultView { ok: ok->0, payload: payload->0, error: error->0 })
    } else {
        None
    }
}

/// The lengths and some characters of the names of the fields of an instance.
proof fn names()
    ensures
        "instance_id"@.len() == 11 && "instance_id"@[0] == 'i',
        "session_url"@.len() == 11 && "session_url"@[0] == 's',
        "app_kind"@.len() == 8 && "app_kind"@[0] == 'a',
        "commands"@.len() == 8 && "commands"@[0] == 'c',
        "platform"@.len() == 8 && "platform"@[0] == 'p',
        "metadata"@.len() == 8 && "metadata"@[0] == 'm',
        "display_name"@.len() == 12 && "display_name"@[0] == 'd',
        "capabilities"@.len() == 12 && "capabilities"@[0] == 'c',
        "version"@.len() == 7 && "version"@[0] == 'v',
        "exposed"@.len() == 7 && "exposed"@[0] == 'e',
        "cwd"@.len() == 3 && "connected"@.len() == 9 && "connected_at_ms"@.len() == 15,
{
    reveal_strlit("instance_id");
    reveal_strlit("app_kind");
    reveal_strlit("display_name");
    reveal_strlit("capabilities");
    reveal_strlit("commands");
    reveal_strlit("version");
    reveal_strlit("platform");
    reveal_strlit("cwd");
    reveal_strlit("connected");
    reveal_strlit("connected_at_ms");
    reveal_strlit("session_url");
    reveal_strlit("exposed");
    reveal_strlit("metadata");
}

/// What is written for an instance is read back.
pub proof fn instance_is_read_back(i: InstanceView)
    ensures
        instance_of(instance_json(i)) == Some(i),
{
    names();
    protocol::kind_is_read_back(i.app_kind, false);
    wire::texts_are_read_back(i.capabilities);
    wire::texts_are_read_back(i.commands);
    expose::urls_are_read_back(i.exposed);
    assert(wire::text_field(instance_json(i), 0, "instance_id"@) == Some(i.instance_id));
}

/// What is written for invocation parameters is read back.
pub proof fn invoke_params_are_read_back(p: InvokeParamsView)
    ensures
        invoke_params_of(invoke_params_json(p)) == Some(p),
{
    reveal_strlit("instance_id");
    reveal_strlit("command");
    reveal_strlit("params");
    reveal_strlit("timeout_ms");
    assert("instance_id"@.len() == 11 && "command"@.len() == 7);
    assert("params"@.len() == 6 && "timeout_ms"@.len() == 10);
    assert(wire::text_field(invoke_params_json(p), 0, "instance_id"@) == Some(p.instance_id));
}

/// What is written for an invocation result is read back, unless its payload
/// is null: that reads as no payload.
pub proof fn invoke_result_is_read_back(r: InvokeResultView)
    requires
        r.payload != Some(Json::Null),
    ensures
        invoke_result_of(invoke_result_json(r)) == Some(r),
{
    reveal_strlit("ok");
    reveal_strlit("payload");
    reveal_strlit("error");
    assert("ok"@.len() == 2 && "payload"@.len() == 7 && "error"@.len() == 5);
    assert(wire::bool_field(invoke_result_json(r), 0, "ok"@) == Some(r.ok));
}

/// Whether a text gives a field of an instance twice, gives an app
/// kind of more than one name, or a field of a URL twice.
pub open spec fn instance_repeated(list: Seq<Listed>) -> bool {
    ||| members::repeats(list, "instance_id"@)
    ||| members::repeats(list, "app_kind"@)
    ||| members::repeats(list, "display_name"@)
    ||| members::repeats(list, "capabilities"@)
    ||| members::repeats(list, "commands"@)
    ||| members::repeats(list, "version"@)
    ||| members::repeats(list, "platform"@)
    ||| members::repeats(list, "cwd"@)
    ||| members::repeats(list, "connected"@)
    ||| members::repeats(list, "connected_at_ms"@)
    ||| members::repeats(list, "session_url"@)
    ||| members::repeats(list, "exposed"@)
    ||| members::repeats(list, "metadata"@)
    ||| members::listing(members::field_text(list, 1, "app_kind"@)).len() > 1
    ||| expose::urls_repeated(members::field_text(list, 11, "exposed"@))
}

/// The instance in a text which has this JSON value and lists these members;
/// none where the text gives a field twice.
pub open spec fn instance_in(j: Option<Json>, list: Seq<Listed>) -> Option<InstanceView> {
    match j {
        Some(j) => if instance_repeated(list) {
            None
        } else {
            instance_of(j)
        },
        None => None,
    }
}

/// The instance that a text holds.
pub open spec fn instance_of_text(text: Seq<char>) -> Option<InstanceView> {
    instance_in(json::json_of_text(text), members::listing(text))
}

/// The text of what is written for an instance is read back.
pub proof fn instance_text_is_read_back(i: InstanceView, s: Seq<char>)
    requires
        json::json_of_text(s) == Some(instance_json(i)),
        json::is_shown(s, instance_json(i)),
    ensures
        instance_of_text(s) == Some(i),
{
    instance_is_read_back(i);
    json::shown_is_not_repeated(s, instance_json(i));
    let j = instance_json(i);
    json::field_is_shown(s, j, 1, "app_kind"@);
    json::field_is_shown(s, j, 11, "exposed"@);
    members::nothing_is_listed();
    names();
    let kind = members::field_text(members::listing(s), 1, "app_kind"@);
    let exposed = members::field_text(members::listing(s), 11, "exposed"@);
    assert(json::json_get(j, "app_kind"@) == Some(Json::Str(protocol::kind_name(i.app_kind))));
    assert(json::json_get(j, "exposed"@) == Some(expose::urls_json(i.exposed)));
    if kind.len() > 0 {
        assert(json::shows(kind, Json::Str(protocol::kind_name(i.app_kind)), 0));
    } else {
        assert(kind =~= Seq::<char>::empty());
    }
    if exposed.len() > 0 {
        expose::urls_are_not_repeated(exposed, i.exposed);
    } else {
        assert(exposed =~= Seq::<char>::empty());
    }
}

impl Instance {
    /// The JSON object of this instance.
    pub fn to_value(&self) -> (r: JsonValue)
        ensures
            r@ == instance_json(self@),
    {
        let mut o = ObjectBuilder::new();
        o.put("instance_id", JsonValue::text(self.instance_id.as_str()));
        o.put("app_kind", JsonValue::text(self.app_kind.name()));
        o.put("display_name", JsonValue::text(self.display_name.as_str()));
        o.put("capabilities", JsonValue::texts(&self.capabilities));
        o.put("commands", JsonValue::texts(&self.commands));
        o.put("version", JsonValue::text(self.version.as_str()));
        o.put("platform", JsonValue::text(self.platform.as_str()));
        o.put_some("cwd", string_value(&self.cwd));
        o.put("connected", JsonValue::Bool(self.connected));
        o.put("connected_at_ms", JsonValue::unsigned(self.connected_at_ms));
        o.put_some("session_url", string_value(&self.session_url));
        o.put("exposed", urls_value(&self.exposed));
        o.put("metadata", self.metadata.clone());
        o.build()
    }

    /// Reads an instance from a JSON value.
    pub fn from_value(v: &JsonValue) -> (r: Option<Instance>)
        ensures
            (match r {
                Some(i) => Some(i@),
                None => None,
            }) == instance_of(v@),
    {
        if !record(v, 13) {
            return None;
        }
        let app_kind = match find(v, 1, "app_kind") {
            Some(k) => AppKind::from_json(k, false),
            None => None,
        };
        let exposed = match find(v, 11, "exposed") {
            Some(list) => read_urls(list),
            None => {
                let none: Vec<ExposedUrl> = Vec::new();
                assert(expose::urls(none@) =~= Seq::<UrlView>::empty());
                Some(none)
            },
        };
        match (
            find_text(v, 0, "instance_id"),
            app_kind,
            find_text(v, 2, "display_name"),
            find_texts(v, 3, "capabilities"),
            find_texts_or_empty(v, 4, "commands"),
            find_text_or_empty(v, 5, "version"),
            find_text_or_empty(v, 6, "platform"),
            find_maybe_text(v, 7, "cwd", false),
            find_bool_or_false(v, 8, "connected"),
            find_uint_or(v, 9, "connected_at_ms", u64::MAX, 0),
            find_maybe_text(v, 10, "session_url", false),
            exposed,
        ) {
            (
                Some(instance_id),
                Some(app_kind),
                Some(display_name),
                Some(capabilities),
                Some(commands),
                Some(version),
                Some(platform),
                Some(cwd),
                Some(connected),
                Some(connected_at_ms),
                Some(session_url),
                Some(exposed),
            ) => Some(
                Instance {
                    instance_id,
                    app_kind,
                    display_name,
                    capabilities,
                    commands,
                    version,
                    platform,
                    cwd,
                    connected,
                    connected_at_ms,
                    session_url,
                    exposed,
                    metadata: find_value_or_null(v, 12, "metadata"),
                },
            ),
            _ => None,
        }
    }

    /// Reads an instance from the JSON value of a text and from what the text lists.
    pub fn from_listed(v: Option<JsonValue>, list: &Members) -> (r: Option<Instance>)
        ensures
            (match r {
                Some(i) => Some(i@),
                None => None,
            }) == instance_in(json::held(v), list@),
    {
        match v {
            Some(v) => if list.repeats("instance_id") || list.repeats("app_kind")
                    || list.repeats("display_name") || list.repeats("capabilities")
                    || list.repeats("commands") || list.repeats("version")
                    || list.repeats("platform") || list.repeats("cwd") || list.repeats("connected")
                    || list.repeats("connected_at_ms") || list.repeats("session_url")
                    || list.repeats("exposed") || list.repeats("metadata")
                    || Members::read(list.field(1, "app_kind").as_str()).count() > 1
                    || repeats_in_urls(list.field(11, "exposed").as_str()) {
                None
            } else {
                Instance::from_value(&v)
            },
            None => None,
        }
    }

    /// Reads an instance from JSON text.
    pub fn from_json(text: &str) -> (r: Option<Instance>)
        ensures
            (match r {
                Some(i) => Some(i@),
                None => None,
            }) == instance_of_text(text@),
    {
        Instance::from_listed(JsonValue::parse(text), &Members::read(text))
    }
}

/// Whether a text gives a field of invocation parameters twice.
pub open spec fn invoke_params_repeated(list: Seq<Listed>) -> bool {
    ||| members::repeats(list, "instance_id"@)
    ||| members::repeats(list, "command"@)
    ||| members::repeats(list, "params"@)
    ||| members::repeats(list, "timeout_ms"@)
}

/// The invocation parameters in a text which has this JSON value and lists
/// these members; none where the text gives a field twice.
pub open spec fn invoke_params_in(j: Option<Json>, list: Seq<Listed>) -> Option<InvokeParamsView> {
    match j {
        Some(j) => if invoke_params_repeated(list) {
            None
        } else {
            invoke_params_of(j)
        },
        None => None,
    }
}

/// The invocation parameters that a text holds.
pub open spec fn invoke_params_of_text(text: Seq<char>) -> Option<InvokeParamsView> {
    invoke_params_in(json::json_of_text(text), members::listing(text))
}

/// The text of what is written for invocation parameters is read back.
pub proof fn invoke_params_text_is_read_back(p: InvokeParamsView, s: Seq<char>)
    requires
        json::json_of_text(s) == Some(invoke_params_json(p)),
        json::is_shown(s, invoke_params_json(p)),
    ensures
        invoke_params_of_text(s) == Some(p),
{
    invoke_params_are_read_back(p);
    json::shown_is_not_repeated(s, invoke_params_json(p));
}

impl InvokeParams {
    /// The JSON object of these parameters.
    pub fn to_value(&self) -> (r: JsonValue)
        ensures
            r@ == invoke_params_json(self@),
    {
        let mut o = ObjectBuilder::new();
        o.put("instance_id", JsonValue::text(self.instance_id.as_str()));
        o.put("command", JsonValue::text(self.command.as_str()));
        o.put("params", self.params.clone());
        o.put("timeout_ms", JsonValue::unsigned(self.timeout_ms));
        o.build()
    }

    /// Reads invocation parameters from a JSON value.
    pub fn from_value(v: &JsonValue) -> (r: Option<InvokeParams>)
        ensures
            (match r {
                Some(p) => Some(p@),
                None => None,
            }) == invoke_params_of(v@),
    {
        if !record(v, 4) {
            return None;
        }
        match (
            find_text(v, 0, "instance_id"),
            find_text(v, 1, "command"),
            find_uint_or(v, 3, "timeout_ms", u64::MAX, default_timeout()),
        ) {
            (Some(instance_id), Some(command), Some(timeout_ms)) => Some(
                InvokeParams {
                    instance_id,
                    command,
                    params: find_value_or_null(v, 2, "params"),
                    timeout_ms,
                },
            ),
            _ => None,
        }
    }

    /// Reads invocation parameters from the JSON value of a text and from what the text lists.
    pub fn from_listed(v: Option<JsonValue>, list: &Members) -> (r: Option<InvokeParams>)
        ensures
            (match r {
                Some(p) => Some(p@),
                None => None,
            }) == invoke_params_in(json::held(v), list@),
    {
        match v {
            Some(v) => if list.repeats("instance_id") || list.repeats("command") || list.repeats("params")
                    || list.repeats("timeout_ms") {
                None
            } else {
                InvokeParams::from_value(&v)
            },
            None => None,
        }
    }

    /// Reads invocation parameters from JSON text.
    pub fn from_json(text: &str) -> (r: Option<InvokeParams>)
        ensures
            (match r {
                Some(p) => Some(p@),
                None => None,
            }) == invoke_params_of_text(text@),
    {
        InvokeParams::from_listed(JsonValue::parse(text), &Members::read(text))
    }
}

/// Whether a text gives a field of an invocation result twice.
pub open spec fn invoke_result_repeated(list: Seq<Listed>) -> bool {
    ||| members::repeats(list, "ok"@)
    ||| members::repeats(list, "payload"@)
    ||| members::repeats(list, "error"@)
}

/// The invocation result in a text which has this JSON value and lists these
/// members; none where the text gives a field twice.
pub open spec fn invoke_result_in(j: Option<Json>, list: Seq<Listed>) -> Option<InvokeResultView> {
    match j {
        Some(j) => if invoke_result_repeated(list) {
            None
        } else {
            invoke_result_of(j)
        },
        None => None,
    }
}

/// The invocation result that a text holds.
pub open spec fn invoke_result_of_text(text: Seq<char>) -> Option<InvokeResultView> {
    invoke_result_in(json::json_of_text(text), members::listing(text))
}

/// The text of what is written for an invocation result is read back.
pub proof fn invoke_result_text_is_read_back(r: InvokeResultView, s: Seq<char>)
    requires
        r.payload != Some(Json::Null),
        json::json_of_text(s) == Some(invoke_result_json(r)),
        json::is_shown(s, invoke_result_json(r)),
    ensures
        invoke_result_of_text(s) == Some(r),
{
    invoke_result_is_read_back(r);
    json::shown_is_not_repeated(s, invoke_result_json(r));
}

impl InvokeResult {
    /// The JSON object of this result.
    pub fn to_value(&self) -> (r: JsonValue)
        ensures
            r@ == invoke_result_json(self@),
    {
        let mut o = ObjectBuilder::new();
        o.put("ok", JsonValue::Bool(self.ok));
        o.put_some("payload", value_copy(&self.payload));
        o.put_some("error", string_value(&self.error));
        o.build()
    }

    /// Reads an invocation result from a JSON value.
    pub fn from_value(v: &JsonValue) -> (r: Option<InvokeResult>)
        ensures
            (match r {
                Some(i) => Some(i@),
                None => None,
            }) == invoke_result_of(v@),
    {
        if !record(v, 3) {
            return None;
        }
        match (
            find_bool(v, 0, "ok"),
            find_maybe_value(v, 1, "payload"),
            find_maybe_text(v, 2, "error", false),
        ) {
            (Some(ok), Some(payload), Some(error)) => Some(InvokeResult { ok, payload, error }),
            _ => None,
        }
    }

    /// Reads an invocation result from the JSON value of a text and from what the text lists.
    pub fn from_listed(v: Option<JsonValue>, list: &Members) -> (r: Option<InvokeResult>)
        ensures
            (match r {
                Some(i) => Some(i@),
                None => None,
            }) == invoke_result_in(json::held(v), list@),
    {
        match v {
            Some(v) => if list.repeats("ok") || list.repeats("payload") || list.repeats("error") {
                None
            } else {
                InvokeResult::from_value(&v)
            },
            None => None,
        }
    }

    /// Reads an invocation result from JSON text.
    pub fn from_json(text: &str) -> (r: Option<InvokeResult>)
        ensures
            (match r {
                Some(i) => Some(i@),
                None => None,
            }) == invoke_result_of_text(text@),
    {
        InvokeResult::from_listed(JsonValue::parse(text), &Members::read(text))
    }
}

/// What instances, invocations and their results say is what their fields hold.
pub proof fn records_say_their_fields(i: Instance, p: InvokeParams, r: InvokeResult)
    ensures
        i@.instance_id == i.instance_id@ && i@.app_kind == i.app_kind && i@.display_name
            == i.display_name@ && i@.capabilities == text::texts(i.capabilities@) && i@.commands
            == text::texts(i.commands@) && i@.version == i.version@ && i@.platform == i.platform@
            && i@.cwd == text::optional(i.cwd) && i@.connected == i.connected
            && i@.connected_at_ms == i.connected_at_ms && i@.session_url == text::optional(
            i.session_url,
        ) && i@.exposed == expose::urls(i.exposed@) && i@.metadata == i.metadata@,
        p@.instance_id == p.instance_id@ && p@.command == p.command@ && p@.params == p.params@
            && p@.timeout_ms == p.timeout_ms,
        r@.ok == r.ok && r@.payload == json::held(r.payload) && r@.error == text::optional(
            r.error,
        ),
{
}

/// The document of an instance has each of its fields under its name, the
/// optional ones where they are there, and nothing else.
pub proof fn instances_are_written(i: InstanceView)
    ensures
        instance_json(i) is Object,
        forall|n: Seq<char>| #[trigger]
            json::json_get(instance_json(i), n) == if n == "instance_id"@ {
                Some(Json::Str(i.instance_id))
            } else if n == "app_kind"@ {
                Some(Json::Str(protocol::kind_name(i.app_kind)))
            } else if n == "display_name"@ {
                Some(Json::Str(i.display_name))
            } else if n == "capabilities"@ {
                Some(Json::Array(i.capabilities.map_values(|s: Seq<char>| Json::Str(s))))
            } else if n == "commands"@ {
                Some(Json::Array(i.commands.map_values(|s: Seq<char>| Json::Str(s))))
            } else if n == "version"@ {
                Some(Json::Str(i.version))
            } else if n == "platform"@ {
                Some(Json::Str(i.platform))
            } else if n == "cwd"@ && i.cwd is Some {
                Some(Json::Str(i.cwd->0))
            } else if n == "connected"@ {
                Some(Json::Bool(i.connected))
            } else if n == "connected_at_ms"@ {
                Some(Json::Int(i.connected_at_ms as int))
            } else if n == "session_url"@ && i.session_url is Some {
                Some(Json::Str(i.session_url->0))
            } else if n == "exposed"@ {
                Some(Json::Array(i.exposed.map_values(|u: UrlView| expose::url_json(u))))
            } else if n == "metadata"@ {
                Some(i.metadata)
            } else {
                None
            },
{
    names();
}

/// An instance is read from what a document has under the names of its fields,
/// with what counts where one is left out.
pub proof fn instances_are_read(j: Json, i: InstanceView)
    requires
        instance_of(j) == Some(i),
    ensures
        wire::is_record(j, 13),
        wire::field(j, 0, "instance_id"@) == Some(Json::Str(i.instance_id)),
        wire::field(j, 1, "app_kind"@) matches Some(k) && protocol::kind_of(k, false) == Some(
            i.app_kind,
        ),
        wire::field(j, 2, "display_name"@) == Some(Json::Str(i.display_name)),
        wire::field(j, 3, "capabilities"@) matches Some(l) && wire::texts_of(l) == Some(
            i.capabilities,
        ),
        match wire::field(j, 4, "commands"@) {
            Some(l) => wire::texts_of(l) == Some(i.commands),
            None => i.commands.len() == 0,
        },
        match wire::field(j, 5, "version"@) {
            Some(v) => v == Json::Str(i.version),
            None => i.version.len() == 0,
        },
        match wire::field(j, 6, "platform"@) {
            Some(v) => v == Json::Str(i.platform),
            None => i.platform.len() == 0,
        },
        match i.cwd {
            Some(d) => wire::field(j, 7, "cwd"@) == Some(Json::Str(d)),
            None => !(wire::field(j, 7, "cwd"@) matches Some(v) && v != Json::Null),
        },
        match wire::field(j, 8, "connected"@) {
            Some(b) => b == Json::Bool(i.connected),
            None => !i.connected,
        },
        match wire::field(j, 9, "connected_at_ms"@) {
            Some(n) => n == Json::Int(i.connected_at_ms as int),
            None => i.connected_at_ms == 0,
        },
        match i.session_url {
            Some(u) => wire::field(j, 10, "session_url"@) == Some(Json::Str(u)),
            None => !(wire::field(j, 10, "session_url"@) matches Some(v) && v != Json::Null),
        },
        match wire::field(j, 11, "exposed"@) {
            Some(l) => expose::urls_of(l) == Some(i.exposed),
            None => i.exposed.len() == 0,
        },
        match wire::field(j, 12, "metadata"@) {
            Some(v) => v == i.metadata,
            None => i.metadata == Json::Null,
        },
{
}

/// The names of the fields of invocations and their results.
proof fn invocation_names()
    ensures
        "instance_id"@.len() == 11 && "command"@.len() == 7,
        "params"@.len() == 6 && "timeout_ms"@.len() == 10,
        "ok"@.len() == 2 && "payload"@.len() == 7 && "error"@.len() == 5,
{
    reveal_strlit("instance_id");
    reveal_strlit("command");
    reveal_strlit("params");
    reveal_strlit("timeout_ms");
    reveal_strlit("ok");
    reveal_strlit("payload");
    reveal_strlit("error");
}

/// The documents of invocations and their results have the fields under their
/// names, and nothing else.
pub proof fn invocations_are_written(p: InvokeParamsView, r: InvokeResultView)
    ensures
        forall|n: Seq<char>| #[trigger]
            json::json_get(invoke_params_json(p), n) == if n == "instance_id"@ {
                Some(Json::Str(p.instance_id))
            } else if n == "command"@ {
                Some(Json::Str(p.command))
            } else if n == "params"@ {
                Some(p.params)
            } else if n == "timeout_ms"@ {
                Some(Json::Int(p.timeout_ms as int))
            } else {
                None
            },
        forall|n: Seq<char>| #[trigger]
            json::json_get(invoke_result_json(r), n) == if n == "ok"@ {
                Some(Json::Bool(r.ok))
            } else if n == "payload"@ {
                r.payload
            } else if n == "error"@ && r.error is Some {
                Some(Json::Str(r.error->0))
            } else {
                None
            },
{
    invocation_names();
}

/// A document holds an invocation, or the result of one, if and only if it has
/// what these cannot do without.
pub proof fn invocations_are_read(j: Json, p: InvokeParamsView, r: InvokeResultView)
    ensures
        invoke_params_of(j) == Some(p) <==> {
            &&& wire::is_record(j, 4)
            &&& wire::field(j, 0, "instance_id"@) == Some(Json::Str(p.instance_id))
            &&& wire::field(j, 1, "command"@) == Some(Json::Str(p.command))
            &&& p.params == (match wire::field(j, 2, "params"@) {
                Some(v) => v,
                None => Json::Null,
            })
            &&& match wire::field(j, 3, "timeout_ms"@) {
                Some(n) => n == Json::Int(p.timeout_ms as int),
                None => p.timeout_ms == 30_000,
            }
        },
        invoke_result_of(j) == Some(r) <==> {
            &&& wire::is_record(j, 3)
            &&& wire::field(j, 0, "ok"@) == Some(Json::Bool(r.ok))
            &&& match r.payload {
                Some(v) => v != Json::Null && wire::field(j, 1, "payload"@) == Some(v),
                None => wire::field(j, 1, "payload"@) == Some(Json::Null) || (wire::field(
                    j,
                    1,
                    "payload"@,
                ) is None && j is Object),
            }
            &&& match r.error {
                Some(e) => wire::field(j, 2, "error"@) == Some(Json::Str(e)),
                None => wire::field(j, 2, "error"@) == Some(Json::Null) || (wire::field(
                    j,
                    2,
                    "error"@,
                ) is None && j is Object),
            }
        },
{
}

/// Texts hold what their documents hold, unless they give a field twice.
pub proof fn fields_of_records_are_given_once(j: Json, list: Seq<Listed>)
    ensures
        instance_in(None, list) is None && invoke_params_in(None, list) is None
            && invoke_result_in(None, list) is None,
        invoke_params_in(Some(j), list) == if members::repeats(list, "instance_id"@)
            || members::repeats(list, "command"@) || members::repeats(list, "params"@)
            || members::repeats(list, "timeout_ms"@) {
            None
        } else {
            invoke_params_of(j)
        },
        invoke_result_in(Some(j), list) == if members::repeats(list, "ok"@) || members::repeats(
            list,
            "payload"@,
        ) || members::repeats(list, "error"@) {
            None
        } else {
            invoke_result_of(j)
        },
        instance_in(Some(j), list) == None::<InstanceView> || instance_in(Some(j), list)
            == instance_of(j),
        (forall|n: Seq<char>| !(#[trigger] members::repeats(list, n))) && members::listing(
            members::field_text(list, 1, "app_kind"@),
        ).len() <= 1 && !expose::urls_repeated(members::field_text(list, 11, "exposed"@))
            ==> instance_in(Some(j), list) == instance_of(j),
        members::repeats(list, "instance_id"@) || members::repeats(list, "app_kind"@)
            || members::repeats(list, "display_name"@) || members::repeats(list, "capabilities"@)
            || members::repeats(list, "commands"@) || members::repeats(list, "version"@)
            || members::repeats(list, "platform"@) || members::repeats(list, "cwd"@)
            || members::repeats(list, "connected"@) || members::repeats(list, "connected_at_ms"@)
            || members::repeats(list, "session_url"@) || members::repeats(list, "exposed"@)
            || members::repeats(list, "metadata"@) ==> instance_in(Some(j), list) is None,
{
}

/// What an instance is written as holds each of its fields under its name.
pub proof fn instances_are_written_by_name(i: &Instance, v: JsonValue)
    requires
        call_ensures(Instance::to_value, (i,), v),
    ensures
        forall|n: Seq<char>| #[trigger]
            json::json_get(v@, n) == if n == "instance_id"@ {
                Some(Json::Str(i.instance_id@))
            } else if n == "app_kind"@ {
                Some(Json::Str(protocol::kind_name(i.app_kind)))
            } else if n == "display_name"@ {
                Some(Json::Str(i.display_name@))
            } else if n == "capabilities"@ {
                Some(json::json_texts(text::texts(i.capabilities@)))
            } else if n == "commands"@ {
                Some(json::json_texts(text::texts(i.commands@)))
            } else if n == "version"@ {
                Some(Json::Str(i.version@))
            } else if n == "platform"@ {
                Some(Json::Str(i.platform@))
            } else if n == "cwd"@ && i.cwd is Some {
                Some(Json::Str(i.cwd->0@))
            } else if n == "connected"@ {
                Some(Json::Bool(i.connected))
            } else if n == "connected_at_ms"@ {
                Some(Json::Int(i.connected_at_ms as int))
            } else if n == "session_url"@ && i.session_url is Some {
                Some(Json::Str(i.session_url->0@))
            } else if n == "exposed"@ {
                Some(expose::urls_json(expose::urls(i.exposed@)))
            } else if n == "metadata"@ {
                Some(i.metadata@)
            } else {
                None
            },
{
    instances_are_written(i@);
}

/// An instance is read from a document by the names of its fields.
pub proof fn instances_are_read_by_name(v: &JsonValue, r: Option<Instance>)
    requires
        call_ensures(Instance::from_value, (v,), r),
    ensures
        r is None <==> instance_of(v@) is None,
        r matches Some(i) ==> {
            &&& wire::field(v@, 0, "instance_id"@) == Some(Json::Str(i.instance_id@))
            &&& wire::field(v@, 1, "app_kind"@) matches Some(k) && protocol::kind_of(k, false)
                == Some(i.app_kind)
            &&& wire::field(v@, 2, "display_name"@) == Some(Json::Str(i.display_name@))
            &&& wire::field(v@, 3, "capabilities"@) matches Some(l) && wire::texts_of(l) == Some(
                text::texts(i.capabilities@),
            )
            &&& match wire::field(v@, 4, "commands"@) {
                Some(l) => wire::texts_of(l) == Some(text::texts(i.commands@)),
                None => i.commands@.len() == 0,
            }
            &&& match wire::field(v@, 5, "version"@) {
                Some(s) => s == Json::Str(i.version@),
                None => i.version@.len() == 0,
            }
            &&& match wire::field(v@, 6, "platform"@) {
                Some(s) => s == Json::Str(i.platform@),
                None => i.platform@.len() == 0,
            }
            &&& match wire::field(v@, 8, "connected"@) {
                Some(b) => b == Json::Bool(i.connected),
                None => !i.connected,
            }
            &&& match wire::field(v@, 9, "connected_at_ms"@) {
                Some(n) => n == Json::Int(i.connected_at_ms as int),
                None => i.connected_at_ms == 0,
            }
            &&& i.cwd matches Some(d) ==> wire::field(v@, 7, "cwd"@) == Some(Json::Str(d@))
            &&& wire::field(v@, 7, "cwd"@) matches Some(Json::Str(d)) ==> i.cwd is Some
            &&& i.session_url matches Some(u) ==> wire::field(v@, 10, "session_url"@) == Some(
                Json::Str(u@),
            )
            &&& wire::field(v@, 10, "session_url"@) matches Some(Json::Str(u)) ==> i.session_url
                is Some
            &&& match wire::field(v@, 11, "exposed"@) {
                Some(l) => expose::urls_of(l) == Some(expose::urls(i.exposed@)),
                None => i.exposed@.len() == 0,
            }
            &&& i.metadata@ == (match wire::field(v@, 12, "metadata"@) {
                Some(m) => m,
                None => Json::Null,
            })
        },
{
    if r is Some {
        instances_are_read(v@, r->0@);
        let i = r->0;
        assert(text::texts(i.commands@).len() == i.commands@.len());
        assert(expose::urls(i.exposed@).len() == i.exposed@.len());
    }
}

/// What invocations and their results are written as holds their fields under
/// their names, and they are read back from it.
pub proof fn invocations_are_written_and_read(
    p: &InvokeParams,
    pv: JsonValue,
    q: Option<InvokeParams>,
    r: &InvokeResult,
    rv: JsonValue,
    s: Option<InvokeResult>,
    limit: u64,
)
    requires
        call_ensures(InvokeParams::to_value, (p,), pv),
        call_ensures(InvokeParams::from_value, (&pv,), q),
        call_ensures(InvokeResult::to_value, (r,), rv),
        call_ensures(InvokeResult::from_value, (&rv,), s),
        call_ensures(default_timeout, (), limit),
    ensures
        json::json_get(pv@, "instance_id"@) == Some(Json::Str(p.instance_id@)),
        json::json_get(pv@, "command"@) == Some(Json::Str(p.command@)),
        json::json_get(pv@, "params"@) == Some(p.params@),
        json::json_get(pv@, "timeout_ms"@) == Some(Json::Int(p.timeout_ms as int)),
        q matches Some(k) && k.instance_id@ == p.instance_id@ && k.command@ == p.command@
            && k.params@ == p.params@ && k.timeout_ms == p.timeout_ms,
        json::json_get(rv@, "ok"@) == Some(Json::Bool(r.ok)),
        json::json_get(rv@, "payload"@) == json::held(r.payload),
        json::json_get(rv@, "error"@) == (match r.error {
            Some(e) => Some(Json::Str(e@)),
            None => None,
        }),
        s matches Some(k) && k.ok == r.ok && text::optional(k.error) == text::optional(r.error) && (
        json::held(r.payload) != Some(Json::Null) ==> json::held(k.payload) == json::held(
            r.payload,
        )),
        limit == 30_000,
{
    invocation_names();
    invocations_are_written(p@, r@);
    invocations_are_read(pv@, p@, r@);
    let k = InvokeResultView {
        ok: r.ok,
        payload: if json::held(r.payload) == Some(Json::Null) {
            None
        } else {
            json::held(r.payload)
        },
        error: text::optional(r.error),
    };
    invocations_are_read(rv@, p@, k);
}

/// An invocation, and a result of one, is read from a document by the names of
/// its fields.
pub proof fn invocations_are_read_by_name(
    v: &JsonValue,
    p: Option<InvokeParams>,
    r: Option<InvokeResult>,
)
    requires
        call_ensures(InvokeParams::from_value, (v,), p),
        call_ensures(InvokeResult::from_value, (v,), r),
    ensures
        p is None <==> invoke_params_of(v@) is None,
        r is None <==> invoke_result_of(v@) is None,
        p matches Some(k) ==> {
            &&& wire::field(v@, 0, "instance_id"@) == Some(Json::Str(k.instance_id@))
            &&& wire::field(v@, 1, "command"@) == Some(Json::Str(k.command@))
            &&& k.params@ == (match wire::field(v@, 2, "params"@) {
                Some(x) => x,
                None => Json::Null,
            })
            &&& match wire::field(v@, 3, "timeout_ms"@) {
                Some(n) => n == Json::Int(k.timeout_ms as int),
                None => k.timeout_ms == 30_000,
            }
        },
        r matches Some(k) ==> {
            &&& wire::field(v@, 0, "ok"@) == Some(Json::Bool(k.ok))
            &&& k.payload matches Some(x) ==> wire::field(v@, 1, "payload"@) == Some(x@)
            &&& k.error matches Some(e) ==> wire::field(v@, 2, "error"@) == Some(Json::Str(e@))
            &&& wire::field(v@, 2, "error"@) matches Some(Json::Str(e)) ==> k.error is Some
            &&& wire::field(v@, 1, "payload"@) matches Some(x) ==> x != Json::Null ==> k.payload
                is Some
        },
{
    if p is Some && r is Some {
        invocations_are_read(v@, p->0@, r->0@);
    } else if p is Some {
        invocations_are_read(v@, p->0@, arbitrary());
    } else if r is Some {
        invocations_are_read(v@, arbitrary(), r->0@);
    }
}

/// A text holds what its document holds, as far as it gives its fields once.
pub proof fn texts_hold_records(
    text: &str,
    i: Option<Instance>,
    p: Option<InvokeParams>,
    r: Option<InvokeResult>,
)
    requires
        call_ensures(Instance::from_json, (text,), i),
        call_ensures(InvokeParams::from_json, (text,), p),
        call_ensures(InvokeResult::from_json, (text,), r),
    ensures
        ({
            let j = json::json_of_text(text@);
            let list = members::listing(text@);
            &&& (match i {
                Some(k) => Some(k@),
                None => None,
            }) == instance_in(j, list)
            &&& (match p {
                Some(k) => Some(k@),
                None => None,
            }) == invoke_params_in(j, list)
            &&& (match r {
                Some(k) => Some(k@),
                None => None,
            }) == invoke_result_in(j, list)
        }),
{
}

/// Whatever has an ID, a kind, a name and capabilities holds an instance, as
/// far as what else it gives is as it should be.
pub proof fn instances_need_no_more(j: Json)
    ensures
        instance_of(j) is Some <==> {
            &&& wire::is_record(j, 13)
            &&& wire::field(j, 0, "instance_id"@) matches Some(v) && v is Str
            &&& wire::field(j, 1, "app_kind"@) matches Some(v) && protocol::kind_of(v, false)
                is Some
            &&& wire::field(j, 2, "display_name"@) matches Some(v) && v is Str
            &&& wire::field(j, 3, "capabilities"@) matches Some(v) && wire::texts_of(v) is Some
            &&& wire::field(j, 4, "commands"@) matches Some(v) ==> wire::texts_of(v) is Some
            &&& wire::field(j, 5, "version"@) matches Some(v) ==> v is Str
            &&& wire::field(j, 6, "platform"@) matches Some(v) ==> v is Str
            &&& match wire::field(j, 7, "cwd"@) {
                Some(v) => v is Str || v is Null,
                None => !(j is Array),
            }
            &&& wire::field(j, 8, "connected"@) matches Some(v) ==> v is Bool
            &&& wire::field(j, 9, "connected_at_ms"@) matches Some(v) ==> (v matches Json::Int(n)
                && 0 <= n <= u64::MAX)
            &&& match wire::field(j, 10, "session_url"@) {
                Some(v) => v is Str || v is Null,
                None => !(j is Array),
            }
            &&& wire::field(j, 11, "exposed"@) matches Some(v) ==> expose::urls_of(v) is Some
        },
{
}

/// What is read from a document and what its text lists is what the document
/// holds, as far as the text gives its fields once.
pub proof fn listed_records_are_read(
    v: Option<JsonValue>,
    list: &Members,
    i: Option<Instance>,
    p: Option<InvokeParams>,
    r: Option<InvokeResult>,
)
    requires
        call_ensures(Instance::from_listed, (v, list), i),
        call_ensures(InvokeParams::from_listed, (v, list), p),
        call_ensures(InvokeResult::from_listed, (v, list), r),
    ensures
        v is None ==> i is None && p is None && r is None,
        (match i {
            Some(k) => Some(k@),
            None => None,
        }) == instance_in(json::held(v), list@),
        (match p {
            Some(k) => Some(k@),
            None => None,
        }) == invoke_params_in(json::held(v), list@),
        (match r {
            Some(k) => Some(k@),
            None => None,
        }) == invoke_result_in(json::held(v), list@),
{
}

} // verus!

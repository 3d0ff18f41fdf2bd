//! Interactive terminal session management.
//!
//! Provides persistent sessions that can be controlled remotely. Each session
//! has a unique ID and streams output as events. Which sessions there are, how
//! one is started and what its callers are told is decided here; the processes
//! themselves are run by the caller.

use crate::ident;
use crate::ident::fresh_id;
use crate::json;
use crate::json::{Json, JsonValue, ObjectBuilder};
use crate::members;
use crate::members::{Listed, Members};
use crate::protocol;
use crate::protocol::string_value;
use crate::table::Table;
use crate::text;
use crate::text::{joined, number_text, same, utf8_lossy};
use crate::wire;
use crate::wire::{
    find, find_maybe_i32, find_maybe_text, find_text, find_uint, find_uint_or, pairs_value,
    read_pairs, record,
};
use vstd::prelude::*;

verus! {

/// A terminal session request.
#[derive(Debug, Clone)]
pub struct TerminalOpenParams {
    /// Shell to use (default: user's $SHELL or /bin/sh).
    pub shell: Option<String>,
    /// Working directory.
    pub cwd: Option<String>,
    /// Environment variables to set; of two with one name the later counts.
    pub env: Vec<(String, String)>,
    /// Initial terminal size.
    pub cols: u16,
    pub rows: u16,
}

/// The width of a terminal where none is asked for.
pub fn default_cols() -> (r: u16)
    ensures
        r == 80,
{
    80
}

/// The height of a terminal where none is asked for.
pub fn default_rows() -> (r: u16)
    ensures
        r == 24,
{
    24
}

/// Terminal session info returned to the caller.
#[derive(Debug, Clone)]
pub struct TerminalSession {
    pub session_id: String,
    pub shell: String,
    pub pid: u32,
    pub cols: u16,
    pub rows: u16,
}

/// Terminal output event data.
#[derive(Debug, Clone)]
pub struct TerminalOutputData {
    pub session_id: String,
    pub data: String,
}

/// Terminal exit event data.
#[derive(Debug, Clone)]
pub struct TerminalExitData {
    pub session_id: String,
    pub exit_code: Option<i32>,
}

/// Terminal events sent upstream (to gateway or cloud).
#[derive(Debug, Clone)]
pub enum TerminalEvent {
    Output { session_id: String, data: String },
    Exit { session_id: String, exit_code: Option<i32> },
}

/// What a [`TerminalOpenParams`] says.
pub struct OpenView {
    pub shell: Option<Seq<char>>,
    pub cwd: Option<Seq<char>>,
    pub env: Map<Seq<char>, Seq<char>>,
    pub cols: u16,
    pub rows: u16,
}

/// What a [`TerminalSession`] says.
pub struct SessionView {
    pub session_id: Seq<char>,
    pub shell: Seq<char>,
    pub pid: u32,
    pub cols: u16,
    pub rows: u16,
}

/// What a [`TerminalEvent`] says.
pub enum TerminalEventView {
    Output(Seq<char>, Seq<char>),
    Exit(Seq<char>, Option<i32>),
}

impl View for TerminalOpenParams {
    type V = OpenView;

    open spec fn view(&self) -> OpenView {
        OpenView {
            shell: text::optional(self.shell),
            cwd: text::optional(self.cwd),
            env: wire::pairs(self.env@),
            cols: self.cols,
            rows: self.rows,
        }
    }
}

impl View for TerminalSession {
    type V = SessionView;

    open spec fn view(&self) -> SessionView {
        SessionView {
            session_id: self.session_id@,
            shell: self.shell@,
            pid: self.pid,
            cols: self.cols,
            rows: self.rows,
        }
    }
}

impl View for TerminalEvent {
    type V = TerminalEventView;

    open spec fn view(&self) -> TerminalEventView {
        match *self {
            TerminalEvent::Output { session_id, data } => TerminalEventView::Output(
                session_id@,
                data@,
            ),
            TerminalEvent::Exit { session_id, exit_code } => TerminalEventView::Exit(
                session_id@,
                exit_code,
            ),
        }
    }
}

/// The JSON object of a session request.
pub open spec fn open_json(p: OpenView) -> Json {
    Json::Object(
        Map::empty().insert("shell"@, json::or_null(protocol::maybe_string(p.shell))).insert(
            "cwd"@,
            json::or_null(protocol::maybe_string(p.cwd)),
        ).insert("env"@, wire::pairs_json(p.env)).insert("cols"@, Json::Int(p.cols as int)).insert(
            "rows"@,
            Json::Int(p.rows as int),
        ),
    )
}

/// The session request that a document holds. Everything in it may be left out.
pub open spec fn open_of(j: Json) -> Option<OpenView> {
    let shell = wire::maybe_text(j, 0, "shell"@, true);
    let cwd = wire::maybe_text(j, 1, "cwd"@, true);
    let env = match wire::field(j, 2, "env"@) {
        Some(e) => wire::pairs_of(e),
        None => Some(Map::empty()),
    };
    let cols = wire::uint_or(j, 3, "cols"@, u16::MAX as u64, 80);
    let rows = wire::uint_or(j, 4, "rows"@, u16::MAX as u64, 24);
    if wire::is_record(j, 5) && shell is Some && cwd is Some && env is Some && cols is Some
        && rows is Some {
        Some(
            OpenView {
                shell: shell->0,
                cwd: cwd->0,
                env: env->0,
                cols: cols->0 as u16,
                rows: rows->0 as u16,
            },
        )
    } else {
        None
    }
}

/// The JSON object of a session.
pub open spec fn session_json(s: SessionView) -> Json {
    Json::Object(
        Map::empty().insert("session_id"@, Json::Str(s.session_id)).insert(
            "shell"@,
            Json::Str(s.shell),
        ).insert("pid"@, Json::Int(s.pid as int)).insert("cols"@, Json::Int(s.cols as int)).insert(
            "rows"@,
            Json::Int(s.rows as int),
        ),
    )
}

/// The session that a document holds.
pub open spec fn session_of(j: Json) -> Option<SessionView> {
    let session_id = wire::text_field(j, 0, "session_id"@);
    let shell = wire::text_field(j, 1, "shell"@);
    let pid = wire::uint_field(j, 2, "pid"@, u32::MAX as u64);
    let cols = wire::uint_field(j, 3, "cols"@, u16::MAX as u64);
    let rows = wire::uint_field(j, 4, "rows"@, u16::MAX as u64);
    if wire::is_record(j, 5) && session_id is Some && shell is Some && pid is Some && cols is Some
        && rows is Some {
        Some(
            SessionView {
                session_id: session_id->0,
                shell: shell->0,
                pid: pid->0 as u32,
                cols: cols->0 as u16,
                rows: rows->0 as u16,
            },
        )
    } else {
        None
    }
}

/// The JSON object of session output.
pub open spec fn output_json(session_id: Seq<char>, data: Seq<char>) -> Json {
    Json::Object(
        Map::empty().insert("session_id"@, Json::Str(session_id)).insert("data"@, Json::Str(data)),
    )
}

/// The session output that a document holds: the session and the text.
pub open spec fn output_of(j: Json) -> Option<(Seq<char>, Seq<char>)> {
    let session_id = wire::text_field(j, 0, "session_id"@);
    let data = wire::text_field(j, 1, "data"@);
    if wire::is_record(j, 2) && session_id is Some && data is Some {
        Some((session_id->0, data->0))
    } else {
        None
    }
}

/// The JSON object of the end of a session.
pub open spec fn exit_json(session_id: Seq<char>, exit_code: Option<i32>) -> Json {
    Json::Object(
        Map::empty().insert("session_id"@, Json::Str(session_id)).insert(
            "exit_code"@,
            match exit_code {
                Some(n) => Json::Int(n as int),
                None => Json::Null,
            },
        ),
    )
}

/// The end of a session that a document holds: the session and the exit code.
pub open spec fn exit_of(j: Json) -> Option<(Seq<char>, Option<i32>)> {
    let session_id = wire::text_field(j, 0, "session_id"@);
    let exit_code = wire::maybe_i32(j, 1, "exit_code"@);
    if wire::is_record(j, 2) && session_id is Some && exit_code is Some {
        Some((session_id->0, exit_code->0))
    } else {
        None
    }
}

proof fn names()
    ensures
        "shell"@.len() == 5,
        "cwd"@.len() == 3 && "cwd"@[0] == 'c',
        "env"@.len() == 3 && "env"@[0] == 'e',
        "pid"@.len() == 3 && "pid"@[0] == 'p',
        "cols"@.len() == 4 && "cols"@[0] == 'c',
        "rows"@.len() == 4 && "rows"@[0] == 'r',
        "data"@.len() == 4 && "data"@[0] == 'd',
        "session_id"@.len() == 10,
        "exit_code"@.len() == 9,
{
    reveal_strlit("shell");
    reveal_strlit("cwd");
    reveal_strlit("env");
    reveal_strlit("pid");
    reveal_strlit("cols");
    reveal_strlit("rows");
    reveal_strlit("data");
    reveal_strlit("session_id");
    reveal_strlit("exit_code");
}

/// What is written for a session request is read back.
pub proof fn open_is_read_back(p: OpenView)
    ensures
        open_of(open_json(p)) == Some(p),
{
    names();
    wire::pairs_are_read_back(p.env);
    let j = open_json(p);
    assert(wire::field(j, 0, "shell"@) == Some(json::or_null(protocol::maybe_string(p.shell))));
    assert(wire::field(j, 1, "cwd"@) == Some(json::or_null(protocol::maybe_string(p.cwd))));
}

/// What is written for a session is read back.
pub proof fn session_is_read_back(s: SessionView)
    ensures
        session_of(session_json(s)) == Some(s),
{
    names();
    assert(wire::text_field(session_json(s), 0, "session_id"@) == Some(s.session_id));
}

/// What is written for output and for the end of a session is read back.
pub proof fn events_are_read_back(session_id: Seq<char>, data: Seq<char>, exit_code: Option<i32>)
    ensures
        output_of(output_json(session_id, data)) == Some((session_id, data)),
        exit_of(exit_json(session_id, exit_code)) == Some((session_id, exit_code)),
{
    names();
    assert(wire::text_field(output_json(session_id, data), 0, "session_id"@) == Some(session_id));
    assert(wire::text_field(exit_json(session_id, exit_code), 0, "session_id"@) == Some(
        session_id,
    ));
}

/// An optional integer of 32 bits, null where there is none.
pub fn code_value(code: Option<i32>) -> (r: JsonValue)
    ensures
        r@ == (match code {
            Some(n) => Json::Int(n as int),
            None => Json::Null,
        }),
{
    match code {
        Some(n) => JsonValue::signed(n as i64),
        None => JsonValue::Null,
    }
}

/// Whether a text gives a field of a session request twice.
pub open spec fn open_repeated(list: Seq<Listed>) -> bool {
    ||| members::repeats(list, "shell"@)
    ||| members::repeats(list, "cwd"@)
    ||| members::repeats(list, "env"@)
    ||| members::repeats(list, "cols"@)
    ||| members::repeats(list, "rows"@)
}

/// The session request in a text which has this JSON value and lists these
/// members; none where the text gives a field twice.
pub open spec fn open_in(j: Option<Json>, list: Seq<Listed>) -> Option<OpenView> {
    match j {
        Some(j) => if open_repeated(list) {
            None
        } else {
            open_of(j)
        },
        None => None,
    }
}

/// The session request that a text holds.
pub open spec fn open_of_text(text: Seq<char>) -> Option<OpenView> {
    open_in(json::json_of_text(text), members::listing(text))
}

/// The text of what is written for a session request is read back.
pub proof fn open_text_is_read_back(p: OpenView, s: Seq<char>)
    requires
        json::json_of_text(s) == Some(open_json(p)),
        json::is_shown(s, open_json(p)),
    ensures
        open_of_text(s) == Some(p),
{
    open_is_read_back(p);
    json::shown_is_not_repeated(s, open_json(p));
}

impl TerminalOpenParams {
    /// The JSON object of this request.
    pub fn to_value(&self) -> (r: JsonValue)
        ensures
            r@ == open_json(self@),
    {
        let mut o = ObjectBuilder::new();
        o.put("shell", JsonValue::nullable(string_value(&self.shell)));
        o.put("cwd", JsonValue::nullable(string_value(&self.cwd)));
        o.put("env", pairs_value(&self.env));
        o.put("cols", JsonValue::unsigned(self.cols as u64));
        o.put("rows", JsonValue::unsigned(self.rows as u64));
        o.build()
    }

    /// Reads a request from a JSON value.
    pub fn from_value(v: &JsonValue) -> (r: Option<TerminalOpenParams>)
        ensures
            (match r {
                Some(p) => Some(p@),
                None => None,
            }) == open_of(v@),
    {
        if !record(v, 5) {
            return None;
        }
        let env = match find(v, 2, "env") {
            Some(e) => read_pairs(e),
            None => Some(Vec::new()),
        };
        match (
            find_maybe_text(v, 0, "shell", true),
            find_maybe_text(v, 1, "cwd", true),
            env,
            find_uint_or(v, 3, "cols", u16::MAX as u64, default_cols() as u64),
            find_uint_or(v, 4, "rows", u16::MAX as u64, default_rows() as u64),
        ) {
            (Some(shell), Some(cwd), Some(env), Some(cols), Some(rows)) => Some(
                TerminalOpenParams { shell, cwd, env, cols: cols as u16, rows: rows as u16 },
            ),
            _ => None,
        }
    }

    /// Reads a session request from the JSON value of a text and from what the text lists.
    pub fn from_listed(v: Option<JsonValue>, list: &Members) -> (r: Option<TerminalOpenParams>)
        ensures
            (match r {
                Some(p) => Some(p@),
                None => None,
            }) == open_in(json::held(v), list@),
    {
        match v {
            Some(v) => if list.repeats("shell") || list.repeats("cwd") || list.repeats("env")
                    || list.repeats("cols") || list.repeats("rows") {
                None
            } else {
                TerminalOpenParams::from_value(&v)
            },
            None => None,
        }
    }

    /// Reads a session request from JSON text.
    pub fn from_json(text: &str) -> (r: Option<TerminalOpenParams>)
        ensures
            (match r {
                Some(p) => Some(p@),
                None => None,
            }) == open_of_text(text@),
    {
        TerminalOpenParams::from_listed(JsonValue::parse(text), &Members::read(text))
    }
}

/// Whether a text gives a field of a session twice.
pub open spec fn session_repeated(list: Seq<Listed>) -> bool {
    ||| members::repeats(list, "session_id"@)
    ||| members::repeats(list, "shell"@)
    ||| members::repeats(list, "pid"@)
    ||| members::repeats(list, "cols"@)
    ||| members::repeats(list, "rows"@)
}

/// The session in a text which has this JSON value and lists these members;
/// none where the text gives a field twice.
pub open spec fn session_in(j: Option<Json>, list: Seq<Listed>) -> Option<SessionView> {
    match j {
        Some(j) => if session_repeated(list) {
            None
        } else {
            session_of(j)
        },
        None => None,
    }
}

/// The session that a text holds.
pub open spec fn session_of_text(text: Seq<char>) -> Option<SessionView> {
    session_in(json::json_of_text(text), members::listing(text))
}

/// The text of what is written for a session is read back.
pub proof fn session_text_is_read_back(t: SessionView, s: Seq<char>)
    requires
        json::json_of_text(s) == Some(session_json(t)),
        json::is_shown(s, session_json(t)),
    ensures
        session_of_text(s) == Some(t),
{
    session_is_read_back(t);
    json::shown_is_not_repeated(s, session_json(t));
}

impl TerminalSession {
    /// The JSON object of this session.
    pub fn to_value(&self) -> (r: JsonValue)
        ensures
            r@ == session_json(self@),
    {
        let mut o = ObjectBuilder::new();
        o.put("session_id", JsonValue::text(self.session_id.as_str()));
        o.put("shell", JsonValue::text(self.shell.as_str()));
        o.put("pid", JsonValue::unsigned(self.pid as u64));
        o.put("cols", JsonValue::unsigned(self.cols as u64));
        o.put("rows", JsonValue::unsigned(self.rows as u64));
        o.build()
    }

    /// Reads a session from a JSON value.
    pub fn from_value(v: &JsonValue) -> (r: Option<TerminalSession>)
        ensures
            (match r {
                Some(s) => Some(s@),
                None => None,
            }) == session_of(v@),
    {
        if !record(v, 5) {
            return None;
        }
        match (
            find_text(v, 0, "session_id"),
            find_text(v, 1, "shell"),
            find_uint(v, 2, "pid", u32::MAX as u64),
            find_uint(v, 3, "cols", u16::MAX as u64),
            find_uint(v, 4, "rows", u16::MAX as u64),
        ) {
            (Some(session_id), Some(shell), Some(pid), Some(cols), Some(rows)) => Some(
                TerminalSession {
                    session_id,
                    shell,
                    pid: pid as u32,
                    cols: cols as u16,
                    rows: rows as u16,
                },
            ),
            _ => None,
        }
    }

    fn copy(&self) -> (r: TerminalSession)
        ensures
            r@ == self@,
    {
        TerminalSession {
            session_id: self.session_id.clone(),
            shell: self.shell.clone(),
            pid: self.pid,
            cols: self.cols,
            rows: self.rows,
        }
    }

    /// Reads a session from the JSON value of a text and from what the text lists.
    pub fn from_listed(v: Option<JsonValue>, list: &Members) -> (r: Option<TerminalSession>)
        ensures
            (match r {
                Some(t) => Some(t@),
                None => None,
            }) == session_in(json::held(v), list@),
    {
        match v {
            Some(v) => if list.repeats("session_id") || list.repeats("shell") || list.repeats("pid")
                    || list.repeats("cols") || list.repeats("rows") {
                None
            } else {
                TerminalSession::from_value(&v)
            },
            None => None,
        }
    }

    /// Reads a session from JSON text.
    pub fn from_json(text: &str) -> (r: Option<TerminalSession>)
        ensures
            (match r {
                Some(t) => Some(t@),
                None => None,
            }) == session_of_text(text@),
    {
        TerminalSession::from_listed(JsonValue::parse(text), &Members::read(text))
    }
}

/// Whether a text gives a field of session output twice.
pub open spec fn output_repeated(list: Seq<Listed>) -> bool {
    ||| members::repeats(list, "session_id"@)
    ||| members::repeats(list, "data"@)
}

/// The session output in a text which has this JSON value and lists these
/// members; none where the text gives a field twice.
pub open spec fn output_in(j: Option<Json>, list: Seq<Listed>) -> Option<(Seq<char>, Seq<char>)> {
    match j {
        Some(j) => if output_repeated(list) {
            None
        } else {
            output_of(j)
        },
        None => None,
    }
}

/// The session output that a text holds.
pub open spec fn output_of_text(text: Seq<char>) -> Option<(Seq<char>, Seq<char>)> {
    output_in(json::json_of_text(text), members::listing(text))
}

/// The text of what is written for session output is read back.
pub proof fn output_text_is_read_back(session_id: Seq<char>, data: Seq<char>, s: Seq<char>)
    requires
        json::json_of_text(s) == Some(output_json(session_id, data)),
        json::is_shown(s, output_json(session_id, data)),
    ensures
        output_of_text(s) == Some((session_id, data)),
{
    events_are_read_back(session_id, data, None);
    json::shown_is_not_repeated(s, output_json(session_id, data));
}

impl TerminalOutputData {
    /// The JSON object of this output.
    pub fn to_value(&self) -> (r: JsonValue)
        ensures
            r@ == output_json(self.session_id@, self.data@),
    {
        let mut o = ObjectBuilder::new();
        o.put("session_id", JsonValue::text(self.session_id.as_str()));
        o.put("data", JsonValue::text(self.data.as_str()));
        o.build()
    }

    /// Reads output from a JSON value.
    pub fn from_value(v: &JsonValue) -> (r: Option<TerminalOutputData>)
        ensures
            (match r {
                Some(o) => Some((o.session_id@, o.data@)),
                None => None,
            }) == output_of(v@),
    {
        if !record(v, 2) {
            return None;
        }
        match (find_text(v, 0, "session_id"), find_text(v, 1, "data")) {
            (Some(session_id), Some(data)) => Some(TerminalOutputData { session_id, data }),
            _ => None,
        }
    }

    /// Reads session output from the JSON value of a text and from what the text lists.
    pub fn from_listed(v: Option<JsonValue>, list: &Members) -> (r: Option<TerminalOutputData>)
        ensures
            (match r {
                Some(o) => Some((o.session_id@, o.data@)),
                None => None,
            }) == output_in(json::held(v), list@),
    {
        match v {
            Some(v) => if list.repeats("session_id") || list.repeats("data") {
                None
            } else {
                TerminalOutputData::from_value(&v)
            },
            None => None,
        }
    }

    /// Reads session output from JSON text.
    pub fn from_json(text: &str) -> (r: Option<TerminalOutputData>)
        ensures
            (match r {
                Some(o) => Some((o.session_id@, o.data@)),
                None => None,
            }) == output_of_text(text@),
    {
        TerminalOutputData::from_listed(JsonValue::parse(text), &Members::read(text))
    }
}

/// Whether a text gives a field of the end of a session twice.
pub open spec fn exit_repeated(list: Seq<Listed>) -> bool {
    ||| members::repeats(list, "session_id"@)
    ||| members::repeats(list, "exit_code"@)
}

/// The end of a session in a text which has this JSON value and lists these
/// members; none where the text gives a field twice.
pub open spec fn exit_in(j: Option<Json>, list: Seq<Listed>) -> Option<(Seq<char>, Option<i32>)> {
    match j {
        Some(j) => if exit_repeated(list) {
            None
        } else {
            exit_of(j)
        },
        None => None,
    }
}

/// The end of a session that a text holds.
pub open spec fn exit_of_text(text: Seq<char>) -> Option<(Seq<char>, Option<i32>)> {
    exit_in(json::json_of_text(text), members::listing(text))
}

/// The text of what is written for the end of a session is read back.
pub proof fn exit_text_is_read_back(session_id: Seq<char>, exit_code: Option<i32>, s: Seq<char>)
    requires
        json::json_of_text(s) == Some(exit_json(session_id, exit_code)),
        json::is_shown(s, exit_json(session_id, exit_code)),
    ensures
        exit_of_text(s) == Some((session_id, exit_code)),
{
    events_are_read_back(session_id, Seq::empty(), exit_code);
    json::shown_is_not_repeated(s, exit_json(session_id, exit_code));
}

impl TerminalExitData {
    /// The JSON object of this end.
    pub fn to_value(&self) -> (r: JsonValue)
        ensures
            r@ == exit_json(self.session_id@, self.exit_code),
    {
        let mut o = ObjectBuilder::new();
        o.put("session_id", JsonValue::text(self.session_id.as_str()));
        o.put("exit_code", code_value(self.exit_code));
        o.build()
    }

    /// Reads the end of a session from a JSON value.
    pub fn from_value(v: &JsonValue) -> (r: Option<TerminalExitData>)
        ensures
            (match r {
                Some(e) => Some((e.session_id@, e.exit_code)),
                None => None,
            }) == exit_of(v@),
    {
        if !record(v, 2) {
            return None;
        }
        match (find_text(v, 0, "session_id"), find_maybe_i32(v, 1, "exit_code")) {
            (Some(session_id), Some(exit_code)) => Some(
                TerminalExitData { session_id, exit_code },
            ),
            _ => None,
        }
    }

    /// Reads the end of a session from the JSON value of a text and from what the text lists.
    pub fn from_listed(v: Option<JsonValue>, list: &Members) -> (r: Option<TerminalExitData>)
        ensures
            (match r {
                Some(e) => Some((e.session_id@, e.exit_code)),
                None => None,
            }) == exit_in(json::held(v), list@),
    {
        match v {
            Some(v) => if list.repeats("session_id") || list.repeats("exit_code") {
                None
            } else {
                TerminalExitData::from_value(&v)
            },
            None => None,
        }
    }

    /// Reads the end of a session from JSON text.
    pub fn from_json(text: &str) -> (r: Option<TerminalExitData>)
        ensures
            (match r {
                Some(e) => Some((e.session_id@, e.exit_code)),
                None => None,
            }) == exit_of_text(text@),
    {
        TerminalExitData::from_listed(JsonValue::parse(text), &Members::read(text))
    }
}

/// How to start a session: the program, where and with which environment it
/// runs, and what the session is to be called.
#[derive(Debug, Clone)]
pub struct Spawn {
    pub session_id: String,
    pub shell: String,
    pub cwd: Option<String>,
    /// Variables to set on top of the inherited ones; of two with one name the
    /// later counts.
    pub env: Vec<(String, String)>,
    pub cols: u16,
    pub rows: u16,
}

/// What a [`Spawn`] says.
pub struct SpawnView {
    pub session_id: Seq<char>,
    pub shell: Seq<char>,
    pub cwd: Option<Seq<char>>,
    pub env: Map<Seq<char>, Seq<char>>,
    pub cols: u16,
    pub rows: u16,
}

impl View for Spawn {
    type V = SpawnView;

    open spec fn view(&self) -> SpawnView {
        SpawnView {
            session_id: self.session_id@,
            shell: self.shell@,
            cwd: text::optional(self.cwd),
            env: wire::pairs(self.env@),
            cols: self.cols,
            rows: self.rows,
        }
    }
}

/// The shell that is used: the one asked for, else the user's, else `/bin/sh`.
pub open spec fn chosen_shell(asked: Option<Seq<char>>, users: Option<Seq<char>>) -> Seq<char> {
    match asked {
        Some(s) => s,
        None => match users {
            Some(s) => s,
            None => "/bin/sh"@,
        },
    }
}

/// The shell that is used.
pub fn choose_shell(asked: Option<String>, users: Option<String>) -> (r: String)
    ensures
        r@ == chosen_shell(text::optional(asked), text::optional(users)),
{
    match asked {
        Some(s) => s,
        None => match users {
            Some(s) => s,
            None => "/bin/sh".to_owned(),
        },
    }
}

/// How a session with the given name is started: in the environment that was
/// asked for, but with the size and the kind of the terminal set.
pub open spec fn spawn_for(
    session_id: Seq<char>,
    p: OpenView,
    users_shell: Option<Seq<char>>,
) -> SpawnView {
    SpawnView {
        session_id,
        shell: chosen_shell(p.shell, users_shell),
        cwd: p.cwd,
        env: p.env.insert("COLUMNS"@, text::decimal(p.cols as nat)).insert(
            "LINES"@,
            text::decimal(p.rows as nat),
        ).insert("TERM"@, "xterm-256color"@),
        cols: p.cols,
        rows: p.rows,
    }
}

/// How the attempt to start the program of a session ended.
pub enum SpawnOutcome {
    /// It could not be started, for this reason.
    Failed(String),
    /// It runs, but without one of its pipes.
    NoStdin,
    NoStdout,
    NoStderr,
    /// It runs, under this process ID where that is known.
    Running(Option<u32>),
}

/// The session that an attempt to start its program makes, or why it makes none.
pub open spec fn session_for(s: SpawnView, o: SpawnOutcome) -> Result<SessionView, Seq<char>> {
    match o {
        SpawnOutcome::Failed(reason) => Err("spawn failed: "@ + reason@),
        SpawnOutcome::NoStdin => Err("no stdin"@),
        SpawnOutcome::NoStdout => Err("no stdout"@),
        SpawnOutcome::NoStderr => Err("no stderr"@),
        SpawnOutcome::Running(pid) => Ok(
            SessionView {
                session_id: s.session_id,
                shell: s.shell,
                pid: match pid {
                    Some(pid) => pid,
                    None => 0,
                },
                cols: s.cols,
                rows: s.rows,
            },
        ),
    }
}

/// The complaint about a session that there is not.
pub open spec fn not_found(session_id: Seq<char>) -> Seq<char> {
    "session not found: "@ + session_id
}

/// What a caller is told who asks for something of a session.
pub open spec fn answer(
    sessions: Map<Seq<char>, SessionView>,
    session_id: Seq<char>,
) -> Result<(), Seq<char>> {
    if sessions.contains_key(session_id) {
        Ok(())
    } else {
        Err(not_found(session_id))
    }
}

/// The sessions once one is open.
pub open spec fn with_session(
    sessions: Map<Seq<char>, SessionView>,
    s: SessionView,
) -> Map<Seq<char>, SessionView> {
    sessions.insert(s.session_id, s)
}

/// The sessions once one is closed or has ended.
pub open spec fn without_session(
    sessions: Map<Seq<char>, SessionView>,
    session_id: Seq<char>,
) -> Map<Seq<char>, SessionView> {
    sessions.remove(session_id)
}

/// The sessions once one has been given another size.
pub open spec fn resized(
    sessions: Map<Seq<char>, SessionView>,
    session_id: Seq<char>,
    cols: u16,
    rows: u16,
) -> Map<Seq<char>, SessionView> {
    if sessions.contains_key(session_id) {
        sessions.insert(session_id, SessionView { cols, rows, ..sessions[session_id] })
    } else {
        sessions
    }
}

/// What is known of the sessions of a node: those that are open, and those
/// whose programs are being started, with whether their end is known already.
pub struct Terminals {
    pub sessions: Map<Seq<char>, SessionView>,
    pub starting: Map<Seq<char>, bool>,
}

/// What can happen to a session.
pub enum TerminalStep {
    /// Its program is being started.
    Started(Seq<char>),
    /// Its program runs, or ran.
    Opened(SessionView),
    /// Its program could not be started.
    Refused(Seq<char>),
    /// It is closed.
    Closed(Seq<char>),
    /// Its program has ended.
    Ended(Seq<char>),
    /// It is given another size.
    Resized(Seq<char>, u16, u16),
}

/// What is known after a step. The end of a program may be told before its
/// session is opened: such a session is never listed.
pub open spec fn after_step(t: Terminals, step: TerminalStep) -> Terminals {
    match step {
        TerminalStep::Started(id) => Terminals { starting: t.starting.insert(id, false), ..t },
        TerminalStep::Opened(s) => Terminals {
            sessions: if t.starting.contains_key(s.session_id) && t.starting[s.session_id] {
                t.sessions
            } else {
                with_session(t.sessions, s)
            },
            starting: t.starting.remove(s.session_id),
        },
        TerminalStep::Refused(id) => Terminals { starting: t.starting.remove(id), ..t },
        TerminalStep::Closed(id) => Terminals { sessions: without_session(t.sessions, id), ..t },
        TerminalStep::Ended(id) => Terminals {
            sessions: without_session(t.sessions, id),
            starting: if t.starting.contains_key(id) {
                t.starting.insert(id, true)
            } else {
                t.starting
            },
        },
        TerminalStep::Resized(id, cols, rows) => Terminals {
            sessions: resized(t.sessions, id, cols, rows),
            ..t
        },
    }
}

/// What is known after a history of steps.
pub open spec fn after(history: Seq<TerminalStep>) -> Terminals
    decreases history.len(),
{
    if history.len() == 0 {
        Terminals { sessions: Map::empty(), starting: Map::empty() }
    } else {
        after_step(after(history.drop_last()), history.last())
    }
}

/// Whether a step opens the session with this name.
pub open spec fn opens(step: TerminalStep, id: Seq<char>) -> bool {
    step matches TerminalStep::Opened(s) && s.session_id == id
}

/// Whether a history tells, at this place, that the program of a session runs
/// or could not be started.
pub open spec fn settles(history: Seq<TerminalStep>, i: int, id: Seq<char>) -> bool {
    0 <= i < history.len() && (opens(history[i], id) || history[i] == TerminalStep::Refused(id))
}

/// Whether a step may follow a history: no name is used twice, a session is
/// opened or refused once, and neither that nor its end comes before it was
/// started. The end may come before the opening.
pub open spec fn may_follow(history: Seq<TerminalStep>, step: TerminalStep) -> bool {
    match step {
        TerminalStep::Started(id) => !history.contains(step),
        TerminalStep::Opened(s) => history.contains(TerminalStep::Started(s.session_id)) && forall|
            i: int,
        |
            !settles(history, i, s.session_id),
        TerminalStep::Refused(id) => history.contains(TerminalStep::Started(id)) && forall|i: int|
            !settles(history, i, id),
        TerminalStep::Ended(id) => history.contains(TerminalStep::Started(id)),
        TerminalStep::Closed(_) | TerminalStep::Resized(_, _, _) => true,
    }
}

/// Whether every step of a history may follow those before it.
pub open spec fn orderly(history: Seq<TerminalStep>) -> bool
    decreases history.len(),
{
    history.len() == 0 || (orderly(history.drop_last()) && may_follow(
        history.drop_last(),
        history.last(),
    ))
}

/// Whether a session was opened at this place of a history and has neither
/// been closed since nor ended, whenever its end was told.
pub open spec fn is_active(history: Seq<TerminalStep>, id: Seq<char>, i: int) -> bool {
    &&& 0 <= i < history.len()
    &&& opens(history[i], id)
    &&& forall|j: int| i < j < history.len() ==> #[trigger] history[j] != TerminalStep::Closed(id)
    &&& !history.contains(TerminalStep::Ended(id))
}

/// A session that was opened at this place of a history, with the size that it
/// was given last.
pub open spec fn sized(history: Seq<TerminalStep>, i: int) -> SessionView
    recommends
        0 <= i < history.len(),
        history[i] is Opened,
    decreases history.len(),
{
    if history.len() == 0 || history.len() <= i + 1 {
        history[i]->Opened_0
    } else {
        let s = sized(history.drop_last(), i);
        match history.last() {
            TerminalStep::Resized(id, cols, rows) => if id == s.session_id {
                SessionView { cols, rows, ..s }
            } else {
                s
            },
            _ => s,
        }
    }
}

/// The sessions are just those that were opened and have neither been closed
/// nor ended, in whatever order the end is told; each is as it was opened, with
/// the size that it was given last.
pub proof fn active_sessions_are_listed(history: Seq<TerminalStep>, id: Seq<char>)
    requires
        orderly(history),
    ensures
        after(history).sessions.contains_key(id) <==> exists|i: int| is_active(history, id, i),
        forall|i: int| #[trigger]
            is_active(history, id, i) ==> after(history).sessions[id] == sized(history, i),
{
    known_after(history, id);
}

/// What is known after a history, about the sessions that are being started too.
proof fn known_after(history: Seq<TerminalStep>, id: Seq<char>)
    requires
        orderly(history),
    ensures
        after(history).sessions.contains_key(id) <==> exists|i: int| is_active(history, id, i),
        forall|i: int| #[trigger]
            is_active(history, id, i) ==> after(history).sessions[id] == sized(history, i),
        forall|i: int| #[trigger] is_active(history, id, i) ==> sized(history, i).session_id == id,
        after(history).starting.contains_key(id) <==> history.contains(TerminalStep::Started(id))
            && forall|i: int| !settles(history, i, id),
        after(history).starting.contains_key(id) ==> (after(history).starting[id]
            == history.contains(TerminalStep::Ended(id))),
        history.contains(TerminalStep::Ended(id)) ==> history.contains(TerminalStep::Started(id)),
        (exists|i: int| settles(history, i, id)) ==> history.contains(TerminalStep::Started(id)),
    decreases history.len(),
{
    if history.len() > 0 {
        let h = history.drop_last();
        let last = history.last();
        let n = history.len() - 1;
        known_after(h, id);
        assert forall|x: TerminalStep| history.contains(x) <==> h.contains(x) || last == x by {
            if h.contains(x) {
                let k = choose|k: int| 0 <= k < h.len() && h[k] == x;
                assert(history[k] == x);
            }
            if history.contains(x) {
                let k = choose|k: int| 0 <= k < history.len() && history[k] == x;
                if k < n {
                    assert(h[k] == x);
                }
            }
            assert(history[n] == last);
        }
        assert forall|i: int| settles(history, i, id) <==> settles(h, i, id) || (i == n && (opens(
            last,
            id,
        ) || last == TerminalStep::Refused(id))) by {
            if 0 <= i < n {
                assert(h[i] == history[i]);
            }
        }
        assert(settles(history, n, id) <==> opens(last, id) || last == TerminalStep::Refused(id));
        assert forall|i: int| 0 <= i < n implies (is_active(history, id, i) <==> is_active(h, id, i)
            && last != TerminalStep::Closed(id) && last != TerminalStep::Ended(id)) by {
            assert(h[i] == history[i]);
            assert(forall|j: int| 0 <= j < n ==> h[j] == #[trigger] history[j]);
            if is_active(h, id, i) && last != TerminalStep::Closed(id) {
                assert forall|j: int| i < j < history.len() implies #[trigger] history[j]
                    != TerminalStep::Closed(id) by {
                    if j < n {
                        assert(h[j] == history[j]);
                    }
                }
            }
            if is_active(history, id, i) {
                assert(history[n] == last);
                assert forall|j: int| i < j < h.len() implies #[trigger] h[j]
                    != TerminalStep::Closed(id) by {
                    assert(history[j] == h[j]);
                }
            }
        }
        assert forall|i: int| 0 <= i < n && opens(h[i], id) implies settles(h, i, id) by {}
        if opens(last, id) {
            assert forall|i: int| !is_active(h, id, i) by {
                if is_active(h, id, i) {
                    assert(settles(h, i, id));
                }
            }
            if !history.contains(TerminalStep::Ended(id)) {
                assert(is_active(history, id, n));
            }
        }
    }
}

/// An open session is there until it is closed or has ended, and not
/// afterwards; what is done to it changes nothing about any other.
pub proof fn session_lives(
    sessions: Map<Seq<char>, SessionView>,
    s: SessionView,
    other: Seq<char>,
)
    requires
        other != s.session_id,
    ensures
        answer(with_session(sessions, s), s.session_id) is Ok,
        with_session(sessions, s)[s.session_id] == s,
        answer(without_session(sessions, s.session_id), s.session_id) == Err::<(), Seq<char>>(
            not_found(s.session_id),
        ),
        answer(with_session(sessions, s), other) == answer(sessions, other),
        answer(without_session(sessions, s.session_id), other) == answer(sessions, other),
        sessions.contains_key(other) ==> with_session(sessions, s)[other] == sessions[other]
            && without_session(sessions, s.session_id)[other] == sessions[other],
{
}

/// Opening a session under a name that was free and closing it again leaves
/// the sessions as they were.
pub proof fn closing_undoes_opening(sessions: Map<Seq<char>, SessionView>, s: SessionView)
    requires
        !sessions.contains_key(s.session_id),
    ensures
        without_session(with_session(sessions, s), s.session_id) == sessions,
{
    assert(without_session(with_session(sessions, s), s.session_id) =~= sessions);
}

/// The outcome of writing the bytes to the program of a session.
pub fn written(taken: bool) -> (r: Result<(), String>)
    ensures
        told(r) == (if taken {
            Ok::<(), Seq<char>>(())
        } else {
            Err("stdin closed"@)
        }),
{
    if taken {
        Ok(())
    } else {
        Err("stdin closed".to_owned())
    }
}

/// What an outcome without a value says.
pub open spec fn told(r: Result<(), String>) -> Result<(), Seq<char>> {
    match r {
        Ok(()) => Ok(()),
        Err(s) => Err(s@),
    }
}

/// Manages active terminal sessions on this node.
#[derive(Debug)]
pub struct TerminalManager {
    sessions: Vec<TerminalSession>,
    /// The sessions whose programs are being started, with whether their end
    /// has been told.
    starting: Table<bool>,
}

/// Whether a list holds a session under this name at this place.
spec fn is_at(list: Seq<TerminalSession>, id: Seq<char>, i: int) -> bool {
    0 <= i < list.len() && list[i].session_id@ == id
}

/// The place of a session in a list.
spec fn place(list: Seq<TerminalSession>, id: Seq<char>) -> int {
    choose|i: int| is_at(list, id, i)
}

/// The sessions of a list by their names.
pub closed spec fn table(list: Seq<TerminalSession>) -> Map<Seq<char>, SessionView> {
    Map::new(
        |id: Seq<char>| exists|i: int| is_at(list, id, i),
        |id: Seq<char>| list[place(list, id)]@,
    )
}

/// Whether no two sessions of a list have one name.
pub open spec fn distinct(list: Seq<TerminalSession>) -> bool {
    forall|i: int, j: int|
        0 <= i < j < list.len() ==> (#[trigger] list[i]).session_id@ != (#[trigger] list[j]).session_id@
}

/// A list of distinct sessions has each of them in its table, and no others.
pub proof fn table_holds(list: Seq<TerminalSession>)
    requires
        distinct(list),
    ensures
        forall|i: int|
            0 <= i < list.len() ==> table(list).contains_key((#[trigger] list[i]).session_id@)
                && table(list)[list[i].session_id@] == list[i]@,
        forall|id: Seq<char>| #[trigger]
            table(list).contains_key(id) ==> table(list)[id].session_id == id && exists|i: int|
                0 <= i < list.len() && (#[trigger] list[i])@ == table(list)[id],
{
    assert forall|i: int| 0 <= i < list.len() implies table(list).contains_key(
        (#[trigger] list[i]).session_id@,
    ) && table(list)[list[i].session_id@] == list[i]@ by {
        let id = list[i].session_id@;
        assert(is_at(list, id, i));
        assert(is_at(list, id, place(list, id)));
    }
    assert forall|id: Seq<char>| #[trigger] table(list).contains_key(id) implies table(
        list,
    )[id].session_id == id && exists|i: int|
        0 <= i < list.len() && (#[trigger] list[i])@ == table(list)[id] by {
        let i = place(list, id);
        assert(is_at(list, id, i));
        assert(list[i]@ == table(list)[id]);
    }
}

impl View for TerminalManager {
    type V = Map<Seq<char>, SessionView>;

    closed spec fn view(&self) -> Map<Seq<char>, SessionView> {
        table(self.sessions@)
    }
}

impl TerminalManager {
    #[verifier::type_invariant]
    spec fn has_distinct_sessions(self) -> bool {
        distinct(self.sessions@)
    }

    /// The sessions whose programs are being started, with whether their end
    /// has been told.
    pub closed spec fn starting(self) -> Map<Seq<char>, bool> {
        self.starting@
    }

    /// All that is known of the sessions.
    pub open spec fn known(self) -> Terminals {
        Terminals { sessions: self@, starting: self.starting() }
    }

    /// Create a new terminal manager.
    pub fn new() -> (r: TerminalManager)
        ensures
            r.known() == after(Seq::empty()),
    {
        let r = TerminalManager { sessions: Vec::new(), starting: Table::new() };
        assert(table(r.sessions@) =~= Map::<Seq<char>, SessionView>::empty());
        r
    }

    /// Finds a session.
    fn find(&self, session_id: &str) -> (r: Option<usize>)
        ensures
            (r is Some) == self@.contains_key(session_id@),
            r matches Some(i) ==> i < self.sessions@.len()
                && self.sessions@[i as int].session_id@ == session_id@,
    {
        for i in 0..self.sessions.len()
            invariant
                forall|k: int| 0 <= k < i ==> !is_at(self.sessions@, session_id@, k),
        {
            if same(self.sessions[i].session_id.as_str(), session_id) {
                assert(is_at(self.sessions@, session_id@, i as int));
                return Some(i);
            }
        }
        None
    }

    /// How to open a new terminal session, under a name that is given.
    pub fn open_as(
        &mut self,
        session_id: String,
        params: TerminalOpenParams,
        users_shell: Option<String>,
    ) -> (r: Spawn)
        ensures
            r@ == spawn_for(session_id@, params@, text::optional(users_shell)),
            final(self).known() == after_step(
                old(self).known(),
                TerminalStep::Started(session_id@),
            ),
    {
        self.set_starting(session_id.as_str(), Some(false));
        let shell = choose_shell(params.shell, users_shell);
        let mut env = params.env;
        let ghost e0 = env@;
        env.push(("COLUMNS".to_owned(), number_text(params.cols as u64)));
        let ghost e1 = env@;
        env.push(("LINES".to_owned(), number_text(params.rows as u64)));
        let ghost e2 = env@;
        env.push(("TERM".to_owned(), "xterm-256color".to_owned()));
        proof {
            reveal_with_fuel(wire::pairs, 4);
            assert(e1.drop_last() =~= e0);
            assert(e2.drop_last() =~= e1);
            assert(env@.drop_last() =~= e2);
        }
        Spawn { session_id, shell, cwd: params.cwd, env, cols: params.cols, rows: params.rows }
    }

    /// How to open a new terminal session, under a new name.
    pub fn open(&mut self, params: TerminalOpenParams, users_shell: Option<String>) -> (r: Spawn)
        ensures
            ident::is_uuid(r@.session_id),
            r@ == spawn_for(r@.session_id, params@, text::optional(users_shell)),
            final(self).known() == after_step(
                old(self).known(),
                TerminalStep::Started(r@.session_id),
            ),
    {
        self.open_as(fresh_id(), params, users_shell)
    }

    /// Notes whether a session is being started.
    fn set_starting(&mut self, session_id: &str, ended: Option<bool>)
        ensures
            final(self)@ == old(self)@,
            final(self).starting() == (match ended {
                Some(b) => old(self).starting().insert(session_id@, b),
                None => old(self).starting().remove(session_id@),
            }),
    {
        proof {
            use_type_invariant(&*self);
        }
        let mut starting: Table<bool> = Table::new();
        std::mem::swap(&mut starting, &mut self.starting);
        match ended {
            Some(b) => starting.insert(session_id, b),
            None => starting.remove(session_id),
        }
        self.starting = starting;
    }

    /// Takes a session in, where its program runs, unless its end has been told
    /// already. A session that had its name gives way.
    pub fn opened(&mut self, spawn: Spawn, outcome: SpawnOutcome) -> (r: Result<
        TerminalSession,
        String,
    >)
        ensures
            (match r {
                Ok(s) => Ok(s@),
                Err(e) => Err(e@),
            }) == session_for(spawn@, outcome),
            final(self).known() == after_step(
                old(self).known(),
                match r {
                    Ok(s) => TerminalStep::Opened(s@),
                    Err(_) => TerminalStep::Refused(spawn@.session_id),
                },
            ),
    {
        let ended = match self.starting.get(spawn.session_id.as_str()) {
            Some(ended) => ended,
            None => false,
        };
        self.set_starting(spawn.session_id.as_str(), None);
        let pid: u32 = match outcome {
            SpawnOutcome::Failed(reason) => {
                return Err(joined("spawn failed: ", reason.as_str()));
            },
            SpawnOutcome::NoStdin => {
                return Err("no stdin".to_owned());
            },
            SpawnOutcome::NoStdout => {
                return Err("no stdout".to_owned());
            },
            SpawnOutcome::NoStderr => {
                return Err("no stderr".to_owned());
            },
            SpawnOutcome::Running(pid) => match pid {
                Some(pid) => pid,
                None => 0,
            },
        };
        let session = TerminalSession {
            session_id: spawn.session_id,
            shell: spawn.shell,
            pid,
            cols: spawn.cols,
            rows: spawn.rows,
        };
        let told = session.copy();
        if !ended {
            self.insert(session);
        }
        Ok(told)
    }

    fn insert(&mut self, session: TerminalSession)
        ensures
            final(self)@ == old(self)@.insert(session@.session_id, session@),
            final(self).starting() == old(self).starting(),
    {
        proof {
            use_type_invariant(&*self);
        }
        let found = self.find(session.session_id.as_str());
        let ghost before = self.sessions@;
        let mut list: Vec<TerminalSession> = Vec::new();
        std::mem::swap(&mut list, &mut self.sessions);
        assert(list@ == before);
        match found {
            Some(i) => {
                list.remove(i);
            },
            None => {},
        }
        let ghost kept = list@;
        proof {
            assert forall|k: int| 0 <= k < kept.len() implies (#[trigger] kept[k]).session_id@
                != session.session_id@ by {
                match found {
                    Some(i) => {
                        let at = if k < i {
                            k
                        } else {
                            k + 1
                        };
                        assert(kept[k] == before[at]);
                        assert(before[at].session_id@ != before[i as int].session_id@);
                    },
                    None => {
                        assert(is_at(before, before[k].session_id@, k));
                    },
                }
            }
            assert(distinct(kept)) by {
                match found {
                    Some(i) => {
                        assert forall|a: int, b: int| 0 <= a < b < kept.len() implies (
                        #[trigger] kept[a]).session_id@ != (#[trigger] kept[b]).session_id@ by {
                            let x = if a < i {
                                a
                            } else {
                                a + 1
                            };
                            let y = if b < i {
                                b
                            } else {
                                b + 1
                            };
                            assert(kept[a] == before[x] && kept[b] == before[y]);
                        }
                    },
                    None => {},
                }
            }
        }
        list.push(session);
        let ghost after = list@;
        assert(distinct(after));
        proof {
            table_holds(before);
            table_holds(after);
            let wanted = table(before).insert(session@.session_id, session@);
            assert forall|id: Seq<char>| table(after).contains_key(id) == #[trigger]
                wanted.contains_key(id) && (wanted.contains_key(id) ==> table(after)[id]
                == wanted[id]) by {
                assert(after[after.len() - 1] == session);
                if id != session.session_id@ {
                    if table(before).contains_key(id) {
                        let i = place(before, id);
                        assert(is_at(before, id, i));
                        let at = match found {
                            Some(f) => if i < f {
                                i
                            } else {
                                i - 1
                            },
                            None => i,
                        };
                        assert(after[at] == before[i]);
                        assert(is_at(after, id, at));
                    }
                    if table(after).contains_key(id) {
                        let i = place(after, id);
                        assert(is_at(after, id, i));
                        let at = match found {
                            Some(f) => if i < f {
                                i
                            } else {
                                i + 1
                            },
                            None => i,
                        };
                        assert(before[at] == after[i]);
                        assert(is_at(before, id, at));
                    }
                }
            }
            assert(table(after) =~= wanted);
        }
        self.sessions = list;
    }

    /// Takes a session out; where there is none with that name, nothing changes.
    fn take_out(&mut self, session_id: &str) -> (r: bool)
        ensures
            r == old(self)@.contains_key(session_id@),
            final(self)@ == without_session(old(self)@, session_id@),
            final(self).starting() == old(self).starting(),
    {
        proof {
            use_type_invariant(&*self);
        }
        match self.find(session_id) {
            Some(f) => {
                let ghost before = self.sessions@;
                let mut list: Vec<TerminalSession> = Vec::new();
                std::mem::swap(&mut list, &mut self.sessions);
                assert(list@ == before);
                list.remove(f);
                let ghost after = list@;
                proof {
                    assert forall|a: int, b: int| 0 <= a < b < after.len() implies (
                    #[trigger] after[a]).session_id@ != (#[trigger] after[b]).session_id@ by {
                        let x = if a < f {
                            a
                        } else {
                            a + 1
                        };
                        let y = if b < f {
                            b
                        } else {
                            b + 1
                        };
                        assert(after[a] == before[x] && after[b] == before[y]);
                    }
                    table_holds(before);
                    table_holds(after);
                    let wanted = table(before).remove(session_id@);
                    assert forall|id: Seq<char>| table(after).contains_key(id) == #[trigger]
                        wanted.contains_key(id) && (wanted.contains_key(id) ==> table(after)[id]
                        == wanted[id]) by {
                        if wanted.contains_key(id) {
                            let i = place(before, id);
                            assert(is_at(before, id, i));
                            let at = if i < f {
                                i
                            } else {
                                i - 1
                            };
                            assert(after[at] == before[i]);
                            assert(is_at(after, id, at));
                        }
                        if table(after).contains_key(id) {
                            let i = place(after, id);
                            assert(is_at(after, id, i));
                            let at = if i < f {
                                i
                            } else {
                                i + 1
                            };
                            assert(before[at] == after[i]);
                            assert(is_at(before, id, at));
                            assert(before[at].session_id@ != before[f as int].session_id@);
                        }
                    }
                    assert(table(after) =~= wanted);
                }
                self.sessions = list;
                true
            },
            None => {
                assert(self@.remove(session_id@) =~= self@);
                false
            },
        }
    }

    /// Send input to a terminal session: the bytes to write to its program,
    /// where there is such a session.
    pub fn input(&self, session_id: &str, data: &[u8]) -> (r: Result<Vec<u8>, String>)
        ensures
            (match r {
                Ok(_) => Ok(()),
                Err(e) => Err(e@),
            }) == answer(self@, session_id@),
            r matches Ok(bytes) ==> bytes@ == data@,
    {
        match self.find(session_id) {
            Some(_) => Ok(vstd::slice::slice_to_vec(data)),
            None => Err(joined("session not found: ", session_id)),
        }
    }

    /// Close a terminal session.
    pub fn close(&mut self, session_id: &str) -> (r: Result<(), String>)
        ensures
            told(r) == answer(old(self)@, session_id@),
            final(self).known() == after_step(
                old(self).known(),
                TerminalStep::Closed(session_id@),
            ),
    {
        if self.take_out(session_id) {
            Ok(())
        } else {
            Err(joined("session not found: ", session_id))
        }
    }

    /// Forgets a session whose program has ended; where it is still being
    /// started, it will not be listed.
    pub fn exited(&mut self, session_id: &str)
        ensures
            final(self).known() == after_step(
                old(self).known(),
                TerminalStep::Ended(session_id@),
            ),
    {
        let _ = self.take_out(session_id);
        if self.starting.get(session_id).is_some() {
            self.set_starting(session_id, Some(true));
        }
    }

    /// List active terminal sessions, each once.
    pub fn list(&self) -> (r: Vec<TerminalSession>)
        ensures
            distinct(r@),
            table(r@) == self@,
    {
        proof {
            use_type_invariant(self);
        }
        let mut out: Vec<TerminalSession> = Vec::new();
        for i in 0..self.sessions.len()
            invariant
                out@.len() == i,
                forall|k: int| 0 <= k < i ==> (#[trigger] out@[k])@ == self.sessions@[k]@,
        {
            out.push(self.sessions[i].copy());
        }
        proof {
            let list = self.sessions@;
            assert forall|a: int, b: int| 0 <= a < b < out@.len() implies (
            #[trigger] out@[a]).session_id@ != (#[trigger] out@[b]).session_id@ by {
                assert(out@[a]@ == list[a]@ && out@[b]@ == list[b]@);
            }
            table_holds(list);
            table_holds(out@);
            assert forall|id: Seq<char>| table(out@).contains_key(id) == #[trigger] table(
                list,
            ).contains_key(id) && (table(list).contains_key(id) ==> table(out@)[id] == table(
                list,
            )[id]) by {
                if table(list).contains_key(id) {
                    let i = place(list, id);
                    assert(is_at(list, id, i));
                    assert(out@[i]@ == list[i]@);
                    assert(is_at(out@, id, i));
                }
                if table(out@).contains_key(id) {
                    let i = place(out@, id);
                    assert(is_at(out@, id, i));
                    assert(out@[i]@ == list[i]@);
                    assert(is_at(list, id, i));
                }
            }
            assert(table(out@) =~= table(list));
        }
        out
    }

    /// Resize a terminal session. The program itself would see a new size only
    /// through a PTY.
    pub fn resize(&mut self, session_id: &str, cols: u16, rows: u16) -> (r: Result<(), String>)
        ensures
            told(r) == answer(old(self)@, session_id@),
            final(self).known() == after_step(
                old(self).known(),
                TerminalStep::Resized(session_id@, cols, rows),
            ),
    {
        match self.find(session_id) {
            Some(i) => {
                proof {
                    use_type_invariant(&*self);
                    table_holds(self.sessions@);
                }
                let mut session = self.sessions[i].copy();
                session.cols = cols;
                session.rows = rows;
                self.insert(session);
                Ok(())
            },
            None => Err(joined("session not found: ", session_id)),
        }
    }
}

/// The event for what the program of a session has written.
pub fn output_event(session_id: &str, bytes: &[u8]) -> (r: TerminalEvent)
    ensures
        r@ == TerminalEventView::Output(session_id@, text::lossy(bytes@)),
{
    TerminalEvent::Output { session_id: session_id.to_owned(), data: utf8_lossy(bytes) }
}

/// The event for the end of the program of a session.
pub fn exit_event(session_id: &str, exit_code: Option<i32>) -> (r: TerminalEvent)
    ensures
        r@ == TerminalEventView::Exit(session_id@, exit_code),
{
    TerminalEvent::Exit { session_id: session_id.to_owned(), exit_code }
}

/// What requests, sessions and events say is what their fields hold.
pub proof fn records_say_their_fields(
    p: TerminalOpenParams,
    t: TerminalSession,
    s: Spawn,
    e: TerminalEvent,
)
    ensures
        p@.shell == text::optional(p.shell) && p@.cwd == text::optional(p.cwd) && p@.env
            == wire::pairs(p.env@) && p@.cols == p.cols && p@.rows == p.rows,
        t@.session_id == t.session_id@ && t@.shell == t.shell@ && t@.pid == t.pid && t@.cols
            == t.cols && t@.rows == t.rows,
        s@.session_id == s.session_id@ && s@.shell == s.shell@ && s@.cwd == text::optional(s.cwd)
            && s@.env == wire::pairs(s.env@) && s@.cols == s.cols && s@.rows == s.rows,
        e matches TerminalEvent::Output { session_id, data } ==> e@ == TerminalEventView::Output(
            session_id@,
            data@,
        ),
        e matches TerminalEvent::Exit { session_id, exit_code } ==> e@ == TerminalEventView::Exit(
            session_id@,
            exit_code,
        ),
        told(Ok(())) is Ok,
{
}

/// A session is started with the shell that was asked for, whatever the user's
/// is; only where none was asked for is it the user's, and `/bin/sh` where
/// there is neither.
pub proof fn shell_asked_for_is_started(
    id: Seq<char>,
    p: OpenView,
    users_shell: Option<Seq<char>>,
    other: Option<Seq<char>>,
)
    ensures
        p.shell matches Some(s) ==> spawn_for(id, p, users_shell).shell == s && spawn_for(
            id,
            p,
            other,
        ).shell == s,
        p.shell is None && users_shell is Some ==> spawn_for(id, p, users_shell).shell
            == users_shell->0,
        p.shell is None && users_shell is None ==> spawn_for(id, p, users_shell).shell
            == "/bin/sh"@,
{
}

/// The program that is started for a request is the shell that the request
/// names, in the directory that it names.
pub proof fn request_is_carried_out(
    r: Spawn,
    id: Seq<char>,
    params: TerminalOpenParams,
    users_shell: Option<String>,
)
    requires
        r@ == spawn_for(id, params@, text::optional(users_shell)),
    ensures
        r.session_id@ == id,
        params.shell is Some ==> r.shell@ == params.shell->0@,
        params.shell is None && users_shell is Some ==> r.shell@ == users_shell->0@,
        params.shell is None && users_shell is None ==> r.shell@ == "/bin/sh"@,
        (r.cwd is Some) == (params.cwd is Some),
        params.cwd is Some ==> r.cwd->0@ == params.cwd->0@,
        r.cols == params.cols,
        r.rows == params.rows,
{
}

/// A program started for a session runs in the environment that was asked for,
/// but for the three variables that describe the terminal.
pub proof fn environment_is_the_one_asked_for(
    id: Seq<char>,
    p: OpenView,
    users_shell: Option<Seq<char>>,
    name: Seq<char>,
)
    ensures
        ({
            let s = spawn_for(id, p, users_shell);
            &&& s.session_id == id
            &&& s.cwd == p.cwd
            &&& s.cols == p.cols
            &&& s.rows == p.rows
            &&& s.env.contains_key("COLUMNS"@) && s.env["COLUMNS"@] == text::decimal(p.cols as nat)
            &&& s.env.contains_key("LINES"@) && s.env["LINES"@] == text::decimal(p.rows as nat)
            &&& s.env.contains_key("TERM"@) && s.env["TERM"@] == "xterm-256color"@
            &&& name != "COLUMNS"@ && name != "LINES"@ && name != "TERM"@ ==> (
            s.env.contains_key(name) <==> p.env.contains_key(name))
            &&& name != "COLUMNS"@ && name != "LINES"@ && name != "TERM"@ && p.env.contains_key(
                name,
            ) ==> s.env[name] == p.env[name]
        }),
{
    reveal_strlit("COLUMNS");
    reveal_strlit("LINES");
    reveal_strlit("TERM");
    assert("COLUMNS"@.len() == 7 && "LINES"@.len() == 5 && "TERM"@.len() == 4);
}

/// A session opens if and only if its program runs with all its pipes; it has
/// the name, the shell and the size that it was started with, and the process
/// ID of the program. Whatever prevents that is told.
pub proof fn sessions_open_when_programs_run(s: SpawnView, o: SpawnOutcome)
    ensures
        session_for(s, o) is Ok <==> o is Running,
        session_for(s, o) matches Ok(t) ==> {
            &&& t.session_id == s.session_id
            &&& t.shell == s.shell
            &&& t.cols == s.cols
            &&& t.rows == s.rows
            &&& o matches SpawnOutcome::Running(Some(n)) ==> t.pid == n
            &&& o matches SpawnOutcome::Running(None) ==> t.pid == 0
        },
        o matches SpawnOutcome::Failed(reason) ==> session_for(s, o) == Err::<
            SessionView,
            Seq<char>,
        >("spawn failed: "@ + reason@),
        o is NoStdin ==> session_for(s, o) == Err::<SessionView, Seq<char>>("no stdin"@),
        o is NoStdout ==> session_for(s, o) == Err::<SessionView, Seq<char>>("no stdout"@),
        o is NoStderr ==> session_for(s, o) == Err::<SessionView, Seq<char>>("no stderr"@),
{
}

/// From the request to the list: a session whose program runs is the one that
/// was asked for.
pub proof fn opened_session_is_the_one_asked_for(
    id: Seq<char>,
    p: OpenView,
    users_shell: Option<Seq<char>>,
    pid: u32,
    t: Terminals,
)
    requires
        !t.starting.contains_key(id),
    ensures
        ({
            let started = after_step(t, TerminalStep::Started(id));
            let made = session_for(
                spawn_for(id, p, users_shell),
                SpawnOutcome::Running(Some(pid)),
            );
            &&& made matches Ok(s)
            &&& p.shell is Some ==> s.shell == p.shell->0
            &&& s.session_id == id && s.pid == pid && s.cols == p.cols && s.rows == p.rows
            &&& after_step(started, TerminalStep::Opened(s)).sessions.contains_key(id)
            &&& after_step(started, TerminalStep::Opened(s)).sessions[id] == s
        }),
{
}

/// A caller is refused if and only if there is no such session, and is told so.
pub proof fn callers_are_told(sessions: Map<Seq<char>, SessionView>, id: Seq<char>)
    ensures
        answer(sessions, id) is Ok <==> sessions.contains_key(id),
        !sessions.contains_key(id) ==> answer(sessions, id) == Err::<(), Seq<char>>(
            "session not found: "@ + id,
        ),
{
}

/// What each step does to a session, and that it does nothing to another.
pub proof fn steps_change_one_session(t: Terminals, id: Seq<char>, other: Seq<char>, s: SessionView,
    cols: u16,
    rows: u16,
)
    requires
        other != id,
        s.session_id == id,
    ensures
        after_step(t, TerminalStep::Started(id)).sessions == t.sessions,
        after_step(t, TerminalStep::Refused(id)).sessions == t.sessions,
        after_step(t, TerminalStep::Started(id)).starting.contains_key(id),
        !after_step(t, TerminalStep::Started(id)).starting[id],
        !after_step(t, TerminalStep::Refused(id)).starting.contains_key(id),
        !after_step(t, TerminalStep::Opened(s)).starting.contains_key(id),
        t.starting.contains_key(id) ==> after_step(t, TerminalStep::Ended(id)).starting[id],
        !(t.starting.contains_key(id) && t.starting[id]) ==> after_step(
            t,
            TerminalStep::Opened(s),
        ).sessions.contains_key(id) && after_step(t, TerminalStep::Opened(s)).sessions[id] == s,
        t.starting.contains_key(id) && t.starting[id] ==> after_step(
            t,
            TerminalStep::Opened(s),
        ).sessions == t.sessions,
        !after_step(t, TerminalStep::Closed(id)).sessions.contains_key(id),
        !after_step(t, TerminalStep::Ended(id)).sessions.contains_key(id),
        after_step(t, TerminalStep::Resized(id, cols, rows)).sessions.contains_key(id)
            <==> t.sessions.contains_key(id),
        t.sessions.contains_key(id) ==> ({
            let now = after_step(t, TerminalStep::Resized(id, cols, rows)).sessions[id];
            now.cols == cols && now.rows == rows && now.session_id == t.sessions[id].session_id
                && now.shell == t.sessions[id].shell && now.pid == t.sessions[id].pid
        }),
        forall|step: TerminalStep|
            step == TerminalStep::Started(id) || step == TerminalStep::Opened(s) || step
                == TerminalStep::Refused(id) || step == TerminalStep::Closed(id) || step
                == TerminalStep::Ended(id) || step == TerminalStep::Resized(id, cols, rows) ==> {
                &&& (#[trigger] after_step(t, step)).sessions.contains_key(other)
                    <==> t.sessions.contains_key(other)
                &&& t.sessions.contains_key(other) ==> after_step(t, step).sessions[other]
                    == t.sessions[other]
                &&& after_step(t, step).starting.contains_key(other) <==> t.starting.contains_key(
                    other,
                )
                &&& t.starting.contains_key(other) ==> after_step(t, step).starting[other]
                    == t.starting[other]
            },
{
}

/// The document of a session request has each of its fields under its name,
/// null where it is not given.
pub proof fn requests_are_written(p: OpenView)
    ensures
        json::json_get(open_json(p), "shell"@) == Some(
            match p.shell {
                Some(s) => Json::Str(s),
                None => Json::Null,
            },
        ),
        json::json_get(open_json(p), "cwd"@) == Some(
            match p.cwd {
                Some(s) => Json::Str(s),
                None => Json::Null,
            },
        ),
        json::json_get(open_json(p), "cols"@) == Some(Json::Int(p.cols as int)),
        json::json_get(open_json(p), "rows"@) == Some(Json::Int(p.rows as int)),
        json::json_get(open_json(p), "env"@) matches Some(Json::Object(m)) && (forall|
            k: Seq<char>,
        | #[trigger]
            m.contains_key(k) <==> p.env.contains_key(k)) && (forall|k: Seq<char>|
            p.env.contains_key(k) ==> #[trigger] m[k] == Json::Str(p.env[k])),
{
    names();
}

/// A session request is read from what a document has under the names of its
/// fields; a size that is left out is the usual one.
pub proof fn requests_for_sessions_are_read(j: Json, p: OpenView)
    requires
        open_of(j) == Some(p),
    ensures
        wire::is_record(j, 5),
        match p.shell {
            Some(s) => wire::field(j, 0, "shell"@) == Some(Json::Str(s)),
            None => wire::field(j, 0, "shell"@) is None || wire::field(j, 0, "shell"@) == Some(
                Json::Null,
            ),
        },
        match p.cwd {
            Some(s) => wire::field(j, 1, "cwd"@) == Some(Json::Str(s)),
            None => wire::field(j, 1, "cwd"@) is None || wire::field(j, 1, "cwd"@) == Some(
                Json::Null,
            ),
        },
        match wire::field(j, 2, "env"@) {
            Some(e) => wire::pairs_of(e) == Some(p.env),
            None => p.env == Map::<Seq<char>, Seq<char>>::empty(),
        },
        match wire::field(j, 3, "cols"@) {
            Some(n) => n == Json::Int(p.cols as int),
            None => p.cols == 80,
        },
        match wire::field(j, 4, "rows"@) {
            Some(n) => n == Json::Int(p.rows as int),
            None => p.rows == 24,
        },
{
}

/// A document without a field that cannot be read holds a session request, so
/// an empty one does.
pub proof fn session_requests_may_be_brief(j: Json)
    requires
        j is Object,
        wire::field(j, 0, "shell"@) is None || wire::field(j, 0, "shell"@)->0 is Str
            || wire::field(j, 0, "shell"@)->0 is Null,
        wire::field(j, 1, "cwd"@) is None || wire::field(j, 1, "cwd"@)->0 is Str || wire::field(
            j,
            1,
            "cwd"@,
        )->0 is Null,
        wire::field(j, 2, "env"@) is None || wire::pairs_of(wire::field(j, 2, "env"@)->0) is Some,
        wire::field(j, 3, "cols"@) is None || (wire::field(j, 3, "cols"@)->0 matches Json::Int(n)
            && 0 <= n <= 65535),
        wire::field(j, 4, "rows"@) is None || (wire::field(j, 4, "rows"@)->0 matches Json::Int(n)
            && 0 <= n <= 65535),
    ensures
        open_of(j) is Some,
{
}

/// The document of a session has each of its fields under its name, and nothing
/// else.
pub proof fn sessions_are_written(s: SessionView)
    ensures
        session_json(s) is Object,
        forall|name: Seq<char>| #[trigger]
            json::json_get(session_json(s), name) == if name == "session_id"@ {
                Some(Json::Str(s.session_id))
            } else if name == "shell"@ {
                Some(Json::Str(s.shell))
            } else if name == "pid"@ {
                Some(Json::Int(s.pid as int))
            } else if name == "cols"@ {
                Some(Json::Int(s.cols as int))
            } else if name == "rows"@ {
                Some(Json::Int(s.rows as int))
            } else {
                None
            },
{
    names();
}

/// A document holds a session if and only if it has all of its fields.
pub proof fn sessions_are_read(j: Json, s: SessionView)
    ensures
        session_of(j) == Some(s) <==> {
            &&& wire::is_record(j, 5)
            &&& wire::field(j, 0, "session_id"@) == Some(Json::Str(s.session_id))
            &&& wire::field(j, 1, "shell"@) == Some(Json::Str(s.shell))
            &&& wire::field(j, 2, "pid"@) == Some(Json::Int(s.pid as int))
            &&& wire::field(j, 3, "cols"@) == Some(Json::Int(s.cols as int))
            &&& wire::field(j, 4, "rows"@) == Some(Json::Int(s.rows as int))
        },
{
}

/// The documents of output and of the end of a session name the session and
/// what was written, or the code, null where there is none.
pub proof fn events_are_written(session_id: Seq<char>, data: Seq<char>, exit_code: Option<i32>)
    ensures
        forall|name: Seq<char>| #[trigger]
            json::json_get(output_json(session_id, data), name) == if name == "session_id"@ {
                Some(Json::Str(session_id))
            } else if name == "data"@ {
                Some(Json::Str(data))
            } else {
                None
            },
        forall|name: Seq<char>| #[trigger]
            json::json_get(exit_json(session_id, exit_code), name) == if name == "session_id"@ {
                Some(Json::Str(session_id))
            } else if name == "exit_code"@ {
                Some(
                    match exit_code {
                        Some(n) => Json::Int(n as int),
                        None => Json::Null,
                    },
                )
            } else {
                None
            },
{
    names();
}

/// Documents hold output, or the end of a session, if and only if they name the
/// session and what was written, or an exit code where they give one.
pub proof fn session_events_are_read(
    j: Json,
    session_id: Seq<char>,
    data: Seq<char>,
    exit_code: Option<i32>,
)
    ensures
        output_of(j) == Some((session_id, data)) <==> {
            &&& wire::is_record(j, 2)
            &&& wire::field(j, 0, "session_id"@) == Some(Json::Str(session_id))
            &&& wire::field(j, 1, "data"@) == Some(Json::Str(data))
        },
        exit_of(j) == Some((session_id, exit_code)) <==> {
            &&& wire::is_record(j, 2)
            &&& wire::field(j, 0, "session_id"@) == Some(Json::Str(session_id))
            &&& match exit_code {
                Some(n) => wire::field(j, 1, "exit_code"@) == Some(Json::Int(n as int)),
                None => wire::field(j, 1, "exit_code"@) == Some(Json::Null) || (wire::field(
                    j,
                    1,
                    "exit_code"@,
                ) is None && j is Object),
            }
        },
{
}

/// Texts hold what their documents hold, unless they give a field twice.
pub proof fn records_of_sessions_are_given_once(j: Json, list: Seq<Listed>)
    ensures
        open_in(None, list) is None && session_in(None, list) is None && output_in(None, list)
            is None && exit_in(None, list) is None,
        open_in(Some(j), list) == if members::repeats(list, "shell"@) || members::repeats(
            list,
            "cwd"@,
        ) || members::repeats(list, "env"@) || members::repeats(list, "cols"@)
            || members::repeats(list, "rows"@) {
            None
        } else {
            open_of(j)
        },
        session_in(Some(j), list) == if members::repeats(list, "session_id"@)
            || members::repeats(list, "shell"@) || members::repeats(list, "pid"@)
            || members::repeats(list, "cols"@) || members::repeats(list, "rows"@) {
            None
        } else {
            session_of(j)
        },
        output_in(Some(j), list) == if members::repeats(list, "session_id"@)
            || members::repeats(list, "data"@) {
            None
        } else {
            output_of(j)
        },
        exit_in(Some(j), list) == if members::repeats(list, "session_id"@) || members::repeats(
            list,
            "exit_code"@,
        ) {
            None
        } else {
            exit_of(j)
        },
{
}

/// Opening a session starts the shell that was asked for, and the user's only
/// where none was; it runs in the directory and the environment that were asked
/// for, in a terminal of the given size. It is listed once it runs, not before.
pub proof fn opening_starts_what_was_asked_for(
    m: &mut TerminalManager,
    session_id: String,
    params: TerminalOpenParams,
    users_shell: Option<String>,
    r: Spawn,
    name: Seq<char>,
)
    requires
        call_ensures(TerminalManager::open_as, (m, session_id, params, users_shell), r),
    ensures
        r.session_id@ == session_id@,
        params.shell matches Some(s) ==> r.shell@ == s@,
        params.shell is None ==> (users_shell matches Some(s) ==> r.shell@ == s@),
        params.shell is None && users_shell is None ==> r.shell@ == "/bin/sh"@,
        r.cwd is Some <==> params.cwd is Some,
        r.cwd matches Some(d) ==> d@ == params.cwd->0@,
        r.cols == params.cols && r.rows == params.rows,
        ({
            let env = wire::pairs(r.env@);
            let asked = wire::pairs(params.env@);
            &&& env.contains_key("COLUMNS"@) && env["COLUMNS"@] == text::decimal(params.cols as nat)
            &&& env.contains_key("LINES"@) && env["LINES"@] == text::decimal(params.rows as nat)
            &&& env.contains_key("TERM"@) && env["TERM"@] == "xterm-256color"@
            &&& name != "COLUMNS"@ && name != "LINES"@ && name != "TERM"@ ==> (env.contains_key(
                name,
            ) <==> asked.contains_key(name)) && (asked.contains_key(name) ==> env[name]
                == asked[name])
        }),
        final(m)@ == old(m)@,
        final(m).starting() == old(m).starting().insert(session_id@, false),
{
    environment_is_the_one_asked_for(
        session_id@,
        params@,
        text::optional(users_shell),
        name,
    );
    request_is_carried_out(r, session_id@, params, users_shell);
}

/// Opening a session under a new name starts what opening it under that name
/// starts.
pub proof fn opening_takes_a_new_name(
    m: &mut TerminalManager,
    params: TerminalOpenParams,
    users_shell: Option<String>,
    r: Spawn,
    n: &mut TerminalManager,
    id: String,
    s: Spawn,
)
    requires
        call_ensures(TerminalManager::open, (m, params, users_shell), r),
        id@ == r.session_id@,
        call_ensures(TerminalManager::open_as, (n, id, params, users_shell), s),
        *old(m) == *old(n),
    ensures
        ident::is_uuid(r.session_id@),
        r@ == s@,
        final(m).known() == final(n).known(),
{
}

/// A session whose program runs is the one that was started: it has its name,
/// its shell and its size, and it is listed unless its end is known already. A
/// program that does not run makes no session, and the reason is told.
pub proof fn opened_sessions_are_listed(
    m: &mut TerminalManager,
    spawn: Spawn,
    outcome: SpawnOutcome,
    r: Result<TerminalSession, String>,
)
    requires
        call_ensures(TerminalManager::opened, (m, spawn, outcome), r),
    ensures
        r is Ok <==> outcome is Running,
        r matches Ok(s) ==> {
            &&& s.session_id@ == spawn.session_id@
            &&& s.shell@ == spawn.shell@
            &&& s.cols == spawn.cols && s.rows == spawn.rows
            &&& outcome matches SpawnOutcome::Running(pid) && s.pid == (match pid {
                Some(n) => n,
                None => 0,
            })
            &&& old(m).starting().contains_key(spawn.session_id@)
                && old(m).starting()[spawn.session_id@] ==> final(m)@ == old(m)@
            &&& !(old(m).starting().contains_key(spawn.session_id@)
                && old(m).starting()[spawn.session_id@]) ==> final(m)@ == old(m)@.insert(
                spawn.session_id@,
                s@,
            )
        },
        r matches Err(why) ==> final(m)@ == old(m)@ && why@ == (match outcome {
            SpawnOutcome::Failed(reason) => "spawn failed: "@ + reason@,
            SpawnOutcome::NoStdin => "no stdin"@,
            SpawnOutcome::NoStdout => "no stdout"@,
            _ => "no stderr"@,
        }),
        final(m).starting() == old(m).starting().remove(spawn.session_id@),
{
    sessions_open_when_programs_run(spawn@, outcome);
}

/// What is sent to a session that there is reaches its program as it is; there
/// is no such session if and only if that is told.
pub proof fn input_is_passed_on(
    m: &TerminalManager,
    session_id: &str,
    data: &[u8],
    r: Result<Vec<u8>, String>,
)
    requires
        call_ensures(TerminalManager::input, (m, session_id, data), r),
    ensures
        r is Ok <==> m@.contains_key(session_id@),
        r matches Ok(bytes) ==> bytes@ == data@,
        r matches Err(why) ==> why@ == "session not found: "@ + session_id@,
{
}

/// A session that is closed, or whose program has ended, is no longer listed,
/// and nothing else changes; closing one that there is not is told.
pub proof fn sessions_are_closed(
    m: &mut TerminalManager,
    session_id: &str,
    r: Result<(), String>,
    n: &mut TerminalManager,
)
    requires
        call_ensures(TerminalManager::close, (m, session_id), r),
        call_ensures(TerminalManager::exited, (n, session_id), ()),
    ensures
        r is Ok <==> old(m)@.contains_key(session_id@),
        r matches Err(why) ==> why@ == "session not found: "@ + session_id@,
        final(m)@ == old(m)@.remove(session_id@),
        final(m).starting() == old(m).starting(),
        final(n)@ == old(n)@.remove(session_id@),
        final(n).starting() == (if old(n).starting().contains_key(session_id@) {
            old(n).starting().insert(session_id@, true)
        } else {
            old(n).starting()
        }),
{
}

/// A session that is resized has the given size, columns first, and is
/// otherwise as it was, and so are all others.
pub proof fn sessions_are_resized(
    m: &mut TerminalManager,
    session_id: &str,
    cols: u16,
    rows: u16,
    r: Result<(), String>,
    other: Seq<char>,
)
    requires
        call_ensures(TerminalManager::resize, (m, session_id, cols, rows), r),
    ensures
        r is Ok <==> old(m)@.contains_key(session_id@),
        r matches Err(why) ==> why@ == "session not found: "@ + session_id@,
        final(m)@.dom() == old(m)@.dom(),
        old(m)@.contains_key(session_id@) ==> {
            let now = final(m)@[session_id@];
            let before = old(m)@[session_id@];
            &&& now.cols == cols && now.rows == rows
            &&& now.session_id == before.session_id && now.shell == before.shell && now.pid
                == before.pid
        },
        other != session_id@ && old(m)@.contains_key(other) ==> final(m)@[other] == old(m)@[other],
        final(m).starting() == old(m).starting(),
{
    assert(final(m)@.dom() =~= old(m)@.dom());
}

/// The list of sessions has each session once, and no others.
pub proof fn lists_have_each_session(m: &TerminalManager, r: Vec<TerminalSession>, id: Seq<char>)
    requires
        call_ensures(TerminalManager::list, (m,), r),
    ensures
        forall|i: int, j: int|
            0 <= i < j < r@.len() ==> (#[trigger] r@[i]).session_id@ != (
            #[trigger] r@[j]).session_id@,
        forall|i: int|
            0 <= i < r@.len() ==> m@.contains_key((#[trigger] r@[i]).session_id@)
                && m@[r@[i].session_id@] == r@[i]@,
        m@.contains_key(id) ==> exists|i: int|
            0 <= i < r@.len() && (#[trigger] r@[i])@ == m@[id] && r@[i].session_id@ == id,
{
    table_holds(r@);
    if m@.contains_key(id) {
        assert(table(r@)[id].session_id == id);
        let i = choose|i: int| 0 <= i < r@.len() && (#[trigger] r@[i])@ == table(r@)[id];
        assert(r@[i]@ == m@[id] && r@[i].session_id@ == id);
    }
}

/// A new manager has no sessions.
pub proof fn managers_begin_empty(r: TerminalManager, id: Seq<char>)
    requires
        call_ensures(TerminalManager::new, (), r),
    ensures
        !r@.contains_key(id),
        !r.starting().contains_key(id),
{
}

/// What a session writes, and the code that it ends with, are told under its
/// name.
pub proof fn events_tell_what_happened(
    session_id: &str,
    bytes: &[u8],
    o: TerminalEvent,
    exit_code: Option<i32>,
    e: TerminalEvent,
)
    requires
        call_ensures(output_event, (session_id, bytes), o),
        call_ensures(exit_event, (session_id, exit_code), e),
    ensures
        o matches TerminalEvent::Output { session_id: id, data } && id@ == session_id@ && data@
            == text::lossy(bytes@),
        e matches TerminalEvent::Exit { session_id: id, exit_code: code } && id@ == session_id@
            && code == exit_code,
{
}

/// The shell that is asked for wins over the user's, and that over `/bin/sh`; a
/// terminal has eighty columns and twenty-four rows unless another size is
/// asked for; input that is not taken is told.
pub proof fn usual_terminal(
    asked: Option<String>,
    users: Option<String>,
    shell: String,
    cols: u16,
    rows: u16,
    taken: bool,
    o: Result<(), String>,
)
    requires
        call_ensures(choose_shell, (asked, users), shell),
        call_ensures(default_cols, (), cols),
        call_ensures(default_rows, (), rows),
        call_ensures(written, (taken,), o),
    ensures
        asked matches Some(s) ==> shell@ == s@,
        asked is None ==> (users matches Some(s) ==> shell@ == s@),
        asked is None && users is None ==> shell@ == "/bin/sh"@,
        cols == 80 && rows == 24,
        o is Ok <==> taken,
        o matches Err(why) ==> why@ == "stdin closed"@,
{
}

/// What a session request, a session and its events are written as holds each
/// of their fields under its name.
pub proof fn records_are_written_by_name(
    p: &TerminalOpenParams,
    pv: JsonValue,
    t: &TerminalSession,
    tv: JsonValue,
    o: &TerminalOutputData,
    ov: JsonValue,
    e: &TerminalExitData,
    ev: JsonValue,
)
    requires
        call_ensures(TerminalOpenParams::to_value, (p,), pv),
        call_ensures(TerminalSession::to_value, (t,), tv),
        call_ensures(TerminalOutputData::to_value, (o,), ov),
        call_ensures(TerminalExitData::to_value, (e,), ev),
    ensures
        json::json_get(pv@, "shell"@) == Some(
            match p.shell {
                Some(s) => Json::Str(s@),
                None => Json::Null,
            },
        ),
        json::json_get(pv@, "cwd"@) == Some(
            match p.cwd {
                Some(s) => Json::Str(s@),
                None => Json::Null,
            },
        ),
        json::json_get(pv@, "cols"@) == Some(Json::Int(p.cols as int)),
        json::json_get(pv@, "rows"@) == Some(Json::Int(p.rows as int)),
        json::json_get(pv@, "env"@) matches Some(v) && wire::pairs_of(v) == Some(
            wire::pairs(p.env@),
        ),
        json::json_get(tv@, "session_id"@) == Some(Json::Str(t.session_id@)),
        json::json_get(tv@, "shell"@) == Some(Json::Str(t.shell@)),
        json::json_get(tv@, "pid"@) == Some(Json::Int(t.pid as int)),
        json::json_get(tv@, "cols"@) == Some(Json::Int(t.cols as int)),
        json::json_get(tv@, "rows"@) == Some(Json::Int(t.rows as int)),
        json::json_get(ov@, "session_id"@) == Some(Json::Str(o.session_id@)),
        json::json_get(ov@, "data"@) == Some(Json::Str(o.data@)),
        json::json_get(ev@, "session_id"@) == Some(Json::Str(e.session_id@)),
        json::json_get(ev@, "exit_code"@) == Some(
            match e.exit_code {
                Some(n) => Json::Int(n as int),
                None => Json::Null,
            },
        ),
{
    names();
    requests_are_written(p@);
    let env = wire::pairs(p.env@);
    let v = json::json_get(pv@, "env"@)->0;
    assert(v->Object_0.dom() =~= env.dom());
    wire::maps_of_texts_are_read(v, env);
    sessions_are_written(t@);
    events_are_written(o.session_id@, o.data@, e.exit_code);
    events_are_written(e.session_id@, o.data@, e.exit_code);
}

/// What a document holds is read from it.
pub proof fn records_are_read_by_name(
    v: &JsonValue,
    p: Option<TerminalOpenParams>,
    t: Option<TerminalSession>,
    o: Option<TerminalOutputData>,
    e: Option<TerminalExitData>,
)
    requires
        call_ensures(TerminalOpenParams::from_value, (v,), p),
        call_ensures(TerminalSession::from_value, (v,), t),
        call_ensures(TerminalOutputData::from_value, (v,), o),
        call_ensures(TerminalExitData::from_value, (v,), e),
    ensures
        p is None <==> open_of(v@) is None,
        p matches Some(k) ==> {
            &&& k.shell matches Some(s) ==> wire::field(v@, 0, "shell"@) == Some(Json::Str(s@))
            &&& wire::field(v@, 0, "shell"@) matches Some(Json::Str(s)) ==> k.shell is Some
            &&& k.cwd matches Some(s) ==> wire::field(v@, 1, "cwd"@) == Some(Json::Str(s@))
            &&& wire::field(v@, 1, "cwd"@) matches Some(Json::Str(s)) ==> k.cwd is Some
            &&& match wire::field(v@, 2, "env"@) {
                Some(env) => wire::pairs_of(env) == Some(wire::pairs(k.env@)),
                None => wire::pairs(k.env@) == Map::<Seq<char>, Seq<char>>::empty(),
            }
            &&& match wire::field(v@, 3, "cols"@) {
                Some(n) => n == Json::Int(k.cols as int),
                None => k.cols == 80,
            }
            &&& match wire::field(v@, 4, "rows"@) {
                Some(n) => n == Json::Int(k.rows as int),
                None => k.rows == 24,
            }
        },
        t is None <==> session_of(v@) is None,
        t matches Some(k) ==> {
            &&& wire::field(v@, 0, "session_id"@) == Some(Json::Str(k.session_id@))
            &&& wire::field(v@, 1, "shell"@) == Some(Json::Str(k.shell@))
            &&& wire::field(v@, 2, "pid"@) == Some(Json::Int(k.pid as int))
            &&& wire::field(v@, 3, "cols"@) == Some(Json::Int(k.cols as int))
            &&& wire::field(v@, 4, "rows"@) == Some(Json::Int(k.rows as int))
        },
        o is None <==> output_of(v@) is None,
        o matches Some(k) ==> {
            &&& wire::field(v@, 0, "session_id"@) == Some(Json::Str(k.session_id@))
            &&& wire::field(v@, 1, "data"@) == Some(Json::Str(k.data@))
        },
        e is None <==> exit_of(v@) is None,
        e matches Some(k) ==> {
            &&& wire::field(v@, 0, "session_id"@) == Some(Json::Str(k.session_id@))
            &&& k.exit_code matches Some(n) ==> wire::field(v@, 1, "exit_code"@) == Some(
                Json::Int(n as int),
            )
            &&& wire::field(v@, 1, "exit_code"@) matches Some(Json::Int(n)) ==> k.exit_code is Some
        },
{
    if p is Some {
        requests_for_sessions_are_read(v@, p->0@);
    }
    if t is Some {
        sessions_are_read(v@, t->0@);
    }
    if o is Some {
        session_events_are_read(v@, o->0.session_id@, o->0.data@, None);
    }
    if e is Some {
        session_events_are_read(v@, e->0.session_id@, Seq::empty(), e->0.exit_code);
    }
}

/// A text holds what its document holds, as far as it gives its fields once.
pub proof fn texts_hold_records(
    text: &str,
    p: Option<TerminalOpenParams>,
    t: Option<TerminalSession>,
    o: Option<TerminalOutputData>,
    e: Option<TerminalExitData>,
)
    requires
        call_ensures(TerminalOpenParams::from_json, (text,), p),
        call_ensures(TerminalSession::from_json, (text,), t),
        call_ensures(TerminalOutputData::from_json, (text,), o),
        call_ensures(TerminalExitData::from_json, (text,), e),
    ensures
        ({
            let j = json::json_of_text(text@);
            let list = members::listing(text@);
            &&& (match p {
                Some(k) => Some(k@),
                None => None,
            }) == open_in(j, list)
            &&& (match t {
                Some(k) => Some(k@),
                None => None,
            }) == session_in(j, list)
            &&& (match o {
                Some(k) => Some((k.session_id@, k.data@)),
                None => None,
            }) == output_in(j, list)
            &&& (match e {
                Some(k) => Some((k.session_id@, k.exit_code)),
                None => None,
            }) == exit_in(j, list)
        }),
{
}

/// Whatever leaves out fields, or gives them as they should be, holds a session
/// request: nothing else is asked of it.
pub proof fn session_requests_ask_for_nothing_else(j: Json)
    ensures
        open_of(j) is Some <==> {
            &&& wire::is_record(j, 5)
            &&& wire::field(j, 0, "shell"@) matches Some(v) ==> v is Str || v is Null
            &&& wire::field(j, 1, "cwd"@) matches Some(v) ==> v is Str || v is Null
            &&& wire::field(j, 2, "env"@) matches Some(v) ==> wire::pairs_of(v) is Some
            &&& wire::field(j, 3, "cols"@) matches Some(v) ==> (v matches Json::Int(n) && 0 <= n
                <= 65535)
            &&& wire::field(j, 4, "rows"@) matches Some(v) ==> (v matches Json::Int(n) && 0 <= n
                <= 65535)
        },
{
}

/// What is read from a document and what its text lists is what the document
/// holds, as far as the text gives its fields once.
pub proof fn listed_records_are_read(
    v: Option<JsonValue>,
    list: &Members,
    p: Option<TerminalOpenParams>,
    t: Option<TerminalSession>,
    o: Option<TerminalOutputData>,
    e: Option<TerminalExitData>,
)
    requires
        call_ensures(TerminalOpenParams::from_listed, (v, list), p),
        call_ensures(TerminalSession::from_listed, (v, list), t),
        call_ensures(TerminalOutputData::from_listed, (v, list), o),
        call_ensures(TerminalExitData::from_listed, (v, list), e),
    ensures
        v is None ==> p is None && t is None && o is None && e is None,
        (match p {
            Some(k) => Some(k@),
            None => None,
        }) == open_in(json::held(v), list@),
        (match t {
            Some(k) => Some(k@),
            None => None,
        }) == session_in(json::held(v), list@),
        (match o {
            Some(k) => Some((k.session_id@, k.data@)),
            None => None,
        }) == output_in(json::held(v), list@),
        (match e {
            Some(k) => Some((k.session_id@, k.exit_code)),
            None => None,
        }) == exit_in(json::held(v), list@),
{
}

/// A session request has its five fields in its document, and nothing else.
pub proof fn requests_say_nothing_else(p: OpenView, name: Seq<char>)
    ensures
        json::json_get(open_json(p), name) is Some <==> name == "shell"@ || name == "cwd"@ || name
            == "env"@ || name == "cols"@ || name == "rows"@,
{
}

} // verus!

//! Node command dispatcher.
//!
//! Routes incoming `node.invoke` requests to the appropriate handler. Built-in
//! commands for terminal, dev session, and system operations. What has to be
//! done outside (running a program, reading the environment) is handed to the
//! caller as a [`Step`], and what came of it is handed back.

use crate::gateway;
use crate::gateway::{
    GatewayConnection, GatewayError, GatewayErrorView, GatewayFrame, GatewayFrameView,
    InvokeView, NodeInvokeRequest,
};
use crate::ident;
use crate::json;
use crate::json::{Json, JsonValue, ObjectBuilder};
use crate::protocol;
use crate::protocol::{string_value, CommandPayload, Frame, FrameView};
use crate::terminal;
use crate::terminal::{
    choose_shell, code_value, OpenView, SessionView, TerminalEvent, TerminalEventView,
    TerminalExitData, TerminalManager, TerminalOpenParams, TerminalOutputData, TerminalSession,
    TerminalStep, Terminals,
};
use crate::text;
use crate::text::{before, joined, pieces, same, trimmed, utf8_lossy};
use crate::tunnel;
use crate::tunnel::TunnelConnection;
use crate::wire;
use vstd::prelude::*;

verus! {

/// Result of handling a command.
#[derive(Debug)]
pub struct CommandResult {
    pub ok: bool,
    pub payload: Option<JsonValue>,
    pub error: Option<GatewayError>,
}

/// What a [`CommandResult`] says.
pub struct ResultView {
    pub ok: bool,
    pub payload: Option<Json>,
    pub error: Option<GatewayErrorView>,
}

impl View for CommandResult {
    type V = ResultView;

    open spec fn view(&self) -> ResultView {
        ResultView {
            ok: self.ok,
            payload: json::held(self.payload),
            error: gateway::seen_error(self.error),
        }
    }
}

/// The result of a command that went well.
pub open spec fn success(payload: Json) -> ResultView {
    ResultView { ok: true, payload: Some(payload), error: None }
}

/// The result of a command that did not.
pub open spec fn failure(code: Seq<char>, message: Seq<char>) -> ResultView {
    ResultView {
        ok: false,
        payload: None,
        error: Some(GatewayErrorView { code, message, details: None }),
    }
}

impl CommandResult {
    /// The result of a command that went well.
    pub fn success(payload: JsonValue) -> (r: CommandResult)
        ensures
            r@ == success(payload@),
    {
        CommandResult { ok: true, payload: Some(payload), error: None }
    }

    /// The result of a command that did not.
    pub fn error(code: &str, message: &str) -> (r: CommandResult)
        ensures
            r@ == failure(code@, message@),
    {
        CommandResult {
            ok: false,
            payload: None,
            error: Some(
                GatewayError { code: code.to_owned(), message: message.to_owned(), details: None },
            ),
        }
    }
}

/// The built-in commands.
pub open spec fn builtins() -> Seq<Seq<char>> {
    seq![
        "terminal.open"@,
        "terminal.input"@,
        "terminal.close"@,
        "terminal.resize"@,
        "terminal.list"@,
        "system.info"@,
        "system.run"@,
        "dev.launch"@,
        "dev.status"@,
    ]
}

/// Whether texts are in strictly ascending order.
pub open spec fn ascending(list: Seq<Seq<char>>) -> bool {
    forall|i: int, j: int|
        0 <= i < j < list.len() ==> text::precedes(#[trigger] list[i], #[trigger] list[j])
}

/// Puts a name into an ascending list, unless it is there.
fn put_in_order(list: &mut Vec<String>, name: &str)
    requires
        ascending(text::texts(old(list)@)),
    ensures
        ascending(text::texts(final(list)@)),
        text::texts(final(list)@).to_set() == text::texts(old(list)@).to_set().insert(name@),
{
    let ghost was = text::texts(list@);
    let mut i: usize = 0;
    while i < list.len() && before(list[i].as_str(), name)
        invariant
            i <= list@.len(),
            was == text::texts(list@),
            forall|k: int| 0 <= k < i ==> text::precedes(#[trigger] was[k], name@),
        decreases list@.len() - i,
    {
        assert(was[i as int] == list@[i as int]@);
        i = i + 1;
    }
    if i < list.len() && same(list[i].as_str(), name) {
        proof {
            assert(was[i as int] == name@);
            assert(was.to_set().insert(name@) =~= was.to_set());
        }
        return;
    }
    proof {
        assert forall|k: int| i <= k < was.len() implies text::precedes(
            name@,
            #[trigger] was[k],
        ) by {
            assert(was[i as int] == list@[i as int]@);
            text::order_is_total(was[i as int], name@);
            if k > i {
                assert(text::precedes(was[i as int], was[k]));
                text::order_is_transitive(name@, was[i as int], was[k]);
                if name@ == was[k] {
                    text::order_is_antisymmetric(was[i as int], was[k]);
                }
            }
        }
    }
    list.insert(i, name.to_owned());
    proof {
        let now = text::texts(list@);
        assert(now =~= was.insert(i as int, name@));
        assert forall|a: int, b: int| 0 <= a < b < now.len() implies text::precedes(
            #[trigger] now[a],
            #[trigger] now[b],
        ) by {
            let x = if a < i {
                a
            } else {
                a - 1
            };
            let y = if b < i {
                b
            } else {
                b - 1
            };
            if a != i && b != i {
                assert(now[a] == was[x] && now[b] == was[y]);
            } else if a == i {
                assert(now[b] == was[y]);
            } else {
                assert(now[a] == was[x]);
            }
        }
        assert forall|s: Seq<char>| now.to_set().contains(s) == #[trigger] was.to_set().insert(
            name@,
        ).contains(s) by {
            if now.contains(s) {
                let k = choose|k: int| 0 <= k < now.len() && now[k] == s;
                if k != i {
                    let x = if k < i {
                        k
                    } else {
                        k - 1
                    };
                    assert(was[x] == s);
                }
            }
            if was.contains(s) {
                let k = choose|k: int| 0 <= k < was.len() && was[k] == s;
                let x = if k < i {
                    k
                } else {
                    k + 1
                };
                assert(now[x] == s);
            }
            assert(now[i as int] == name@);
        }
        assert(now.to_set() =~= was.to_set().insert(name@));
    }
}

/// Dispatches node.invoke commands to registered handlers. The handlers are the
/// caller's; here each registration has a number, counted from zero.
#[derive(Debug)]
pub struct CommandDispatcher {
    handlers: Vec<String>,
    usual_model: String,
}

/// What a [`CommandDispatcher`] holds: the commands of its custom handlers, in
/// the order in which these were registered, and the model of a dev session
/// that names none.
pub struct DispatcherView {
    pub handlers: Seq<Seq<char>>,
    pub usual_model: Seq<char>,
}

impl View for CommandDispatcher {
    type V = DispatcherView;

    closed spec fn view(&self) -> DispatcherView {
        DispatcherView {
            handlers: text::texts(self.handlers@),
            usual_model: self.usual_model@,
        }
    }
}

/// The number of the newest handler of a command.
pub open spec fn newest(handlers: Seq<Seq<char>>, command: Seq<char>) -> Option<int>
    decreases handlers.len(),
{
    if handlers.len() == 0 {
        None
    } else if handlers.last() == command {
        Some(handlers.len() - 1)
    } else {
        newest(handlers.drop_last(), command)
    }
}

/// The newest handler of a command is the one that was registered for it last;
/// there is none if and only if none was registered.
pub proof fn newest_is_last(handlers: Seq<Seq<char>>, command: Seq<char>)
    ensures
        newest(handlers, command) is None <==> !handlers.contains(command),
        newest(handlers, command) matches Some(n) ==> {
            &&& 0 <= n < handlers.len()
            &&& handlers[n] == command
            &&& forall|k: int| n < k < handlers.len() ==> #[trigger] handlers[k] != command
        },
    decreases handlers.len(),
{
    if handlers.len() > 0 {
        let shorter = handlers.drop_last();
        newest_is_last(shorter, command);
        assert(forall|k: int| 0 <= k < shorter.len() ==> #[trigger] shorter[k] == handlers[k]);
        if handlers.last() == command {
            assert(handlers[handlers.len() - 1] == command);
        } else {
            if handlers.contains(command) {
                let k = choose|k: int| 0 <= k < handlers.len() && handlers[k] == command;
                assert(shorter[k] == command);
            }
            if shorter.contains(command) {
                let k = choose|k: int| 0 <= k < shorter.len() && shorter[k] == command;
                assert(handlers[k] == command);
            }
            assert forall|k: int|
                newest(handlers, command) is Some && newest(handlers, command)->0 < k
                    < handlers.len() implies #[trigger] handlers[k] != command by {
                if k < shorter.len() {
                    assert(shorter[k] == handlers[k]);
                }
            }
        }
    }
}

impl CommandDispatcher {
    /// Create a new dispatcher with built-in terminal commands. The model is
    /// that of a dev session that names none: it is for the caller to give, the
    /// library holds none of its own.
    pub fn new(usual_model: String) -> (r: CommandDispatcher)
        ensures
            r@.handlers == Seq::<Seq<char>>::empty(),
            r@.usual_model == usual_model@,
    {
        let r = CommandDispatcher { handlers: Vec::new(), usual_model };
        assert(text::texts(r.handlers@) =~= Seq::<Seq<char>>::empty());
        r
    }

    /// Register a custom command handler: its number.
    pub fn register(&mut self, command: &str) -> (r: usize)
        ensures
            r == old(self)@.handlers.len(),
            final(self)@.handlers == old(self)@.handlers.push(command@),
            final(self)@.usual_model == old(self)@.usual_model,
    {
        let ghost was = text::texts(self.handlers@);
        let number: usize = self.handlers.len();
        self.handlers.push(command.to_owned());
        assert(text::texts(self.handlers@) =~= was.push(command@));
        number
    }

    /// The number of the newest handler of a command.
    pub fn handler(&self, command: &str) -> (r: Option<usize>)
        ensures
            newest(self@.handlers, command@) == (match r {
                Some(n) => Some(n as int),
                None => None,
            }),
    {
        let ghost names = text::texts(self.handlers@);
        let mut i: usize = self.handlers.len();
        assert(names.take(i as int) =~= names);
        while i > 0
            invariant
                names == text::texts(self.handlers@),
                i <= names.len(),
                newest(names, command@) == newest(names.take(i as int), command@),
            decreases i,
        {
            proof {
                assert(names.take(i as int).drop_last() =~= names.take(i - 1));
                assert(names[i - 1] == self.handlers@[i - 1]@);
            }
            if same(self.handlers[i - 1].as_str(), command) {
                return Some(i - 1);
            }
            i = i - 1;
        }
        None
    }

    /// Get the list of supported commands: the built-in ones and those with a
    /// custom handler, in order and each once.
    pub fn supported_commands(&self) -> (r: Vec<String>)
        ensures
            ascending(text::texts(r@)),
            text::texts(r@).to_set() == self@.handlers.to_set().union(builtins().to_set()),
    {
        let mut list: Vec<String> = Vec::new();
        let ghost names = text::texts(self.handlers@);
        assert(text::texts(list@).to_set() =~= names.take(0).to_set());
        for i in 0..self.handlers.len()
            invariant
                names == text::texts(self.handlers@),
                ascending(text::texts(list@)),
                text::texts(list@).to_set() == names.take(i as int).to_set(),
        {
            put_in_order(&mut list, self.handlers[i].as_str());
            proof {
                assert(names[i as int] == self.handlers@[i as int]@);
                one_more(names, i as int);
            }
        }
        assert(names.take(names.len() as int) =~= names);
        let ghost custom = text::texts(list@).to_set();
        put_in_order(&mut list, "terminal.open");
        put_in_order(&mut list, "terminal.input");
        put_in_order(&mut list, "terminal.close");
        put_in_order(&mut list, "terminal.resize");
        put_in_order(&mut list, "terminal.list");
        put_in_order(&mut list, "system.info");
        put_in_order(&mut list, "system.run");
        put_in_order(&mut list, "dev.launch");
        put_in_order(&mut list, "dev.status");
        proof {
            let b = builtins();
            let all = custom.insert("terminal.open"@).insert("terminal.input"@).insert(
                "terminal.close"@,
            ).insert("terminal.resize"@).insert("terminal.list"@).insert("system.info"@).insert(
                "system.run"@,
            ).insert("dev.launch"@).insert("dev.status"@);
            assert(b[0] == "terminal.open"@ && b[1] == "terminal.input"@ && b[2]
                == "terminal.close"@ && b[3] == "terminal.resize"@ && b[4] == "terminal.list"@
                && b[5] == "system.info"@ && b[6] == "system.run"@ && b[7] == "dev.launch"@
                && b[8] == "dev.status"@);
            assert(all =~= custom.union(b.to_set()));
        }
        list
    }
}

/// A prefix that is one longer holds one more.
proof fn one_more(s: Seq<Seq<char>>, i: int)
    requires
        0 <= i < s.len(),
    ensures
        s.take(i + 1).to_set() == s.take(i).to_set().insert(s[i]),
{
    let a = s.take(i);
    let b = s.take(i + 1);
    assert forall|x: Seq<char>| b.to_set().contains(x) == #[trigger] a.to_set().insert(
        s[i],
    ).contains(x) by {
        if a.contains(x) {
            let k = choose|k: int| 0 <= k < a.len() && a[k] == x;
            assert(b[k] == x);
        }
        if b.contains(x) {
            let k = choose|k: int| 0 <= k < b.len() && b[k] == x;
            if k < i {
                assert(a[k] == x);
            }
        }
        assert(b[i] == s[i]);
    }
    assert(b.to_set() =~= a.to_set().insert(s[i]));
}

/// A program to run, and how long it may take.
#[derive(Debug)]
pub struct Run {
    pub shell: String,
    pub cmd: String,
    pub cwd: Option<String>,
    pub timeout_ms: u64,
}

/// What a [`Run`] says.
pub struct RunView {
    pub shell: Seq<char>,
    pub cmd: Seq<char>,
    pub cwd: Option<Seq<char>>,
    pub timeout_ms: u64,
}

impl View for Run {
    type V = RunView;

    open spec fn view(&self) -> RunView {
        RunView {
            shell: self.shell@,
            cmd: self.cmd@,
            cwd: text::optional(self.cwd),
            timeout_ms: self.timeout_ms,
        }
    }
}

impl Run {
    /// The arguments of the shell.
    pub fn args(&self) -> (r: Vec<String>)
        ensures
            text::texts(r@) == seq!["-c"@, self.cmd@],
    {
        let mut args: Vec<String> = Vec::new();
        args.push("-c".to_owned());
        args.push(self.cmd.clone());
        assert(text::texts(args@) =~= seq!["-c"@, self.cmd@]);
        args
    }
}

/// A dev session to launch.
#[derive(Debug)]
pub struct Launch {
    pub message: String,
    pub cwd: Option<String>,
    pub model: String,
}

/// What a [`Launch`] says.
pub struct LaunchView {
    pub message: Seq<char>,
    pub cwd: Option<Seq<char>>,
    pub model: Seq<char>,
}

impl View for Launch {
    type V = LaunchView;

    open spec fn view(&self) -> LaunchView {
        LaunchView {
            message: self.message@,
            cwd: text::optional(self.cwd),
            model: self.model@,
        }
    }
}

/// The arguments of the dev binary: the model, and the message unless it is empty.
pub open spec fn launch_args(l: LaunchView) -> Seq<Seq<char>> {
    if l.message.len() == 0 {
        seq!["--model"@, l.model]
    } else {
        seq!["--model"@, l.model, l.message]
    }
}

impl Launch {
    /// The arguments of the dev binary.
    pub fn args(&self) -> (r: Vec<String>)
        ensures
            text::texts(r@) == launch_args(self@),
    {
        let mut args: Vec<String> = Vec::new();
        args.push("--model".to_owned());
        args.push(self.model.clone());
        proof {
            reveal_strlit("");
            assert(self.message@.len() == 0 ==> self.message@ =~= ""@);
        }
        if !same(self.message.as_str(), "") {
            args.push(self.message.clone());
        }
        assert(text::texts(args@) =~= launch_args(self@));
        args
    }
}

/// What a request comes to.
#[derive(Debug)]
pub enum Step {
    /// It is done, with this result.
    Done(CommandResult),
    /// The custom handler with this number is to be called, once, with these
    /// parameters; what it returns is the result.
    Custom(usize, JsonValue),
    /// A terminal session is to be opened.
    Open(TerminalOpenParams),
    /// No terminal session can be opened, because these parameters cannot be
    /// read. How they fail to be is for the caller to say.
    Unreadable(JsonValue),
    /// These bytes are to be written to the program of this session.
    Input(String, Vec<u8>),
    /// The system is to be described.
    Describe,
    /// A program is to be run.
    Run(Run),
    /// A dev session is to be launched.
    Launch(Launch),
    /// The running dev sessions are to be found.
    FindDev,
}

/// What a [`Step`] says.
pub enum StepView {
    Done(ResultView),
    Custom(int, Json),
    Open(OpenView),
    Unreadable(Json),
    Input(Seq<char>, Seq<u8>),
    Describe,
    Run(RunView),
    Launch(LaunchView),
    FindDev,
}

impl View for Step {
    type V = StepView;

    open spec fn view(&self) -> StepView {
        match *self {
            Step::Done(r) => StepView::Done(r@),
            Step::Custom(n, p) => StepView::Custom(n as int, p@),
            Step::Open(p) => StepView::Open(p@),
            Step::Unreadable(p) => StepView::Unreadable(p@),
            Step::Input(s, d) => StepView::Input(s@, d@),
            Step::Describe => StepView::Describe,
            Step::Run(p) => StepView::Run(p@),
            Step::Launch(p) => StepView::Launch(p@),
            Step::FindDev => StepView::FindDev,
        }
    }
}

/// The payload of a command that has nothing to tell but that it went well.
pub open spec fn ok_json() -> Json {
    Json::Object(Map::empty().insert("ok"@, Json::Bool(true)))
}

fn ok_value() -> (r: JsonValue)
    ensures
        r@ == ok_json(),
{
    let mut o = ObjectBuilder::new();
    o.put("ok", JsonValue::Bool(true));
    o.build()
}

/// The result of a command without a value of its own.
pub open spec fn plain_result(o: Result<(), Seq<char>>, code: Seq<char>) -> ResultView {
    match o {
        Ok(()) => success(ok_json()),
        Err(e) => failure(code, e),
    }
}

fn plain(o: Result<(), String>, code: &str) -> (r: CommandResult)
    ensures
        r@ == plain_result(terminal::told(o), code@),
{
    match o {
        Ok(()) => CommandResult::success(ok_value()),
        Err(e) => CommandResult::error(code, e.as_str()),
    }
}

/// The complaint about parameters that lack something.
pub open spec fn invalid(message: Seq<char>) -> ResultView {
    failure("INVALID_PARAMS"@, message)
}

/// A size of a terminal: sixteen bits of the number that was given, or the
/// usual one where none was.
pub open spec fn size_of(given: Option<u64>, usual: u16) -> u16 {
    match given {
        Some(n) => (n % 65536) as u16,
        None => usual,
    }
}

fn size(given: Option<u64>, usual: u16) -> (r: u16)
    ensures
        r == size_of(given, usual),
{
    match given {
        Some(n) => {
            assert(n as u16 == (n % 65536) as u16) by (bit_vector);
            #[verifier::truncate]
            let r: u16 = n as u16;
            r
        },
        None => usual,
    }
}

/// What `terminal.open` comes to.
pub open spec fn open_step(params: Json) -> StepView {
    match terminal::open_of(params) {
        Some(p) => StepView::Open(p),
        None => StepView::Unreadable(params),
    }
}

/// What `terminal.input` comes to.
pub open spec fn input_step(sessions: Map<Seq<char>, SessionView>, params: Json) -> StepView {
    match json::json_get_str(params, "session_id"@) {
        None => StepView::Done(invalid("missing session_id"@)),
        Some(id) => match json::json_get_str(params, "data"@) {
            None => StepView::Done(invalid("missing data"@)),
            Some(data) => match terminal::answer(sessions, id) {
                Ok(()) => StepView::Input(id, vstd::utf8::encode_utf8(data)),
                Err(e) => StepView::Done(failure("INPUT_FAILED"@, e)),
            },
        },
    }
}

/// What `terminal.close` results in.
pub open spec fn close_result(sessions: Map<Seq<char>, SessionView>, params: Json) -> ResultView {
    match json::json_get_str(params, "session_id"@) {
        None => invalid("missing session_id"@),
        Some(id) => plain_result(terminal::answer(sessions, id), "CLOSE_FAILED"@),
    }
}

/// What `terminal.close` does to a session.
pub open spec fn close_step(params: Json) -> Option<TerminalStep> {
    match json::json_get_str(params, "session_id"@) {
        None => None,
        Some(id) => Some(TerminalStep::Closed(id)),
    }
}

/// What is known of the sessions after a step, where there is one.
pub open spec fn after_maybe(t: Terminals, step: Option<TerminalStep>) -> Terminals {
    match step {
        Some(step) => terminal::after_step(t, step),
        None => t,
    }
}

/// What `terminal.resize` results in.
pub open spec fn resize_result(sessions: Map<Seq<char>, SessionView>, params: Json) -> ResultView {
    match json::json_get_str(params, "session_id"@) {
        None => invalid("missing session_id"@),
        Some(id) => plain_result(terminal::answer(sessions, id), "RESIZE_FAILED"@),
    }
}

/// What `terminal.resize` does to a session.
pub open spec fn resize_step(params: Json) -> Option<TerminalStep> {
    match json::json_get_str(params, "session_id"@) {
        None => None,
        Some(id) => Some(
            TerminalStep::Resized(
                id,
                size_of(json::json_get_u64(params, "cols"@), 80),
                size_of(json::json_get_u64(params, "rows"@), 24),
            ),
        ),
    }
}

/// The array of sessions.
pub open spec fn sessions_json(list: Seq<TerminalSession>) -> Json {
    Json::Array(list.map_values(|s: TerminalSession| terminal::session_json(s@)))
}

/// Whether a result lists the sessions, each once, in whatever order.
pub open spec fn lists(r: ResultView, sessions: Map<Seq<char>, SessionView>) -> bool {
    exists|list: Seq<TerminalSession>|
        terminal::distinct(list) && #[trigger] terminal::table(list) == sessions && r == success(
            sessions_json(list),
        )
}

/// What `system.run` comes to.
pub open spec fn run_step(params: Json, users_shell: Option<Seq<char>>) -> StepView {
    let cmd = match json::json_get_str(params, "cmd"@) {
        Some(c) => Some(c),
        None => json::json_get_str(params, "command"@),
    };
    match cmd {
        None => StepView::Done(invalid("missing cmd"@)),
        Some(cmd) => StepView::Run(
            RunView {
                shell: terminal::chosen_shell(None, users_shell),
                cmd,
                cwd: json::json_get_str(params, "cwd"@),
                timeout_ms: match json::json_get_u64(params, "timeout_ms"@) {
                    Some(n) => n,
                    None => 30_000,
                },
            },
        ),
    }
}

/// The dev session that `dev.launch` asks for, given the model that is used
/// where it names none.
pub open spec fn launch_of(params: Json, usual_model: Seq<char>) -> LaunchView {
    LaunchView {
        message: gateway::member_text(params, "message"@),
        cwd: json::json_get_str(params, "cwd"@),
        model: match json::json_get_str(params, "model"@) {
            Some(m) => m,
            None => usual_model,
        },
    }
}

fn owned(s: Option<&str>) -> (r: Option<String>)
    ensures
        text::optional(r) == (match s {
            Some(s) => Some(s@),
            None => None,
        }),
{
    match s {
        Some(s) => Some(s.to_owned()),
        None => None,
    }
}

impl CommandDispatcher {
    fn handle_terminal_open(&self, params: JsonValue) -> (r: Step)
        ensures
            r@ == open_step(params@),
    {
        match TerminalOpenParams::from_value(&params) {
            Some(p) => Step::Open(p),
            None => Step::Unreadable(params),
        }
    }

    fn handle_terminal_input(&self, terminal: &TerminalManager, params: JsonValue) -> (r: Step)
        ensures
            r@ == input_step(terminal@, params@),
    {
        let session_id = match params.get_str("session_id") {
            Some(id) => id,
            None => {
                return Step::Done(CommandResult::error("INVALID_PARAMS", "missing session_id"));
            },
        };
        let data = match params.get_str("data") {
            Some(d) => d,
            None => {
                return Step::Done(CommandResult::error("INVALID_PARAMS", "missing data"));
            },
        };
        match terminal.input(session_id, data.as_bytes()) {
            Ok(bytes) => Step::Input(session_id.to_owned(), bytes),
            Err(e) => Step::Done(CommandResult::error("INPUT_FAILED", e.as_str())),
        }
    }

    fn handle_terminal_close(&self, terminal: &mut TerminalManager, params: JsonValue) -> (r:
        CommandResult)
        ensures
            r@ == close_result(old(terminal)@, params@),
            final(terminal).known() == after_maybe(old(terminal).known(), close_step(params@)),
    {
        let session_id = match params.get_str("session_id") {
            Some(id) => id,
            None => {
                return CommandResult::error("INVALID_PARAMS", "missing session_id");
            },
        };
        plain(terminal.close(session_id), "CLOSE_FAILED")
    }

    fn handle_terminal_resize(&self, terminal: &mut TerminalManager, params: JsonValue) -> (r:
        CommandResult)
        ensures
            r@ == resize_result(old(terminal)@, params@),
            final(terminal).known() == after_maybe(old(terminal).known(), resize_step(params@)),
    {
        let session_id = match params.get_str("session_id") {
            Some(id) => id,
            None => {
                return CommandResult::error("INVALID_PARAMS", "missing session_id");
            },
        };
        let cols: u16 = size(params.get_u64("cols"), 80);
        let rows: u16 = size(params.get_u64("rows"), 24);
        plain(terminal.resize(session_id, cols, rows), "RESIZE_FAILED")
    }

    fn handle_terminal_list(&self, terminal: &TerminalManager) -> (r: CommandResult)
        ensures
            lists(r@, terminal@),
    {
        let list = terminal.list();
        let ghost whole = sessions_json(list@)->Array_0;
        let mut out: Vec<JsonValue> = Vec::new();
        assert(whole.take(0) =~= Seq::<Json>::empty());
        for i in 0..list.len()
            invariant
                whole == sessions_json(list@)->Array_0,
                json::array_json(out@) == whole.take(i as int),
        {
            let ghost shorter = out@;
            out.push(list[i].to_value());
            proof {
                assert(out@.drop_last() =~= shorter);
                assert(whole.take(i + 1) =~= whole.take(i as int).push(whole[i as int]));
            }
        }
        assert(whole.take(list@.len() as int) =~= whole);
        let r = CommandResult::success(JsonValue::Array(out));
        assert(terminal::table(list@) == terminal@);
        r
    }

    fn handle_system_run(&self, params: JsonValue, users_shell: Option<String>) -> (r: Step)
        ensures
            r@ == run_step(params@, text::optional(users_shell)),
    {
        let cmd = match params.get_str("cmd") {
            Some(c) => c.to_owned(),
            None => match params.get_str("command") {
                Some(c) => c.to_owned(),
                None => {
                    return Step::Done(CommandResult::error("INVALID_PARAMS", "missing cmd"));
                },
            },
        };
        let cwd = owned(params.get_str("cwd"));
        let timeout_ms: u64 = match params.get_u64("timeout_ms") {
            Some(n) => n,
            None => 30_000,
        };
        Step::Run(Run { shell: choose_shell(None, users_shell), cmd, cwd, timeout_ms })
    }

    fn handle_dev_launch(&self, params: JsonValue) -> (r: Step)
        ensures
            r@ == StepView::Launch(launch_of(params@, self@.usual_model)),
    {
        let message = match params.get_str("message") {
            Some(m) => m.to_owned(),
            None => String::new(),
        };
        let cwd = owned(params.get_str("cwd"));
        let model = match params.get_str("model") {
            Some(m) => m.to_owned(),
            None => self.usual_model.clone(),
        };
        Step::Launch(Launch { message, cwd, model })
    }
}

/// The parameters of a request, null where it has none.
pub open spec fn params_of(req: InvokeView) -> Json {
    json::or_null(req.params)
}

/// Whether a dispatcher has a custom handler for a command.
pub open spec fn is_custom(d: DispatcherView, command: Seq<char>) -> bool {
    newest(d.handlers, command) is Some
}

/// What a request comes to, unless it asks for the list of sessions. A custom
/// handler goes before a built-in command.
pub open spec fn step_for(
    d: DispatcherView,
    sessions: Map<Seq<char>, SessionView>,
    req: InvokeView,
    users_shell: Option<Seq<char>>,
) -> StepView {
    let params = params_of(req);
    if is_custom(d, req.command) {
        StepView::Custom(newest(d.handlers, req.command)->0, params)
    } else if req.command == "terminal.open"@ {
        open_step(params)
    } else if req.command == "terminal.input"@ {
        input_step(sessions, params)
    } else if req.command == "terminal.close"@ {
        StepView::Done(close_result(sessions, params))
    } else if req.command == "terminal.resize"@ {
        StepView::Done(resize_result(sessions, params))
    } else if req.command == "system.info"@ {
        StepView::Describe
    } else if req.command == "system.run"@ {
        run_step(params, users_shell)
    } else if req.command == "dev.launch"@ {
        StepView::Launch(launch_of(params, d.usual_model))
    } else if req.command == "dev.status"@ {
        StepView::FindDev
    } else {
        StepView::Done(failure("UNKNOWN_COMMAND"@, "unknown command: "@ + req.command))
    }
}

/// Whether a request asks for the built-in list of sessions.
pub open spec fn asks_for_list(d: DispatcherView, req: InvokeView) -> bool {
    req.command == "terminal.list"@ && !is_custom(d, req.command)
}

/// What a request does to a session.
pub open spec fn session_step(d: DispatcherView, req: InvokeView) -> Option<TerminalStep> {
    if is_custom(d, req.command) {
        None
    } else if req.command == "terminal.close"@ {
        close_step(params_of(req))
    } else if req.command == "terminal.resize"@ {
        resize_step(params_of(req))
    } else {
        None
    }
}

impl CommandDispatcher {
    /// Dispatch a node.invoke request.
    pub fn dispatch(
        &self,
        terminal: &mut TerminalManager,
        req: &NodeInvokeRequest,
        users_shell: Option<String>,
    ) -> (r: Step)
        ensures
            asks_for_list(self@, req@) ==> (r@ matches StepView::Done(l) && lists(
                l,
                old(terminal)@,
            )),
            !asks_for_list(self@, req@) ==> r@ == step_for(
                self@,
                old(terminal)@,
                req@,
                text::optional(users_shell),
            ),
            final(terminal).known() == after_maybe(
                old(terminal).known(),
                session_step(self@, req@),
            ),
    {
        proof {
            command_names();
        }
        let params = match &req.params {
            Some(p) => p.clone(),
            None => JsonValue::Null,
        };
        let command = req.command.as_str();
        if let Some(number) = self.handler(command) {
            Step::Custom(number, params)
        } else if same(command, "terminal.open") {
            self.handle_terminal_open(params)
        } else if same(command, "terminal.input") {
            self.handle_terminal_input(terminal, params)
        } else if same(command, "terminal.close") {
            Step::Done(self.handle_terminal_close(terminal, params))
        } else if same(command, "terminal.resize") {
            Step::Done(self.handle_terminal_resize(terminal, params))
        } else if same(command, "terminal.list") {
            Step::Done(self.handle_terminal_list(terminal))
        } else if same(command, "system.info") {
            Step::Describe
        } else if same(command, "system.run") {
            self.handle_system_run(params, users_shell)
        } else if same(command, "dev.launch") {
            self.handle_dev_launch(params)
        } else if same(command, "dev.status") {
            Step::FindDev
        } else {
            Step::Done(
                CommandResult::error(
                    "UNKNOWN_COMMAND",
                    joined("unknown command: ", command).as_str(),
                ),
            )
        }
    }
}

/// The names of the built-in commands differ.
proof fn command_names()
    ensures
        "terminal.close"@ != "terminal.open"@,
        "terminal.close"@ != "terminal.input"@,
        "terminal.list"@ != "terminal.open"@,
        "terminal.list"@ != "terminal.input"@,
        "terminal.list"@ != "terminal.close"@,
        "terminal.list"@ != "terminal.resize"@,
        "terminal.resize"@ != "terminal.open"@,
        "terminal.resize"@ != "terminal.input"@,
        "terminal.resize"@ != "terminal.close"@,
{
    reveal_strlit("terminal.open");
    reveal_strlit("terminal.input");
    reveal_strlit("terminal.close");
    reveal_strlit("terminal.resize");
    reveal_strlit("terminal.list");
    assert("terminal.open"@.len() == 13 && "terminal.open"@[9] == 'o');
    assert("terminal.list"@.len() == 13 && "terminal.list"@[9] == 'l');
    assert("terminal.input"@.len() == 14 && "terminal.input"@[9] == 'i');
    assert("terminal.close"@.len() == 14 && "terminal.close"@[9] == 'c');
    assert("terminal.resize"@.len() == 15);
}

/// A command is refused as unknown if and only if it is not supported.
pub proof fn supported_means_known(
    d: DispatcherView,
    sessions: Map<Seq<char>, SessionView>,
    req: InvokeView,
    users_shell: Option<Seq<char>>,
)
    ensures
        asks_for_list(d, req) ==> d.handlers.to_set().union(builtins().to_set()).contains(
            req.command,
        ),
        !asks_for_list(d, req) ==> (step_for(d, sessions, req, users_shell) == StepView::Done(
            failure("UNKNOWN_COMMAND"@, "unknown command: "@ + req.command),
        ) <==> !d.handlers.to_set().union(builtins().to_set()).contains(req.command)),
{
    let b = builtins();
    assert(b[0] == "terminal.open"@ && b[1] == "terminal.input"@ && b[2] == "terminal.close"@
        && b[3] == "terminal.resize"@ && b[4] == "terminal.list"@ && b[5] == "system.info"@ && b[6]
        == "system.run"@ && b[7] == "dev.launch"@ && b[8] == "dev.status"@);
    assert(b.to_set().contains(req.command) <==> b.contains(req.command));
    newest_is_last(d.handlers, req.command);
    error_codes();
    if b.contains(req.command) {
        let i = choose|i: int| 0 <= i < b.len() && b[i] == req.command;
        assert(0 <= i < 9);
    }
}

/// The handler that was registered last for a command is called for it,
/// whatever was registered before and for other commands, and whether or not
/// the command is a built-in one; it gets the parameters of the request, or
/// null, and nothing happens to the sessions.
pub proof fn newest_handler_is_called(
    d: DispatcherView,
    later: Seq<Seq<char>>,
    sessions: Map<Seq<char>, SessionView>,
    req: InvokeView,
    users_shell: Option<Seq<char>>,
)
    requires
        !later.contains(req.command),
    ensures
        ({
            let now = DispatcherView { handlers: d.handlers.push(req.command) + later, ..d };
            &&& !asks_for_list(now, req)
            &&& step_for(now, sessions, req, users_shell) == StepView::Custom(
                d.handlers.len() as int,
                params_of(req),
            )
            &&& session_step(now, req) is None
        }),
    decreases later.len(),
{
    let all = d.handlers.push(req.command) + later;
    if later.len() == 0 {
        assert(all =~= d.handlers.push(req.command));
        assert(all.drop_last() =~= d.handlers);
    } else {
        let shorter = later.drop_last();
        assert(all.drop_last() =~= d.handlers.push(req.command) + shorter);
        assert(later[later.len() - 1] != req.command);
        assert(!shorter.contains(req.command)) by {
            if shorter.contains(req.command) {
                let k = choose|k: int| 0 <= k < shorter.len() && shorter[k] == req.command;
                assert(later[k] == req.command);
            }
        }
        newest_handler_is_called(d, shorter, sessions, req, users_shell);
    }
}

/// The code of an unknown command is no other.
proof fn error_codes()
    ensures
        "UNKNOWN_COMMAND"@ != "INVALID_PARAMS"@,
        "UNKNOWN_COMMAND"@ != "INPUT_FAILED"@,
        "UNKNOWN_COMMAND"@ != "CLOSE_FAILED"@,
        "UNKNOWN_COMMAND"@ != "RESIZE_FAILED"@,
{
    reveal_strlit("UNKNOWN_COMMAND");
    reveal_strlit("INVALID_PARAMS");
    reveal_strlit("INPUT_FAILED");
    reveal_strlit("CLOSE_FAILED");
    reveal_strlit("RESIZE_FAILED");
    assert("UNKNOWN_COMMAND"@[0] == 'U');
    assert("INVALID_PARAMS"@[0] == 'I');
    assert("INPUT_FAILED"@[0] == 'I');
    assert("CLOSE_FAILED"@[0] == 'C');
    assert("RESIZE_FAILED"@[0] == 'R');
}

/// The result of opening a terminal session.
pub open spec fn open_result(o: Result<SessionView, Seq<char>>) -> ResultView {
    match o {
        Ok(s) => success(terminal::session_json(s)),
        Err(e) => failure("SPAWN_FAILED"@, e),
    }
}

/// The result of `terminal.open`.
pub fn opened(o: Result<TerminalSession, String>) -> (r: CommandResult)
    ensures
        r@ == open_result(
            match o {
                Ok(s) => Ok(s@),
                Err(e) => Err(e@),
            },
        ),
{
    match o {
        Ok(s) => CommandResult::success(s.to_value()),
        Err(e) => CommandResult::error("SPAWN_FAILED", e.as_str()),
    }
}

/// The result of a command whose parameters cannot be read, for this reason.
pub fn unreadable(reason: &str) -> (r: CommandResult)
    ensures
        r@ == invalid(reason@),
{
    CommandResult::error("INVALID_PARAMS", reason)
}

/// The result of `terminal.input`.
pub fn input_done(o: Result<(), String>) -> (r: CommandResult)
    ensures
        r@ == plain_result(terminal::told(o), "INPUT_FAILED"@),
{
    plain(o, "INPUT_FAILED")
}

/// What is known of the system. `None` where the environment does not say.
#[derive(Debug)]
pub struct SystemInfo {
    pub os: String,
    pub arch: String,
    /// The variables `HOSTNAME` and `HOST`.
    pub hostname: Option<String>,
    pub host: Option<String>,
    pub home: Option<String>,
    pub cwd: Option<String>,
    pub shell: Option<String>,
    pub user: Option<String>,
}

/// A text, empty where there is none.
pub open spec fn or_empty(s: Option<Seq<char>>) -> Seq<char> {
    match s {
        Some(s) => s,
        None => Seq::empty(),
    }
}

fn text_or_empty(s: Option<String>) -> (r: JsonValue)
    ensures
        r@ == Json::Str(or_empty(text::optional(s))),
{
    match s {
        Some(s) => JsonValue::String(s),
        None => JsonValue::String(String::new()),
    }
}

/// The description of a system. Its host name is `HOSTNAME`, else `HOST`.
pub open spec fn info_json(i: SystemInfo) -> Json {
    let hostname = match i.hostname {
        Some(_) => i.hostname,
        None => i.host,
    };
    Json::Object(
        Map::empty().insert("os"@, Json::Str(i.os@)).insert("arch"@, Json::Str(i.arch@)).insert(
            "hostname"@,
            Json::Str(or_empty(text::optional(hostname))),
        ).insert("home"@, Json::Str(or_empty(text::optional(i.home)))).insert(
            "cwd"@,
            Json::Str(or_empty(text::optional(i.cwd))),
        ).insert("shell"@, Json::Str(or_empty(text::optional(i.shell)))).insert(
            "user"@,
            Json::Str(or_empty(text::optional(i.user))),
        ),
    )
}

/// How a program that was run ended.
#[derive(Debug)]
pub enum RunOutcome {
    /// It has ended, with this code where it has one, and has written this.
    Finished { code: Option<i32>, stdout: Vec<u8>, stderr: Vec<u8> },
    /// It could not be run, for this reason.
    Failed(String),
    /// It has taken too long.
    TimedOut,
}

/// The result of running a program.
pub open spec fn run_result(o: RunOutcome) -> ResultView {
    match o {
        RunOutcome::Finished { code, stdout, stderr } => success(
            Json::Object(
                Map::empty().insert(
                    "exit_code"@,
                    match code {
                        Some(n) => Json::Int(n as int),
                        None => Json::Null,
                    },
                ).insert("stdout"@, Json::Str(text::lossy(stdout@))).insert(
                    "stderr"@,
                    Json::Str(text::lossy(stderr@)),
                ),
            ),
        ),
        RunOutcome::Failed(reason) => failure("EXEC_FAILED"@, reason@),
        RunOutcome::TimedOut => failure("TIMEOUT"@, "command timed out"@),
    }
}

/// The result of launching a dev session: its process ID, zero where that is
/// not known, or why it could not be launched.
pub open spec fn launch_result(
    l: LaunchView,
    binary: Seq<char>,
    o: Result<Option<u32>, String>,
) -> ResultView {
    match o {
        Ok(pid) => success(
            Json::Object(
                Map::empty().insert(
                    "pid"@,
                    match pid {
                        Some(n) => Json::Int(n as int),
                        None => Json::Int(0),
                    },
                ).insert("binary"@, Json::Str(binary)).insert("model"@, Json::Str(l.model)).insert(
                    "cwd"@,
                    json::or_null(protocol::maybe_string(l.cwd)),
                ),
            ),
        ),
        Err(reason) => failure("LAUNCH_FAILED"@, reason@),
    }
}

/// The lines of a text, without white space around them and without empty ones.
pub open spec fn full_lines(s: Seq<char>) -> Seq<Seq<char>> {
    trimmed_all(text::split(s, '\n'))
}

/// Texts without white space around them and without empty ones.
pub open spec fn trimmed_all(list: Seq<Seq<char>>) -> Seq<Seq<char>>
    decreases list.len(),
{
    if list.len() == 0 {
        Seq::empty()
    } else {
        let head = trimmed_all(list.drop_last());
        let last = text::trim(list.last());
        if last.len() == 0 {
            head
        } else {
            head.push(last)
        }
    }
}

/// The lines of a text, without white space around them and without empty ones.
pub fn lines(s: &str) -> (r: Vec<String>)
    ensures
        text::texts(r@) == full_lines(s@),
{
    let all = pieces(s, '\n');
    let ghost whole = text::texts(all@);
    let mut out: Vec<String> = Vec::new();
    proof {
        assert(text::texts(out@) =~= Seq::<Seq<char>>::empty());
        assert(whole.take(0) =~= Seq::<Seq<char>>::empty());
    }
    for i in 0..all.len()
        invariant
            whole == text::texts(all@),
            text::texts(out@) == trimmed_all(whole.take(i as int)),
    {
        let line = trimmed(all[i].as_str());
        let ghost shorter = out@;
        proof {
            assert(whole.take(i + 1).drop_last() =~= whole.take(i as int));
            assert(whole.take(i + 1).last() == all@[i as int]@);
            reveal_strlit("");
            assert(line@.len() == 0 ==> line@ =~= ""@);
        }
        if !same(line.as_str(), "") {
            out.push(line);
            assert(text::texts(out@) =~= text::texts(shorter).push(line@));
        }
    }
    assert(whole.take(all@.len() as int) =~= whole);
    out
}

/// The processes that a search has found: one in each line of what it has
/// written; none where it could not be made.
pub open spec fn found(output: Option<Seq<char>>) -> Seq<Seq<char>> {
    match output {
        Some(s) => full_lines(s),
        None => Seq::empty(),
    }
}

/// The result of looking for dev sessions.
pub open spec fn status_result(pids: Seq<Seq<char>>) -> ResultView {
    success(
        Json::Object(
            Map::empty().insert("running"@, Json::Bool(pids.len() > 0)).insert(
                "pids"@,
                json::json_texts(pids),
            ),
        ),
    )
}

/// What an optional output reads as.
pub open spec fn output_text(output: Option<Vec<u8>>) -> Option<Seq<char>> {
    match output {
        Some(bytes) => Some(text::lossy(bytes@)),
        None => None,
    }
}

/// The result of looking for dev sessions, given the text that the search has written.
pub fn dev_status(output: Option<String>) -> (r: CommandResult)
    ensures
        r@ == status_result(found(text::optional(output))),
{
    let pids: Vec<String> = match output {
        Some(s) => lines(s.as_str()),
        None => Vec::new(),
    };
    proof {
        if output is None {
            assert(text::texts(pids@) =~= Seq::<Seq<char>>::empty());
        }
        assert(text::texts(pids@).len() == pids@.len());
    }
    let mut o = ObjectBuilder::new();
    o.put("running", JsonValue::Bool(pids.len() > 0));
    o.put("pids", JsonValue::texts(&pids));
    CommandResult::success(o.build())
}

impl CommandDispatcher {
    /// The result of `system.info`.
    pub fn handle_system_info(&self, info: SystemInfo) -> (r: CommandResult)
        ensures
            r@ == success(info_json(info)),
    {
        let hostname = match info.hostname {
            Some(name) => Some(name),
            None => info.host,
        };
        let mut o = ObjectBuilder::new();
        o.put("os", JsonValue::String(info.os));
        o.put("arch", JsonValue::String(info.arch));
        o.put("hostname", text_or_empty(hostname));
        o.put("home", text_or_empty(info.home));
        o.put("cwd", text_or_empty(info.cwd));
        o.put("shell", text_or_empty(info.shell));
        o.put("user", text_or_empty(info.user));
        CommandResult::success(o.build())
    }

    /// The result of `system.run`.
    pub fn ran(&self, outcome: RunOutcome) -> (r: CommandResult)
        ensures
            r@ == run_result(outcome),
    {
        match outcome {
            RunOutcome::Finished { code, stdout, stderr } => {
                let mut o = ObjectBuilder::new();
                o.put("exit_code", code_value(code));
                o.put("stdout", JsonValue::String(utf8_lossy(stdout.as_slice())));
                o.put("stderr", JsonValue::String(utf8_lossy(stderr.as_slice())));
                CommandResult::success(o.build())
            },
            RunOutcome::Failed(reason) => CommandResult::error("EXEC_FAILED", reason.as_str()),
            RunOutcome::TimedOut => CommandResult::error("TIMEOUT", "command timed out"),
        }
    }

    /// The result of `dev.launch`.
    pub fn launched(&self, launch: &Launch, binary: &str, outcome: Result<Option<u32>, String>) -> (r:
        CommandResult)
        ensures
            r@ == launch_result(launch@, binary@, outcome),
    {
        match outcome {
            Ok(pid) => {
                let n: u32 = match pid {
                    Some(n) => n,
                    None => 0,
                };
                let mut o = ObjectBuilder::new();
                o.put("pid", JsonValue::unsigned(n as u64));
                o.put("binary", JsonValue::text(binary));
                o.put("model", JsonValue::text(launch.model.as_str()));
                o.put("cwd", JsonValue::nullable(string_value(&launch.cwd)));
                CommandResult::success(o.build())
            },
            Err(reason) => CommandResult::error("LAUNCH_FAILED", reason.as_str()),
        }
    }

    /// The result of `dev.status`, given what the search for dev sessions has
    /// written, if it could be made.
    pub fn handle_dev_status(&self, output: Option<Vec<u8>>) -> (r: CommandResult)
        ensures
            r@ == status_result(found(output_text(output))),
    {
        let text = match output {
            Some(bytes) => Some(utf8_lossy(bytes.as_slice())),
            None => None,
        };
        dev_status(text)
    }
}

/// A program to run, with its arguments, for what it prints.
#[derive(Debug, Clone)]
pub struct Query {
    pub program: String,
    pub args: Vec<String>,
}

/// How to find the dev sessions that run: by their command lines.
pub fn find_dev() -> (r: Query)
    ensures
        r.program@ == "pgrep"@,
        text::texts(r.args@) == seq!["-f"@, "dev.*--model"@],
{
    let mut args: Vec<String> = Vec::new();
    args.push("-f".to_owned());
    args.push("dev.*--model".to_owned());
    assert(text::texts(args@) =~= seq!["-f"@, "dev.*--model"@]);
    Query { program: "pgrep".to_owned(), args }
}

/// How to look up the path of a program.
pub fn look_up(name: &str) -> (r: Query)
    ensures
        r.program@ == "which"@,
        text::texts(r.args@) == seq![name@],
{
    let mut args: Vec<String> = Vec::new();
    args.push(name.to_owned());
    assert(text::texts(args@) =~= seq![name@]);
    Query { program: "which".to_owned(), args }
}

/// The names that the dev binary may have, in the order in which they are looked up.
pub open spec fn dev_names() -> Seq<Seq<char>> {
    seq!["dev"@, "hanzo-dev"@, "codex"@]
}

/// The name to look up after `n` others.
pub fn dev_name(n: usize) -> (r: Option<&'static str>)
    ensures
        (r is Some) == (n < 3),
        r matches Some(s) ==> s@ == dev_names()[n as int],
{
    if n == 0 {
        Some("dev")
    } else if n == 1 {
        Some("hanzo-dev")
    } else if n == 2 {
        Some("codex")
    } else {
        None
    }
}

/// The dev binary, given what looking up the names in turn has given: the
/// first path, or just "dev" where there is none. `None` where more is to be
/// looked up.
pub open spec fn dev_binary(answers: Seq<Option<Seq<char>>>) -> Option<Seq<char>>
    decreases answers.len(),
{
    if answers.len() == 0 {
        None
    } else {
        match dev_binary(answers.drop_last()) {
            Some(path) => Some(path),
            None => match answers.last() {
                Some(path) => Some(text::trim(path)),
                None => if answers.len() >= 3 {
                    Some("dev"@)
                } else {
                    None
                },
            },
        }
    }
}

/// What optional texts hold.
pub open spec fn optionals(list: Seq<Option<String>>) -> Seq<Option<Seq<char>>> {
    list.map_values(|s: Option<String>| text::optional(s))
}

/// What optional outputs read as.
pub open spec fn output_texts(list: Seq<Option<Vec<u8>>>) -> Seq<Option<Seq<char>>> {
    list.map_values(|o: Option<Vec<u8>>| output_text(o))
}

/// Finds the dev binary among texts that looking it up has given.
pub fn pick_dev(answers: &Vec<Option<String>>) -> (r: Option<String>)
    ensures
        text::optional(r) == dev_binary(optionals(answers@)),
{
    let ghost whole = optionals(answers@);
    assert(whole.take(0) =~= Seq::<Option<Seq<char>>>::empty());
    for i in 0..answers.len()
        invariant
            whole == optionals(answers@),
            dev_binary(whole.take(i as int)) is None,
    {
        proof {
            assert(whole.take(i + 1).drop_last() =~= whole.take(i as int));
            assert(whole.take(i + 1).last() == text::optional(answers@[i as int]));
        }
        match &answers[i] {
            Some(path) => {
                let r = trimmed(path.as_str());
                proof {
                    decided_early(whole, i + 1);
                }
                return Some(r);
            },
            None => {
                if i >= 2 {
                    proof {
                        decided_early(whole, i + 1);
                    }
                    return Some("dev".to_owned());
                }
            },
        }
    }
    assert(whole.take(answers@.len() as int) =~= whole);
    None
}

/// Once the dev binary is found, what comes after does not matter.
proof fn decided_early(answers: Seq<Option<Seq<char>>>, n: int)
    requires
        0 <= n <= answers.len(),
        dev_binary(answers.take(n)) is Some,
    ensures
        dev_binary(answers) == dev_binary(answers.take(n)),
    decreases answers.len() - n,
{
    if n == answers.len() {
        assert(answers.take(n) =~= answers);
    } else {
        assert(answers.take(n + 1).drop_last() =~= answers.take(n));
        decided_early(answers, n + 1);
    }
}

/// Find the dev binary: `answers` holds, for each name that has been looked up
/// so far, what the search has written where it has found something.
pub fn which_dev(answers: &Vec<Option<Vec<u8>>>) -> (r: Option<String>)
    ensures
        text::optional(r) == dev_binary(output_texts(answers@)),
{
    let mut read: Vec<Option<String>> = Vec::new();
    for i in 0..answers.len()
        invariant
            read@.len() == i,
            forall|k: int|
                0 <= k < i ==> text::optional(#[trigger] read@[k]) == output_text(answers@[k]),
    {
        let text = match &answers[i] {
            Some(bytes) => Some(utf8_lossy(bytes.as_slice())),
            None => None,
        };
        read.push(text);
    }
    assert(optionals(read@) =~= output_texts(answers@));
    pick_dev(&read)
}

/// The search for the dev binary is over once all its names have been looked up.
pub proof fn search_ends(answers: Seq<Option<Seq<char>>>)
    requires
        answers.len() >= 3,
    ensures
        dev_binary(answers) is Some,
{
}

/// The name of a terminal event upstream.
pub open spec fn upstream_name(e: TerminalEventView) -> Seq<char> {
    match e {
        TerminalEventView::Output(_, _) => "terminal.output"@,
        TerminalEventView::Exit(_, _) => "terminal.exit"@,
    }
}

/// The data of a terminal event upstream.
pub open spec fn upstream_data(e: TerminalEventView) -> Json {
    match e {
        TerminalEventView::Output(session_id, data) => terminal::output_json(session_id, data),
        TerminalEventView::Exit(session_id, code) => terminal::exit_json(session_id, code),
    }
}

fn upstream(event: TerminalEvent) -> (r: (&'static str, JsonValue))
    ensures
        r.0@ == upstream_name(event@),
        r.1@ == upstream_data(event@),
{
    match event {
        TerminalEvent::Output { session_id, data } => (
            "terminal.output",
            TerminalOutputData { session_id, data }.to_value(),
        ),
        TerminalEvent::Exit { session_id, exit_code } => (
            "terminal.exit",
            TerminalExitData { session_id, exit_code }.to_value(),
        ),
    }
}

/// A terminal event as a node event.
pub fn node_event(conn: &GatewayConnection, event: TerminalEvent) -> (r: GatewayFrame)
    ensures
        r@ is Req && ident::is_uuid(r@->Req_id),
        r@ == gateway::event_frame(
            r@->Req_id,
            upstream_name(event@),
            Some(upstream_data(event@)),
        ),
        gateway::carries(r@, Some(upstream_data(event@))),
{
    let (name, data) = upstream(event);
    conn.send_node_event(name, Some(data))
}

/// A terminal event as a tunnel event frame.
pub fn tunnel_event(conn: &TunnelConnection, event: TerminalEvent) -> (r: Frame)
    ensures
        r@ == tunnel::event_frame(upstream_name(event@), upstream_data(event@)),
{
    let (name, data) = upstream(event);
    conn.send_event(name, data)
}

/// What has happened in the loop that dispatches requests of the gateway.
pub enum DispatchEvent {
    /// A request has come, or the connection is closed.
    Received(Option<NodeInvokeRequest>),
    /// The request has been handled.
    Handled(CommandResult),
    /// The result has been sent, or could not be.
    Sent(bool),
}

/// What to do next in the loop that dispatches requests of the gateway.
pub enum DispatchAction {
    /// Wait for the next request.
    Receive,
    /// Dispatch a request.
    Dispatch(NodeInvokeRequest),
    /// Send the result of a request.
    Send(GatewayFrame),
    /// Stop.
    Stop,
}

/// What a [`DispatchEvent`] says.
pub enum DispatchEventOf {
    Received(Option<InvokeView>),
    Handled(ResultView),
    Sent(bool),
}

/// What a [`DispatchAction`] says.
pub enum DispatchActionOf {
    Receive,
    Dispatch(InvokeView),
    Send(GatewayFrameView),
    Stop,
}

impl View for DispatchEvent {
    type V = DispatchEventOf;

    open spec fn view(&self) -> DispatchEventOf {
        match *self {
            DispatchEvent::Received(r) => DispatchEventOf::Received(
                match r {
                    Some(r) => Some(r@),
                    None => None,
                },
            ),
            DispatchEvent::Handled(r) => DispatchEventOf::Handled(r@),
            DispatchEvent::Sent(b) => DispatchEventOf::Sent(b),
        }
    }
}

impl View for DispatchAction {
    type V = DispatchActionOf;

    open spec fn view(&self) -> DispatchActionOf {
        match *self {
            DispatchAction::Receive => DispatchActionOf::Receive,
            DispatchAction::Dispatch(r) => DispatchActionOf::Dispatch(r@),
            DispatchAction::Send(f) => DispatchActionOf::Send(f@),
            DispatchAction::Stop => DispatchActionOf::Stop,
        }
    }
}

/// What to do about an event of the dispatch loop, and the ID of the request
/// that is being handled then; `id` is the ID of the frame where one is sent.
/// Each request is answered once, under its own ID.
pub open spec fn on_dispatch(
    node_id: Seq<char>,
    handling: Option<Seq<char>>,
    id: Seq<char>,
    e: DispatchEventOf,
) -> (Option<Seq<char>>, DispatchActionOf) {
    match e {
        DispatchEventOf::Received(Some(req)) => (Some(req.id), DispatchActionOf::Dispatch(req)),
        DispatchEventOf::Received(None) => (handling, DispatchActionOf::Stop),
        DispatchEventOf::Handled(r) => match handling {
            Some(request_id) => (
                None,
                DispatchActionOf::Send(
                    gateway::result_frame(id, request_id, node_id, r.ok, r.payload, r.error),
                ),
            ),
            None => (None, DispatchActionOf::Receive),
        },
        DispatchEventOf::Sent(done) => (
            handling,
            if done {
                DispatchActionOf::Receive
            } else {
                DispatchActionOf::Stop
            },
        ),
    }
}

/// Run the command dispatch loop: one turn of it. `handling` is the ID of the
/// request that is being handled.
///
/// Receives node.invoke requests from the gateway connection, dispatches them
/// to the command dispatcher, and sends results back.
pub fn run_dispatch_loop(
    conn: &GatewayConnection,
    handling: &mut Option<String>,
    event: DispatchEvent,
) -> (r: DispatchAction)
    ensures
        r@ matches DispatchActionOf::Send(f) ==> {
            &&& f is Req && ident::is_uuid(f->Req_id)
            &&& event@ matches DispatchEventOf::Handled(done) && gateway::carries(f, done.payload)
            &&& (text::optional(*final(handling)), r@) == on_dispatch(
                conn.node_id@,
                text::optional(*old(handling)),
                f->Req_id,
                event@,
            )
        },
        !(r@ is Send) ==> (text::optional(*final(handling)), r@) == on_dispatch(
            conn.node_id@,
            text::optional(*old(handling)),
            Seq::empty(),
            event@,
        ),
{
    match event {
        DispatchEvent::Received(req) => match req {
            Some(req) => {
                *handling = Some(req.id.clone());
                DispatchAction::Dispatch(req)
            },
            None => DispatchAction::Stop,
        },
        DispatchEvent::Handled(result) => match handling.take() {
            Some(request_id) => DispatchAction::Send(
                conn.send_invoke_result(
                    request_id.as_str(),
                    result.ok,
                    result.payload,
                    result.error,
                ),
            ),
            None => DispatchAction::Receive,
        },
        DispatchEvent::Sent(done) => if done {
            DispatchAction::Receive
        } else {
            DispatchAction::Stop
        },
    }
}

/// What has happened in the loop that dispatches commands of the tunnel.
pub enum TunnelEvent {
    /// A frame has come, or the connection is closed.
    Received(Option<Frame>),
    /// The command has been handled.
    Handled(CommandResult),
    /// The response has been sent, or could not be.
    Sent(bool),
}

/// What to do next in the loop that dispatches commands of the tunnel.
pub enum TunnelAction {
    /// Wait for the next frame.
    Receive,
    /// Dispatch a request.
    Dispatch(NodeInvokeRequest),
    /// Send a response.
    Send(Frame),
    /// Stop.
    Stop,
}

/// What a [`TunnelEvent`] says.
pub enum TunnelEventOf {
    Received(Option<FrameView>),
    Handled(ResultView),
    Sent(bool),
}

/// What a [`TunnelAction`] says.
pub enum TunnelActionOf {
    Receive,
    Dispatch(InvokeView),
    Send(FrameView),
    Stop,
}

impl View for TunnelEvent {
    type V = TunnelEventOf;

    open spec fn view(&self) -> TunnelEventOf {
        match *self {
            TunnelEvent::Received(f) => TunnelEventOf::Received(protocol::seen_frame(f)),
            TunnelEvent::Handled(r) => TunnelEventOf::Handled(r@),
            TunnelEvent::Sent(b) => TunnelEventOf::Sent(b),
        }
    }
}

impl View for TunnelAction {
    type V = TunnelActionOf;

    open spec fn view(&self) -> TunnelActionOf {
        match *self {
            TunnelAction::Receive => TunnelActionOf::Receive,
            TunnelAction::Dispatch(r) => TunnelActionOf::Dispatch(r@),
            TunnelAction::Send(f) => TunnelActionOf::Send(f@),
            TunnelAction::Stop => TunnelActionOf::Stop,
        }
    }
}

/// The response to a command that has been handled.
pub open spec fn tunnel_response(id: Seq<char>, r: ResultView) -> FrameView {
    if r.ok {
        tunnel::response_frame(id, r.payload)
    } else {
        tunnel::error_frame(
            id,
            match r.error {
                Some(e) => e.message,
                None => "unknown error"@,
            },
        )
    }
}

/// What to do about an event of the tunnel dispatch loop, and the ID of the
/// command that is being handled then: commands are dispatched and answered,
/// other frames are ignored.
pub open spec fn on_tunnel(
    instance_id: Seq<char>,
    handling: Option<Seq<char>>,
    e: TunnelEventOf,
) -> (Option<Seq<char>>, TunnelActionOf) {
    match e {
        TunnelEventOf::Received(Some(FrameView::Command(c))) => (
            Some(c.id),
            TunnelActionOf::Dispatch(
                InvokeView {
                    id: c.id,
                    node_id: instance_id,
                    command: c.method,
                    params: Some(c.params),
                    timeout_ms: None,
                },
            ),
        ),
        TunnelEventOf::Received(Some(_)) => (handling, TunnelActionOf::Receive),
        TunnelEventOf::Received(None) => (handling, TunnelActionOf::Stop),
        TunnelEventOf::Handled(r) => match handling {
            Some(id) => (None, TunnelActionOf::Send(tunnel_response(id, r))),
            None => (None, TunnelActionOf::Receive),
        },
        TunnelEventOf::Sent(done) => (
            handling,
            if done {
                TunnelActionOf::Receive
            } else {
                TunnelActionOf::Stop
            },
        ),
    }
}

/// Run command dispatch over a tunnel protocol connection: one turn of it.
/// `handling` is the ID of the command that is being handled.
///
/// Works with `TunnelConnection` (used for both cloud relay and bot gateway's
/// `/v1/tunnel` endpoint). Receives `Frame::Command` frames, has them
/// dispatched, and sends `Frame::Response` back.
pub fn run_tunnel_dispatch_loop(
    conn: &TunnelConnection,
    handling: &mut Option<String>,
    event: TunnelEvent,
) -> (r: TunnelAction)
    ensures
        (text::optional(*final(handling)), r@) == on_tunnel(
            conn.instance_id@,
            text::optional(*old(handling)),
            event@,
        ),
{
    match event {
        TunnelEvent::Received(frame) => match frame {
            Some(Frame::Command(CommandPayload { id, method, params })) => {
                *handling = Some(id.clone());
                TunnelAction::Dispatch(
                    NodeInvokeRequest {
                        id,
                        node_id: conn.instance_id.clone(),
                        command: method,
                        params: Some(params),
                        timeout_ms: None,
                    },
                )
            },
            Some(_) => TunnelAction::Receive,
            None => TunnelAction::Stop,
        },
        TunnelEvent::Handled(result) => match handling.take() {
            Some(id) => if result.ok {
                TunnelAction::Send(conn.respond(id.as_str(), result.payload))
            } else {
                let message = match result.error {
                    Some(e) => e.message,
                    None => "unknown error".to_owned(),
                };
                TunnelAction::Send(conn.respond_error(id.as_str(), message.as_str()))
            },
            None => TunnelAction::Receive,
        },
        TunnelEvent::Sent(done) => if done {
            TunnelAction::Receive
        } else {
            TunnelAction::Stop
        },
    }
}

/// A command of the tunnel is answered once, under its own ID, and with success
/// if and only if handling it was one.
pub proof fn tunnel_answers_commands(
    instance_id: Seq<char>,
    handling: Option<Seq<char>>,
    c: protocol::CommandView,
    r: ResultView,
    again: ResultView,
)
    ensures
        ({
            let got = on_tunnel(
                instance_id,
                handling,
                TunnelEventOf::Received(Some(FrameView::Command(c))),
            );
            let done = on_tunnel(instance_id, got.0, TunnelEventOf::Handled(r));
            &&& got.1 matches TunnelActionOf::Dispatch(req)
            &&& req.command == c.method && req.params == Some(c.params)
            &&& done.1 matches TunnelActionOf::Send(FrameView::Response(p))
            &&& p.id == c.id && p.ok == r.ok
            &&& on_tunnel(instance_id, done.0, TunnelEventOf::Handled(again)).1
                == TunnelActionOf::Receive
        }),
{
}

/// A request of the gateway is answered once, under its own ID, and with
/// success if and only if handling it was one.
pub proof fn gateway_answers_requests(
    node_id: Seq<char>,
    handling: Option<Seq<char>>,
    id: Seq<char>,
    req: InvokeView,
    r: ResultView,
    again: ResultView,
)
    ensures
        ({
            let got = on_dispatch(node_id, handling, id, DispatchEventOf::Received(Some(req)));
            let done = on_dispatch(node_id, got.0, id, DispatchEventOf::Handled(r));
            &&& got.1 == DispatchActionOf::Dispatch(req)
            &&& done.1 matches DispatchActionOf::Send(GatewayFrameView::Req { params, .. })
            &&& params is Some
            &&& json::json_get_str(params->0, "id"@) == Some(req.id)
            &&& json::json_get(params->0, "ok"@) == Some(Json::Bool(r.ok))
            &&& on_dispatch(node_id, done.0, id, DispatchEventOf::Handled(again)).1
                == DispatchActionOf::Receive
        }),
{
    gateway::result_echoes_request(id, req.id, node_id, r.ok, r.payload, r.error);
}

/// A result that went well has its payload and no error; one that did not has
/// its code and its message and no payload.
pub proof fn results_say_how_it_went(
    r: CommandResult,
    payload: Json,
    code: Seq<char>,
    message: Seq<char>,
)
    ensures
        r@.ok == r.ok && r@.payload == json::held(r.payload) && r@.error == gateway::seen_error(
            r.error,
        ),
        success(payload).ok && success(payload).payload == Some(payload) && success(payload).error
            is None,
        !failure(code, message).ok && failure(code, message).payload is None,
        failure(code, message).error matches Some(e) && e.code == code && e.message == message
            && e.details is None,
        invalid(message) == failure("INVALID_PARAMS"@, message),
{
}

/// The result of running a program reports the code that it ended with,
/// whatever that is, and null if and only if there is none, and what it has
/// written; a program that could not be run, or took too long, is a failure.
pub proof fn exit_code_is_reported(o: RunOutcome)
    ensures
        o matches RunOutcome::Finished { code, stdout, stderr } ==> {
            &&& run_result(o).ok && run_result(o).error is None
            &&& run_result(o).payload matches Some(p) && {
                &&& code matches Some(n) ==> json::json_get(p, "exit_code"@) == Some(
                    Json::Int(n as int),
                )
                &&& code is None ==> json::json_get(p, "exit_code"@) == Some(Json::Null)
                &&& json::json_get(p, "stdout"@) == Some(Json::Str(text::lossy(stdout@)))
                &&& json::json_get(p, "stderr"@) == Some(Json::Str(text::lossy(stderr@)))
                &&& forall|name: Seq<char>| #[trigger]
                    json::json_get(p, name) is Some ==> name == "exit_code"@ || name == "stdout"@
                        || name == "stderr"@
            }
        },
        o matches RunOutcome::Failed(reason) ==> !run_result(o).ok && run_result(o).payload is None
            && (run_result(o).error matches Some(e) && e.code == "EXEC_FAILED"@ && e.message
            == reason@),
        o is TimedOut ==> !run_result(o).ok && run_result(o).payload is None && (run_result(
            o,
        ).error matches Some(e) && e.code == "TIMEOUT"@ && e.message == "command timed out"@),
{
    reveal_strlit("exit_code");
    reveal_strlit("stdout");
    reveal_strlit("stderr");
    assert("exit_code"@.len() == 9 && "stdout"@.len() == 6 && "stderr"@.len() == 6);
    assert("stdout"@[3] == 'o' && "stderr"@[3] == 'e');
}

/// Programs that ended with different codes are reported differently.
pub proof fn exit_codes_are_told_apart(a: Option<i32>, b: Option<i32>, out: Vec<u8>, err: Vec<u8>)
    requires
        run_result(RunOutcome::Finished { code: a, stdout: out, stderr: err }) == run_result(
            RunOutcome::Finished { code: b, stdout: out, stderr: err },
        ),
    ensures
        a == b,
{
    exit_code_is_reported(RunOutcome::Finished { code: a, stdout: out, stderr: err });
    exit_code_is_reported(RunOutcome::Finished { code: b, stdout: out, stderr: err });
}

/// A dev session is reported with its process ID, zero where that is not known,
/// the binary, the model and the directory; one that could not be launched is a
/// failure.
pub proof fn launches_are_reported(
    l: LaunchView,
    binary: Seq<char>,
    pid: Option<u32>,
    reason: String,
)
    ensures
        launch_result(l, binary, Ok(pid)).ok,
        launch_result(l, binary, Ok(pid)).error is None,
        launch_result(l, binary, Ok(pid)).payload matches Some(p) && {
            &&& json::json_get(p, "pid"@) == Some(
                Json::Int(
                    if pid is Some {
                        pid->0 as int
                    } else {
                        0
                    },
                ),
            )
            &&& json::json_get(p, "binary"@) == Some(Json::Str(binary))
            &&& json::json_get(p, "model"@) == Some(Json::Str(l.model))
            &&& json::json_get(p, "cwd"@) == Some(
                match l.cwd {
                    Some(d) => Json::Str(d),
                    None => Json::Null,
                },
            )
            &&& forall|name: Seq<char>| #[trigger]
                json::json_get(p, name) is Some ==> name == "pid"@ || name == "binary"@ || name
                    == "model"@ || name == "cwd"@
        },
        !launch_result(l, binary, Err(reason)).ok,
        launch_result(l, binary, Err(reason)).payload is None,
        launch_result(l, binary, Err(reason)).error matches Some(e) && e.code == "LAUNCH_FAILED"@
            && e.message == reason@,
{
    reveal_strlit("pid");
    reveal_strlit("binary");
    reveal_strlit("model");
    reveal_strlit("cwd");
    assert("pid"@.len() == 3 && "binary"@.len() == 6 && "model"@.len() == 5 && "cwd"@.len() == 3);
    assert("pid"@[0] == 'p' && "cwd"@[0] == 'c');
}

/// What is run and launched says what its fields hold.
pub proof fn programs_say_their_fields(r: Run, l: Launch)
    ensures
        r@.shell == r.shell@ && r@.cmd == r.cmd@ && r@.cwd == text::optional(r.cwd)
            && r@.timeout_ms == r.timeout_ms,
        l@.message == l.message@ && l@.cwd == text::optional(l.cwd) && l@.model == l.model@,
{
}

/// What a step says is what it holds.
pub proof fn steps_say_what_they_hold(s: Step)
    ensures
        s matches Step::Done(r) ==> s@ == StepView::Done(r@),
        s matches Step::Custom(n, p) ==> s@ == StepView::Custom(n as int, p@),
        s matches Step::Open(p) ==> s@ == StepView::Open(p@),
        s matches Step::Unreadable(p) ==> s@ == StepView::Unreadable(p@),
        s matches Step::Input(i, d) ==> s@ == StepView::Input(i@, d@),
        s is Describe <==> s@ is Describe,
        s matches Step::Run(p) ==> s@ == StepView::Run(p@),
        s matches Step::Launch(p) ==> s@ == StepView::Launch(p@),
        s is FindDev <==> s@ is FindDev,
{
}

/// A dev session is launched with the model, and with the message if and only
/// if there is one.
pub proof fn dev_sessions_get_their_arguments(l: LaunchView)
    ensures
        launch_args(l)[0] == "--model"@,
        launch_args(l)[1] == l.model,
        l.message.len() == 0 ==> launch_args(l).len() == 2,
        l.message.len() > 0 ==> launch_args(l).len() == 3 && launch_args(l)[2] == l.message,
{
}

/// A size is the number that was given, as far as it fits, and the usual one
/// where none was.
pub proof fn sizes_are_the_given_ones(n: u64, usual: u16)
    ensures
        size_of(None, usual) == usual,
        n <= 65535 ==> size_of(Some(n), usual) == n,
        size_of(Some(n), usual) as int == n as int % 65536,
{
}

/// The built-in commands are these nine.
pub proof fn builtins_are_these(command: Seq<char>)
    ensures
        builtins().contains(command) <==> command == "terminal.open"@ || command
            == "terminal.input"@ || command == "terminal.close"@ || command == "terminal.resize"@
            || command == "terminal.list"@ || command == "system.info"@ || command
            == "system.run"@ || command == "dev.launch"@ || command == "dev.status"@,
        builtins().len() == 9,
{
    let b = builtins();
    assert(b[0] == "terminal.open"@ && b[1] == "terminal.input"@ && b[2] == "terminal.close"@
        && b[3] == "terminal.resize"@ && b[4] == "terminal.list"@ && b[5] == "system.info"@ && b[6]
        == "system.run"@ && b[7] == "dev.launch"@ && b[8] == "dev.status"@);
    if b.contains(command) {
        let i = choose|i: int| 0 <= i < b.len() && b[i] == command;
        assert(0 <= i < 9);
    }
}

/// The names of the built-in commands, by which all of them are told apart.
proof fn all_command_names()
    ensures
        "terminal.open"@.len() == 13 && "terminal.open"@[9] == 'o',
        "terminal.list"@.len() == 13 && "terminal.list"@[9] == 'l',
        "terminal.input"@.len() == 14 && "terminal.input"@[9] == 'i',
        "terminal.close"@.len() == 14 && "terminal.close"@[9] == 'c',
        "terminal.resize"@.len() == 15,
        "system.info"@.len() == 11 && "system.run"@.len() == 10 && "system.run"@[0] == 's',
        "dev.launch"@.len() == 10 && "dev.launch"@[0] == 'd' && "dev.launch"@[4] == 'l',
        "dev.status"@.len() == 10 && "dev.status"@[0] == 'd' && "dev.status"@[4] == 's',
{
    reveal_strlit("terminal.open");
    reveal_strlit("terminal.list");
    reveal_strlit("terminal.input");
    reveal_strlit("terminal.close");
    reveal_strlit("terminal.resize");
    reveal_strlit("system.info");
    reveal_strlit("system.run");
    reveal_strlit("dev.launch");
    reveal_strlit("dev.status");
}

/// `system.run` runs the command that is given under `cmd`, or else under
/// `command`, with the user's shell, in the directory and within the time that
/// are given; without a command there is nothing to run.
pub proof fn command_asked_for_is_run(
    d: DispatcherView,
    sessions: Map<Seq<char>, SessionView>,
    req: InvokeView,
    users_shell: Option<Seq<char>>,
    p: Json,
)
    requires
        req.command == "system.run"@,
        !d.handlers.contains(req.command),
        req.params == Some(p),
    ensures
        ({
            let step = step_for(d, sessions, req, users_shell);
            &&& step is Run <==> (json::json_get(p, "cmd"@) matches Some(Json::Str(_)))
                || (json::json_get(p, "command"@) matches Some(Json::Str(_)))
            &&& step matches StepView::Run(r) ==> {
                &&& json::json_get(p, "cmd"@) matches Some(Json::Str(c)) ==> r.cmd == c
                &&& !(json::json_get(p, "cmd"@) matches Some(Json::Str(_))) ==> json::json_get(
                    p,
                    "command"@,
                ) == Some(Json::Str(r.cmd))
                &&& users_shell matches Some(s) ==> r.shell == s
                &&& users_shell is None ==> r.shell == "/bin/sh"@
                &&& match json::json_get(p, "cwd"@) {
                    Some(Json::Str(w)) => r.cwd == Some(w),
                    _ => r.cwd is None,
                }
                &&& match json::json_get(p, "timeout_ms"@) {
                    Some(Json::Int(n)) => if 0 <= n <= u64::MAX {
                        r.timeout_ms == n
                    } else {
                        r.timeout_ms == 30_000
                    },
                    _ => r.timeout_ms == 30_000,
                }
            }
            &&& !(step is Run) ==> (step matches StepView::Done(r) && !r.ok && r.payload is None && (
            r.error matches Some(e) && e.code == "INVALID_PARAMS"@ && e.message == "missing cmd"@))
        }),
{
    all_command_names();
    newest_is_last(d.handlers, req.command);
}

/// `dev.launch` launches a session with the model, the message and the
/// directory that are given; it is never refused for its parameters.
pub proof fn dev_session_asked_for_is_launched(
    d: DispatcherView,
    sessions: Map<Seq<char>, SessionView>,
    req: InvokeView,
    users_shell: Option<Seq<char>>,
    p: Json,
)
    requires
        req.command == "dev.launch"@,
        !d.handlers.contains(req.command),
        req.params == Some(p),
    ensures
        ({
            &&& step_for(d, sessions, req, users_shell) matches StepView::Launch(l)
            &&& match json::json_get(p, "model"@) {
                Some(Json::Str(m)) => l.model == m,
                _ => l.model == d.usual_model,
            }
            &&& match json::json_get(p, "message"@) {
                Some(Json::Str(m)) => l.message == m,
                _ => l.message.len() == 0,
            }
            &&& match json::json_get(p, "cwd"@) {
                Some(Json::Str(w)) => l.cwd == Some(w),
                _ => l.cwd is None,
            }
        }),
{
    all_command_names();
    newest_is_last(d.handlers, req.command);
}

/// `terminal.open` opens the session that its parameters ask for, and complains
/// about parameters that cannot be read.
pub proof fn terminal_asked_for_is_opened(
    d: DispatcherView,
    sessions: Map<Seq<char>, SessionView>,
    req: InvokeView,
    users_shell: Option<Seq<char>>,
    p: Json,
)
    requires
        req.command == "terminal.open"@,
        !d.handlers.contains(req.command),
        req.params == Some(p),
    ensures
        terminal::open_of(p) matches Some(o) ==> step_for(d, sessions, req, users_shell)
            == StepView::Open(o),
        terminal::open_of(p) is None ==> step_for(d, sessions, req, users_shell)
            == StepView::Unreadable(p),
        session_step(d, req) is None,
{
    all_command_names();
    newest_is_last(d.handlers, req.command);
}

/// A request to open a terminal with a shell of its own ends with that shell,
/// whatever the user's is.
pub proof fn terminal_gets_its_shell(
    d: DispatcherView,
    sessions: Map<Seq<char>, SessionView>,
    req: InvokeView,
    users_shell: Option<Seq<char>>,
    m: Map<Seq<char>, Json>,
    shell: Seq<char>,
    id: Seq<char>,
)
    requires
        req.command == "terminal.open"@,
        !d.handlers.contains(req.command),
        req.params == Some(Json::Object(m)),
        m.contains_key("shell"@) && m["shell"@] == Json::Str(shell),
        terminal::open_of(Json::Object(m)) is Some,
    ensures
        step_for(d, sessions, req, users_shell) matches StepView::Open(o) && terminal::spawn_for(
            id,
            o,
            users_shell,
        ).shell == shell,
{
    let p = Json::Object(m);
    terminal_asked_for_is_opened(d, sessions, req, users_shell, p);
    let o = terminal::open_of(p)->0;
    terminal::requests_for_sessions_are_read(p, o);
    terminal::shell_asked_for_is_started(id, o, users_shell, users_shell);
}

/// `terminal.input` writes the text that is given to the session that is named,
/// and is refused where either is missing or there is no such session.
pub proof fn input_goes_where_it_is_sent(
    d: DispatcherView,
    sessions: Map<Seq<char>, SessionView>,
    req: InvokeView,
    users_shell: Option<Seq<char>>,
    p: Json,
)
    requires
        req.command == "terminal.input"@,
        !d.handlers.contains(req.command),
        req.params == Some(p),
    ensures
        ({
            let step = step_for(d, sessions, req, users_shell);
            match (json::json_get(p, "session_id"@), json::json_get(p, "data"@)) {
                (Some(Json::Str(id)), Some(Json::Str(data))) => if sessions.contains_key(id) {
                    step == StepView::Input(id, vstd::utf8::encode_utf8(data))
                } else {
                    is_refusal(step, "INPUT_FAILED"@, "session not found: "@ + id)
                },
                (Some(Json::Str(id)), _) => is_refusal(step, "INVALID_PARAMS"@, "missing data"@),
                _ => is_refusal(step, "INVALID_PARAMS"@, "missing session_id"@),
            }
        }),
        session_step(d, req) is None,
{
    all_command_names();
    newest_is_last(d.handlers, req.command);
}

/// Whether a step refuses a request, with this code and this message.
pub open spec fn is_refusal(s: StepView, code: Seq<char>, message: Seq<char>) -> bool {
    s matches StepView::Done(r) && !r.ok && r.payload is None && (r.error matches Some(e) && e.code
        == code && e.message == message && e.details is None)
}

/// Whether a step is done well and has nothing to tell but that.
pub open spec fn is_done(s: StepView) -> bool {
    s matches StepView::Done(r) && r.ok && r.error is None && (r.payload matches Some(
        Json::Object(m),
    ) && m.contains_key("ok"@) && m["ok"@] == Json::Bool(true) && forall|k: Seq<char>| #[trigger]
        m.contains_key(k) ==> k == "ok"@)
}

/// `terminal.close` closes the session that is named, and no other, and is
/// refused where there is none.
pub proof fn session_named_is_closed(
    d: DispatcherView,
    t: Terminals,
    req: InvokeView,
    users_shell: Option<Seq<char>>,
    p: Json,
)
    requires
        req.command == "terminal.close"@,
        !d.handlers.contains(req.command),
        req.params == Some(p),
    ensures
        ({
            let step = step_for(d, t.sessions, req, users_shell);
            let after = after_maybe(t, session_step(d, req)).sessions;
            match json::json_get(p, "session_id"@) {
                Some(Json::Str(id)) => {
                    &&& t.sessions.contains_key(id) ==> is_done(step)
                    &&& !t.sessions.contains_key(id) ==> is_refusal(
                        step,
                        "CLOSE_FAILED"@,
                        "session not found: "@ + id,
                    )
                    &&& !after.contains_key(id)
                    &&& forall|k: Seq<char>|
                        k != id ==> (#[trigger] after.contains_key(k) <==> t.sessions.contains_key(
                            k,
                        )) && (t.sessions.contains_key(k) ==> after[k] == t.sessions[k])
                },
                _ => is_refusal(step, "INVALID_PARAMS"@, "missing session_id"@) && after
                    == t.sessions,
            }
        }),
{
    all_command_names();
    newest_is_last(d.handlers, req.command);
}

/// `terminal.resize` gives the session that is named the size that is given,
/// changes nothing else, and is refused where there is no such session.
pub proof fn session_named_is_resized(
    d: DispatcherView,
    t: Terminals,
    req: InvokeView,
    users_shell: Option<Seq<char>>,
    p: Json,
)
    requires
        req.command == "terminal.resize"@,
        !d.handlers.contains(req.command),
        req.params == Some(p),
    ensures
        ({
            let step = step_for(d, t.sessions, req, users_shell);
            let after = after_maybe(t, session_step(d, req)).sessions;
            match json::json_get(p, "session_id"@) {
                Some(Json::Str(id)) => {
                    &&& t.sessions.contains_key(id) ==> is_done(step)
                    &&& !t.sessions.contains_key(id) ==> is_refusal(
                        step,
                        "RESIZE_FAILED"@,
                        "session not found: "@ + id,
                    )
                    &&& t.sessions.contains_key(id) ==> after.contains_key(id) && after[id].shell
                        == t.sessions[id].shell && after[id].pid == t.sessions[id].pid
                        && after[id].session_id == t.sessions[id].session_id
                    &&& t.sessions.contains_key(id) ==> match json::json_get(p, "cols"@) {
                        Some(Json::Int(n)) => 0 <= n <= 65535 ==> after[id].cols == n,
                        _ => after[id].cols == 80,
                    }
                    &&& t.sessions.contains_key(id) ==> match json::json_get(p, "rows"@) {
                        Some(Json::Int(n)) => 0 <= n <= 65535 ==> after[id].rows == n,
                        _ => after[id].rows == 24,
                    }
                    &&& forall|k: Seq<char>|
                        k != id ==> (#[trigger] after.contains_key(k) <==> t.sessions.contains_key(
                            k,
                        )) && (t.sessions.contains_key(k) ==> after[k] == t.sessions[k])
                },
                _ => is_refusal(step, "INVALID_PARAMS"@, "missing session_id"@) && after
                    == t.sessions,
            }
        }),
{
    all_command_names();
    newest_is_last(d.handlers, req.command);
}

/// The other requests: the system is described, dev sessions are looked for,
/// sessions are listed, and what is unknown is refused by its name; none of
/// these does anything to a session.
pub proof fn other_requests_are_answered(
    d: DispatcherView,
    sessions: Map<Seq<char>, SessionView>,
    req: InvokeView,
    users_shell: Option<Seq<char>>,
)
    requires
        !d.handlers.contains(req.command),
    ensures
        req.command == "system.info"@ ==> step_for(d, sessions, req, users_shell)
            == StepView::Describe,
        req.command == "dev.status"@ ==> step_for(d, sessions, req, users_shell)
            == StepView::FindDev,
        asks_for_list(d, req) <==> req.command == "terminal.list"@,
        !builtins().contains(req.command) ==> is_refusal(
            step_for(d, sessions, req, users_shell),
            "UNKNOWN_COMMAND"@,
            "unknown command: "@ + req.command,
        ),
        req.command != "terminal.close"@ && req.command != "terminal.resize"@ ==> session_step(
            d,
            req,
        ) is None,
{
    all_command_names();
    newest_is_last(d.handlers, req.command);
    builtins_are_these(req.command);
}

/// A custom handler takes a request whatever its command, with its parameters,
/// or null where it has none, and does nothing to a session; without one the
/// parameters that are missing count as null too.
pub proof fn custom_handlers_take_requests(
    d: DispatcherView,
    sessions: Map<Seq<char>, SessionView>,
    req: InvokeView,
    users_shell: Option<Seq<char>>,
)
    ensures
        is_custom(d, req.command) <==> d.handlers.contains(req.command),
        d.handlers.contains(req.command) ==> (step_for(d, sessions, req, users_shell)
            matches StepView::Custom(n, p) && 0 <= n < d.handlers.len() && d.handlers[n]
            == req.command && p == (match req.params {
            Some(p) => p,
            None => Json::Null,
        })) && session_step(d, req) is None && !asks_for_list(d, req),
        params_of(req) == (match req.params {
            Some(p) => p,
            None => Json::Null,
        }),
{
    newest_is_last(d.handlers, req.command);
}

/// A list of sessions that was made is the array of their documents.
proof fn list_is_made(r: ResultView, sessions: Map<Seq<char>, SessionView>) -> (list: Seq<
    TerminalSession,
>)
    requires
        lists(r, sessions),
    ensures
        terminal::distinct(list),
        terminal::table(list) == sessions,
        r == success(sessions_json(list)),
{
    choose|list: Seq<TerminalSession>|
        terminal::distinct(list) && #[trigger] terminal::table(list) == sessions && r == success(
            sessions_json(list),
        )
}

/// Each session that there is stands in the list, with its own document.
pub proof fn every_session_is_listed(
    r: ResultView,
    sessions: Map<Seq<char>, SessionView>,
    id: Seq<char>,
) -> (i: int)
    requires
        lists(r, sessions),
        sessions.contains_key(id),
    ensures
        r.ok && r.error is None,
        r.payload matches Some(Json::Array(a)) && 0 <= i < a.len() && a[i]
            == terminal::session_json(sessions[id]) && json::json_get(a[i], "session_id"@) == Some(
            Json::Str(id),
        ),
{
    let list = list_is_made(r, sessions);
    terminal::table_holds(list);
    let i = choose|i: int| 0 <= i < list.len() && (#[trigger] list[i])@ == sessions[id];
    assert(sessions_json(list)->Array_0[i] == terminal::session_json(list[i]@));
    terminal::sessions_are_written(sessions[id]);
    i
}

/// Each document in the list is that of a session that there is.
pub proof fn only_sessions_are_listed(
    r: ResultView,
    sessions: Map<Seq<char>, SessionView>,
    i: int,
) -> (id: Seq<char>)
    requires
        lists(r, sessions),
        r.payload matches Some(Json::Array(a)) && 0 <= i < a.len(),
    ensures
        sessions.contains_key(id),
        r.payload matches Some(Json::Array(a)) && a[i] == terminal::session_json(sessions[id]),
{
    let list = list_is_made(r, sessions);
    terminal::table_holds(list);
    assert(sessions_json(list)->Array_0[i] == terminal::session_json(list[i]@));
    list[i].session_id@
}

/// No session is listed twice.
pub proof fn sessions_are_listed_once(
    r: ResultView,
    sessions: Map<Seq<char>, SessionView>,
    i: int,
    k: int,
)
    requires
        lists(r, sessions),
        r.payload matches Some(Json::Array(a)) && 0 <= i < k < a.len(),
    ensures
        r.payload matches Some(Json::Array(a)) && json::json_get(a[i], "session_id"@)
            != json::json_get(a[k], "session_id"@),
{
    let list = list_is_made(r, sessions);
    let a = sessions_json(list)->Array_0;
    assert(a[i] == terminal::session_json(list[i]@));
    assert(a[k] == terminal::session_json(list[k]@));
    terminal::sessions_are_written(list[i]@);
    terminal::sessions_are_written(list[k]@);
    assert(list[i].session_id@ != list[k].session_id@);
}

/// What came of opening, of writing and of closing is reported: the session, or
/// why there is none.
pub proof fn outcomes_are_reported(
    s: SessionView,
    e: Seq<char>,
    code: Seq<char>,
)
    ensures
        open_result(Ok(s)).ok && open_result(Ok(s)).error is None && open_result(Ok(s)).payload
            == Some(terminal::session_json(s)),
        is_refusal(StepView::Done(open_result(Err(e))), "SPAWN_FAILED"@, e),
        is_done(StepView::Done(plain_result(Ok(()), code))),
        is_refusal(StepView::Done(plain_result(Err(e), code)), code, e),
{
}

/// The description of a system says of each thing what the environment says,
/// and nothing where that says nothing; the host name is `HOSTNAME`, and `HOST`
/// where there is none.
pub proof fn system_is_described(i: SystemInfo)
    ensures
        json::json_get(info_json(i), "os"@) == Some(Json::Str(i.os@)),
        json::json_get(info_json(i), "arch"@) == Some(Json::Str(i.arch@)),
        i.hostname is Some ==> json::json_get(info_json(i), "hostname"@) == Some(
            Json::Str(i.hostname->0@),
        ),
        i.hostname is None && i.host is Some ==> json::json_get(info_json(i), "hostname"@) == Some(
            Json::Str(i.host->0@),
        ),
        i.hostname is None && i.host is None ==> json::json_get(info_json(i), "hostname"@) == Some(
            Json::Str(Seq::empty()),
        ),
        json::json_get(info_json(i), "home"@) == Some(
            Json::Str(
                match i.home {
                    Some(s) => s@,
                    None => Seq::empty(),
                },
            ),
        ),
        json::json_get(info_json(i), "cwd"@) == Some(
            Json::Str(
                match i.cwd {
                    Some(s) => s@,
                    None => Seq::empty(),
                },
            ),
        ),
        json::json_get(info_json(i), "shell"@) == Some(
            Json::Str(
                match i.shell {
                    Some(s) => s@,
                    None => Seq::empty(),
                },
            ),
        ),
        json::json_get(info_json(i), "user"@) == Some(
            Json::Str(
                match i.user {
                    Some(s) => s@,
                    None => Seq::empty(),
                },
            ),
        ),
{
    reveal_strlit("os");
    reveal_strlit("arch");
    reveal_strlit("hostname");
    reveal_strlit("home");
    reveal_strlit("cwd");
    reveal_strlit("shell");
    reveal_strlit("user");
    assert("os"@.len() == 2 && "arch"@.len() == 4 && "hostname"@.len() == 8 && "home"@.len() == 4
        && "cwd"@.len() == 3 && "shell"@.len() == 5 && "user"@.len() == 4);
    assert("arch"@[0] == 'a' && "home"@[0] == 'h' && "user"@[0] == 'u');
}

/// The lines of a text are its pieces between line breaks, trimmed, without
/// those that are empty then, in order.
pub proof fn lines_are_trimmed_pieces(list: Seq<Seq<char>>)
    ensures
        trimmed_all(list) == list.map_values(|l: Seq<char>| text::trim(l)).filter(
            |l: Seq<char>| l.len() > 0,
        ),
    decreases list.len(),
{
    let trim = |l: Seq<char>| text::trim(l);
    let full = |l: Seq<char>| l.len() > 0;
    reveal(Seq::filter);
    let t = list.map_values(trim);
    if list.len() > 0 {
        lines_are_trimmed_pieces(list.drop_last());
        assert(t.drop_last() =~= list.drop_last().map_values(trim));
        assert(t.last() == text::trim(list.last()));
    } else {
        assert(t =~= Seq::<Seq<char>>::empty());
        assert(t.filter(full) =~= Seq::<Seq<char>>::empty());
    }
}

/// Dev sessions are running if and only if the search has found a process, and
/// each process that it has found is reported.
pub proof fn running_sessions_are_reported(pids: Seq<Seq<char>>, s: Seq<char>)
    ensures
        status_result(pids).ok && status_result(pids).error is None,
        status_result(pids).payload matches Some(p) && {
            &&& json::json_get(p, "running"@) == Some(Json::Bool(pids.len() != 0))
            &&& json::json_get(p, "pids"@) matches Some(Json::Array(a)) && a.len() == pids.len()
                && forall|i: int| 0 <= i < a.len() ==> #[trigger] a[i] == Json::Str(pids[i])
        },
        found(None).len() == 0,
        found(Some(s)) == trimmed_all(text::split(s, '\n')),
{
    reveal_strlit("running");
    reveal_strlit("pids");
    assert("running"@.len() == 7 && "pids"@.len() == 4);
}

/// What a search has written is read as text.
pub proof fn outputs_are_read(bytes: Vec<u8>)
    ensures
        output_text(Some(bytes)) == Some(text::lossy(bytes@)),
        output_text(None) is None,
{
}

/// The dev binary is the first one that is found under its three names, without
/// the white space around its path, and just "dev" where there is none.
pub proof fn first_dev_binary_is_taken(answers: Seq<Option<Seq<char>>>, i: int)
    requires
        0 <= i <= answers.len(),
        i <= 3,
        forall|k: int| 0 <= k < i ==> (#[trigger] answers[k]) is None,
    ensures
        i < answers.len() && i < 3 && answers[i] is Some ==> dev_binary(answers) == Some(
            text::trim(answers[i]->0),
        ),
        i == 3 ==> dev_binary(answers) == Some("dev"@),
        i == answers.len() && i < 3 ==> dev_binary(answers) is None,
{
    reveal_with_fuel(dev_binary, 5);
    let head = answers.take(i);
    assert(i > 0 ==> head.drop_last() =~= answers.take(i - 1));
    assert(i > 1 ==> answers.take(i - 1).drop_last() =~= answers.take(i - 2));
    assert(i > 2 ==> answers.take(i - 2).drop_last() =~= answers.take(i - 3));
    assert(i > 0 ==> head.last() is None);
    assert(i > 1 ==> answers.take(i - 1).last() is None);
    assert(i > 2 ==> answers.take(i - 2).last() is None);
    assert(answers.take(0) =~= Seq::<Option<Seq<char>>>::empty());
    assert(i < 3 ==> dev_binary(head) is None);
    if i == 3 {
        assert(dev_binary(answers.take(2)) is None);
        decided_early(answers, 3);
    } else if i == answers.len() {
        assert(head =~= answers);
    } else if answers[i] is Some {
        assert(answers.take(i + 1).drop_last() =~= head);
        assert(answers.take(i + 1).last() == answers[i]);
        decided_early(answers, i + 1);
    }
}

/// The dev binary is looked up under these names, in this order.
pub proof fn dev_binary_has_three_names()
    ensures
        dev_names().len() == 3,
        dev_names()[0] == "dev"@,
        dev_names()[1] == "hanzo-dev"@,
        dev_names()[2] == "codex"@,
{
}

/// Terminal events go upstream under their names, with the session and what it
/// has written, or its exit code.
pub proof fn terminal_events_go_upstream(id: Seq<char>, data: Seq<char>, code: Option<i32>)
    ensures
        upstream_name(TerminalEventView::Output(id, data)) == "terminal.output"@,
        upstream_name(TerminalEventView::Exit(id, code)) == "terminal.exit"@,
        json::json_get(upstream_data(TerminalEventView::Output(id, data)), "session_id"@) == Some(
            Json::Str(id),
        ),
        json::json_get(upstream_data(TerminalEventView::Output(id, data)), "data"@) == Some(
            Json::Str(data),
        ),
        json::json_get(upstream_data(TerminalEventView::Exit(id, code)), "session_id"@) == Some(
            Json::Str(id),
        ),
        json::json_get(upstream_data(TerminalEventView::Exit(id, code)), "exit_code"@) == Some(
            match code {
                Some(n) => Json::Int(n as int),
                None => Json::Null,
            },
        ),
{
    terminal::events_are_written(id, data, code);
    reveal_strlit("session_id");
    reveal_strlit("data");
    reveal_strlit("exit_code");
    assert("session_id"@.len() == 10 && "data"@.len() == 4 && "exit_code"@.len() == 9);
}

/// What the events and the actions of the loops say is what they hold.
pub proof fn loops_say_what_they_hold(
    e: DispatchEvent,
    a: DispatchAction,
    f: TunnelEvent,
    b: TunnelAction,
)
    ensures
        e matches DispatchEvent::Received(Some(q)) ==> e@ == DispatchEventOf::Received(Some(q@)),
        e matches DispatchEvent::Handled(r) ==> e@ == DispatchEventOf::Handled(r@),
        e matches DispatchEvent::Sent(s) ==> e@ == DispatchEventOf::Sent(s),
        a matches DispatchAction::Dispatch(q) ==> a@ == DispatchActionOf::Dispatch(q@),
        a matches DispatchAction::Send(x) ==> a@ == DispatchActionOf::Send(x@),
        f matches TunnelEvent::Received(Some(x)) ==> f@ == TunnelEventOf::Received(Some(x@)),
        f matches TunnelEvent::Handled(r) ==> f@ == TunnelEventOf::Handled(r@),
        f matches TunnelEvent::Sent(s) ==> f@ == TunnelEventOf::Sent(s),
        b matches TunnelAction::Dispatch(q) ==> b@ == TunnelActionOf::Dispatch(q@),
        b matches TunnelAction::Send(x) ==> b@ == TunnelActionOf::Send(x@),
{
}

/// The dispatch loop of the gateway: a request is dispatched as it came and
/// answered with what handling it gave, under its ID and for this node; the
/// loop goes on until the connection is closed or cannot be written.
pub proof fn dispatch_loop_answers(
    node_id: Seq<char>,
    handling: Option<Seq<char>>,
    id: Seq<char>,
    req: InvokeView,
    r: ResultView,
)
    ensures
        on_dispatch(node_id, handling, id, DispatchEventOf::Received(Some(req))) == (
            Some(req.id),
            DispatchActionOf::Dispatch(req),
        ),
        on_dispatch(node_id, handling, id, DispatchEventOf::Received(None)).1 is Stop,
        on_dispatch(node_id, handling, id, DispatchEventOf::Sent(true)) == (
            handling,
            DispatchActionOf::Receive,
        ),
        on_dispatch(node_id, handling, id, DispatchEventOf::Sent(false)).1 is Stop,
        on_dispatch(node_id, None, id, DispatchEventOf::Handled(r)).1 is Receive,
        on_dispatch(node_id, Some(req.id), id, DispatchEventOf::Handled(r)).0 is None,
        ({
            &&& on_dispatch(node_id, Some(req.id), id, DispatchEventOf::Handled(r)).1
                matches DispatchActionOf::Send(
                GatewayFrameView::Req { id: frame_id, method, params: Some(p) },
            )
            &&& frame_id == id && method == "node.invoke.result"@
            &&& json::json_get(p, "id"@) == Some(Json::Str(req.id))
            &&& json::json_get(p, "nodeId"@) == Some(Json::Str(node_id))
            &&& json::json_get(p, "ok"@) == Some(Json::Bool(r.ok))
            &&& json::json_get(p, "payloadJSON"@) == Some(
                match r.payload {
                    Some(v) => Json::Str(json::text_of_json(v)),
                    None => Json::Null,
                },
            )
            &&& json::json_get(p, "error"@) matches Some(e) && match r.error {
                Some(x) => json::json_get(e, "code"@) == Some(Json::Str(x.code))
                    && json::json_get(e, "message"@) == Some(Json::Str(x.message)),
                None => e == Json::Null,
            }
        }),
{
    gateway::results_say_what_came_of_it(id, req.id, node_id, r.ok, r.payload, r.error);
}

/// The dispatch loop of the tunnel: a command is dispatched as it came and
/// answered with its payload, or with the message of its error; other frames
/// are passed over, and the loop goes on until the connection is closed or
/// cannot be written.
pub proof fn tunnel_loop_answers(
    instance_id: Seq<char>,
    handling: Option<Seq<char>>,
    f: FrameView,
    id: Seq<char>,
    r: ResultView,
)
    ensures
        f matches FrameView::Command(c) ==> {
            &&& on_tunnel(instance_id, handling, TunnelEventOf::Received(Some(f))).0 == Some(c.id)
            &&& on_tunnel(instance_id, handling, TunnelEventOf::Received(Some(f))).1
                matches TunnelActionOf::Dispatch(q)
            &&& q.id == c.id && q.node_id == instance_id && q.command == c.method && q.params
                == Some(c.params) && q.timeout_ms is None
        },
        !(f is Command) ==> on_tunnel(instance_id, handling, TunnelEventOf::Received(Some(f))) == (
            handling,
            TunnelActionOf::Receive,
        ),
        on_tunnel(instance_id, handling, TunnelEventOf::Received(None)).1 is Stop,
        on_tunnel(instance_id, handling, TunnelEventOf::Sent(true)) == (
            handling,
            TunnelActionOf::Receive,
        ),
        on_tunnel(instance_id, handling, TunnelEventOf::Sent(false)).1 is Stop,
        on_tunnel(instance_id, None, TunnelEventOf::Handled(r)).1 is Receive,
        on_tunnel(instance_id, Some(id), TunnelEventOf::Handled(r)).0 is None,
        ({
            &&& on_tunnel(instance_id, Some(id), TunnelEventOf::Handled(r)).1
                matches TunnelActionOf::Send(FrameView::Response(p))
            &&& p.id == id
            &&& p.ok == r.ok
            &&& r.ok ==> p.data == r.payload && p.error is None
            &&& !r.ok ==> p.data is None && p.error == Some(
                match r.error {
                    Some(e) => e.message,
                    None => "unknown error"@,
                },
            )
        }),
{
}

/// What a request asks for is under the names of its parameters; one without
/// parameters has none of them.
pub open spec fn asked(req: NodeInvokeRequest, name: Seq<char>) -> Option<Json> {
    match req.params {
        Some(p) => json::json_get(p@, name),
        None => None,
    }
}

/// Running a program is reported as it went: whatever code it ended with is the
/// code that is told, and what it wrote is what is told that it wrote.
pub proof fn runs_are_reported(d: &CommandDispatcher, o: RunOutcome, r: CommandResult)
    requires
        call_ensures(CommandDispatcher::ran, (d, o), r),
    ensures
        r.ok <==> o is Finished,
        o matches RunOutcome::Finished { code, stdout, stderr } ==> r.error is None && (r.payload
            matches Some(p) && {
            &&& code matches Some(n) ==> json::json_get(p@, "exit_code"@) == Some(
                Json::Int(n as int),
            )
            &&& code is None ==> json::json_get(p@, "exit_code"@) == Some(Json::Null)
            &&& json::json_get(p@, "stdout"@) == Some(Json::Str(text::lossy(stdout@)))
            &&& json::json_get(p@, "stderr"@) == Some(Json::Str(text::lossy(stderr@)))
        }),
        o matches RunOutcome::Failed(reason) ==> r.payload is None && (r.error matches Some(e)
            && e.code@ == "EXEC_FAILED"@ && e.message@ == reason@ && e.details is None),
        o is TimedOut ==> r.payload is None && (r.error matches Some(e) && e.code@ == "TIMEOUT"@
            && e.message@ == "command timed out"@ && e.details is None),
{
    exit_code_is_reported(o);
}

/// Two programs that are reported alike ended alike.
pub proof fn runs_are_told_apart(
    d: &CommandDispatcher,
    a: Option<i32>,
    b: Option<i32>,
    out: Vec<u8>,
    err: Vec<u8>,
    r: CommandResult,
    s: CommandResult,
)
    requires
        call_ensures(
            CommandDispatcher::ran,
            (d, RunOutcome::Finished { code: a, stdout: out, stderr: err }),
            r,
        ),
        call_ensures(
            CommandDispatcher::ran,
            (d, RunOutcome::Finished { code: b, stdout: out, stderr: err }),
            s,
        ),
        r@ == s@,
    ensures
        a == b,
{
    exit_codes_are_told_apart(a, b, out, err);
}

/// Launching a dev session is reported as it went.
pub proof fn launching_is_reported(
    d: &CommandDispatcher,
    launch: &Launch,
    binary: &str,
    o: Result<Option<u32>, String>,
    r: CommandResult,
)
    requires
        call_ensures(CommandDispatcher::launched, (d, launch, binary, o), r),
    ensures
        r.ok <==> o is Ok,
        o matches Ok(pid) ==> r.error is None && (r.payload matches Some(p) && {
            &&& json::json_get(p@, "pid"@) == Some(
                Json::Int(
                    match pid {
                        Some(n) => n as int,
                        None => 0,
                    },
                ),
            )
            &&& json::json_get(p@, "binary"@) == Some(Json::Str(binary@))
            &&& json::json_get(p@, "model"@) == Some(Json::Str(launch.model@))
            &&& json::json_get(p@, "cwd"@) == Some(
                match launch.cwd {
                    Some(w) => Json::Str(w@),
                    None => Json::Null,
                },
            )
        }),
        o matches Err(reason) ==> r.payload is None && (r.error matches Some(e) && e.code@
            == "LAUNCH_FAILED"@ && e.message@ == reason@),
{
    match o {
        Ok(pid) => launches_are_reported(launch@, binary@, pid, arbitrary()),
        Err(reason) => launches_are_reported(launch@, binary@, None, reason),
    }
}

/// A result that is made says what it is made with.
pub proof fn results_are_made(
    payload: JsonValue,
    a: CommandResult,
    code: &str,
    message: &str,
    b: CommandResult,
)
    requires
        call_ensures(CommandResult::success, (payload,), a),
        call_ensures(CommandResult::error, (code, message), b),
    ensures
        a.ok && a.error is None && (a.payload matches Some(p) && p@ == payload@),
        !b.ok && b.payload is None && (b.error matches Some(e) && e.code@ == code@ && e.message@
            == message@ && e.details is None),
{
}

/// Handlers are numbered in the order in which they are registered, and a
/// command is for the handler that was registered for it last.
pub proof fn handlers_are_registered(
    d: &mut CommandDispatcher,
    command: &str,
    n: usize,
    c: &CommandDispatcher,
    other: &str,
    h: Option<usize>,
    usual_model: String,
    e: CommandDispatcher,
)
    requires
        call_ensures(CommandDispatcher::register, (d, command), n),
        call_ensures(CommandDispatcher::handler, (c, other), h),
        call_ensures(CommandDispatcher::new, (usual_model,), e),
    ensures
        final(d)@.handlers.len() == old(d)@.handlers.len() + 1,
        n == old(d)@.handlers.len(),
        final(d)@.handlers[n as int] == command@,
        forall|i: int| 0 <= i < n ==> final(d)@.handlers[i] == #[trigger] old(d)@.handlers[i],
        final(d)@.usual_model == old(d)@.usual_model,
        h is None <==> !c@.handlers.contains(other@),
        h matches Some(k) ==> k < c@.handlers.len() && c@.handlers[k as int] == other@ && forall|
            i: int,
        |
            k < i < c@.handlers.len() ==> #[trigger] c@.handlers[i] != other@,
        e@.handlers.len() == 0,
        e@.usual_model == usual_model@,
{
    newest_is_last(c@.handlers, other@);
}

/// The commands that are supported are the built-in ones and those that have a
/// handler, each once, in order.
pub proof fn commands_are_supported(d: &CommandDispatcher, r: Vec<String>, command: Seq<char>)
    requires
        call_ensures(CommandDispatcher::supported_commands, (d,), r),
    ensures
        text::texts(r@).contains(command) <==> d@.handlers.contains(command) || command
            == "terminal.open"@ || command == "terminal.input"@ || command == "terminal.close"@
            || command == "terminal.resize"@ || command == "terminal.list"@ || command
            == "system.info"@ || command == "system.run"@ || command == "dev.launch"@ || command
            == "dev.status"@,
        forall|i: int, j: int|
            0 <= i < j < r@.len() ==> text::precedes((#[trigger] r@[i])@, (#[trigger] r@[j])@),
{
    builtins_are_these(command);
    let t = text::texts(r@);
    assert(t.to_set().contains(command) <==> t.contains(command));
    assert(d@.handlers.to_set().contains(command) <==> d@.handlers.contains(command));
    assert(builtins().to_set().contains(command) <==> builtins().contains(command));
    assert forall|i: int, j: int| 0 <= i < j < r@.len() implies text::precedes(
        (#[trigger] r@[i])@,
        (#[trigger] r@[j])@,
    ) by {
        assert(text::precedes(t[i], t[j]));
    }
}

/// A program is run by its shell, with the command as one argument; a dev
/// session gets its model, and its message if and only if there is one.
pub proof fn programs_get_their_arguments(
    run: &Run,
    a: Vec<String>,
    launch: &Launch,
    b: Vec<String>,
)
    requires
        call_ensures(Run::args, (run,), a),
        call_ensures(Launch::args, (launch,), b),
    ensures
        a@.len() == 2 && a@[0]@ == "-c"@ && a@[1]@ == run.cmd@,
        b@.len() == (if launch.message@.len() == 0 {
            2nat
        } else {
            3nat
        }),
        b@[0]@ == "--model"@ && b@[1]@ == launch.model@,
        b@.len() == 3 ==> b@[2]@ == launch.message@,
{
    dev_sessions_get_their_arguments(launch@);
    let s = text::texts(a@);
    let t = text::texts(b@);
    assert(s.len() == a@.len() && t.len() == b@.len());
    assert(s[0] == a@[0]@ && s[1] == a@[1]@ && t[0] == b@[0]@ && t[1] == b@[1]@);
    assert(b@.len() == 3 ==> t[2] == b@[2]@);
}

/// A custom handler takes its requests, with their parameters, and nothing
/// happens to a session.
pub proof fn handlers_get_their_requests(
    d: &CommandDispatcher,
    terminal: &mut TerminalManager,
    req: &NodeInvokeRequest,
    users_shell: Option<String>,
    r: Step,
)
    requires
        call_ensures(CommandDispatcher::dispatch, (d, terminal, req, users_shell), r),
        d@.handlers.contains(req.command@),
    ensures
        r matches Step::Custom(n, p) && {
            &&& n < d@.handlers.len() && d@.handlers[n as int] == req.command@
            &&& forall|i: int|
                n < i < d@.handlers.len() ==> #[trigger] d@.handlers[i] != req.command@
            &&& req.params matches Some(q) ==> p@ == q@
            &&& req.params is None ==> p@ == Json::Null
        },
        final(terminal)@ == old(terminal)@ && final(terminal).starting()
            == old(terminal).starting(),
{
    newest_is_last(d@.handlers, req.command@);
    custom_handlers_take_requests(d@, old(terminal)@, req@, text::optional(users_shell));
}

/// `system.run` runs what it is asked to run.
pub proof fn commands_are_run(
    d: &CommandDispatcher,
    terminal: &mut TerminalManager,
    req: &NodeInvokeRequest,
    users_shell: Option<String>,
    r: Step,
)
    requires
        call_ensures(CommandDispatcher::dispatch, (d, terminal, req, users_shell), r),
        req.command@ == "system.run"@,
        !d@.handlers.contains(req.command@),
    ensures
        r is Run <==> (asked(*req, "cmd"@) matches Some(Json::Str(_))) || (asked(*req, "command"@)
            matches Some(Json::Str(_))),
        r matches Step::Run(p) ==> {
            &&& asked(*req, "cmd"@) matches Some(Json::Str(c)) ==> p.cmd@ == c
            &&& !(asked(*req, "cmd"@) matches Some(Json::Str(_))) ==> asked(*req, "command"@)
                == Some(Json::Str(p.cmd@))
            &&& p.shell@ == (match users_shell {
                Some(s) => s@,
                None => "/bin/sh"@,
            })
            &&& text::optional(p.cwd) == (match asked(*req, "cwd"@) {
                Some(Json::Str(w)) => Some(w),
                _ => None,
            })
            &&& p.timeout_ms as int == (match asked(*req, "timeout_ms"@) {
                Some(Json::Int(n)) => if 0 <= n <= u64::MAX {
                    n
                } else {
                    30_000
                },
                _ => 30_000,
            })
        },
        !(r is Run) ==> is_refusal(r@, "INVALID_PARAMS"@, "missing cmd"@),
        final(terminal)@ == old(terminal)@ && final(terminal).starting()
            == old(terminal).starting(),
{
    all_command_names();
    newest_is_last(d@.handlers, req.command@);
}

/// `dev.launch` launches what it is asked to launch.
pub proof fn dev_sessions_are_launched(
    d: &CommandDispatcher,
    terminal: &mut TerminalManager,
    req: &NodeInvokeRequest,
    users_shell: Option<String>,
    r: Step,
)
    requires
        call_ensures(CommandDispatcher::dispatch, (d, terminal, req, users_shell), r),
        req.command@ == "dev.launch"@,
        !d@.handlers.contains(req.command@),
    ensures
        r matches Step::Launch(l) && {
            &&& l.model@ == (match asked(*req, "model"@) {
                Some(Json::Str(m)) => m,
                _ => d@.usual_model,
            })
            &&& l.message@ == (match asked(*req, "message"@) {
                Some(Json::Str(m)) => m,
                _ => Seq::empty(),
            })
            &&& text::optional(l.cwd) == (match asked(*req, "cwd"@) {
                Some(Json::Str(w)) => Some(w),
                _ => None,
            })
        },
        final(terminal)@ == old(terminal)@ && final(terminal).starting()
            == old(terminal).starting(),
{
    all_command_names();
    newest_is_last(d@.handlers, req.command@);
}

/// `terminal.open` opens the session that is asked for: its shell, its
/// directory and its size are those of the request.
pub proof fn terminals_are_opened(
    d: &CommandDispatcher,
    terminal: &mut TerminalManager,
    req: &NodeInvokeRequest,
    users_shell: Option<String>,
    r: Step,
)
    requires
        call_ensures(CommandDispatcher::dispatch, (d, terminal, req, users_shell), r),
        req.command@ == "terminal.open"@,
        !d@.handlers.contains(req.command@),
    ensures
        ({
            let p = match req.params {
                Some(p) => p@,
                None => Json::Null,
            };
            &&& r is Open || r is Unreadable
            &&& r is Open <==> terminal::open_of(p) is Some
            &&& r matches Step::Unreadable(v) ==> v@ == p
            &&& r matches Step::Open(o) ==> {
                &&& o.shell matches Some(s) ==> wire::field(p, 0, "shell"@) == Some(Json::Str(s@))
                &&& wire::field(p, 0, "shell"@) matches Some(Json::Str(s)) ==> o.shell is Some
                &&& o.cwd matches Some(s) ==> wire::field(p, 1, "cwd"@) == Some(Json::Str(s@))
                &&& wire::field(p, 1, "cwd"@) matches Some(Json::Str(s)) ==> o.cwd is Some
                &&& match wire::field(p, 3, "cols"@) {
                    Some(n) => n == Json::Int(o.cols as int),
                    None => o.cols == 80,
                }
                &&& match wire::field(p, 4, "rows"@) {
                    Some(n) => n == Json::Int(o.rows as int),
                    None => o.rows == 24,
                }
                &&& match wire::field(p, 2, "env"@) {
                    Some(e) => wire::pairs_of(e) == Some(wire::pairs(o.env@)),
                    None => wire::pairs(o.env@) == Map::<Seq<char>, Seq<char>>::empty(),
                }
            }
        }),
        final(terminal)@ == old(terminal)@ && final(terminal).starting()
            == old(terminal).starting(),
{
    all_command_names();
    newest_is_last(d@.handlers, req.command@);
    let p = params_of(req@);
    if r is Open {
        terminal::requests_for_sessions_are_read(p, r->Open_0@);
    }
}

/// `terminal.input` writes what it is asked to write, to the session that is
/// named.
pub proof fn input_is_written(
    d: &CommandDispatcher,
    terminal: &mut TerminalManager,
    req: &NodeInvokeRequest,
    users_shell: Option<String>,
    r: Step,
)
    requires
        call_ensures(CommandDispatcher::dispatch, (d, terminal, req, users_shell), r),
        req.command@ == "terminal.input"@,
        !d@.handlers.contains(req.command@),
    ensures
        match (asked(*req, "session_id"@), asked(*req, "data"@)) {
            (Some(Json::Str(id)), Some(Json::Str(data))) => if old(terminal)@.contains_key(id) {
                r matches Step::Input(i, bytes) && i@ == id && bytes@ == vstd::utf8::encode_utf8(
                    data,
                )
            } else {
                is_refusal(r@, "INPUT_FAILED"@, "session not found: "@ + id)
            },
            (Some(Json::Str(_)), _) => is_refusal(r@, "INVALID_PARAMS"@, "missing data"@),
            _ => is_refusal(r@, "INVALID_PARAMS"@, "missing session_id"@),
        },
        final(terminal)@ == old(terminal)@ && final(terminal).starting()
            == old(terminal).starting(),
{
    all_command_names();
    newest_is_last(d@.handlers, req.command@);
}

/// `terminal.close` closes the session that is named.
pub proof fn named_sessions_are_closed(
    d: &CommandDispatcher,
    terminal: &mut TerminalManager,
    req: &NodeInvokeRequest,
    users_shell: Option<String>,
    r: Step,
)
    requires
        call_ensures(CommandDispatcher::dispatch, (d, terminal, req, users_shell), r),
        req.command@ == "terminal.close"@,
        !d@.handlers.contains(req.command@),
    ensures
        match asked(*req, "session_id"@) {
            Some(Json::Str(id)) => {
                &&& old(terminal)@.contains_key(id) ==> is_done(r@)
                &&& !old(terminal)@.contains_key(id) ==> is_refusal(
                    r@,
                    "CLOSE_FAILED"@,
                    "session not found: "@ + id,
                )
                &&& final(terminal)@ == old(terminal)@.remove(id)
            },
            _ => is_refusal(r@, "INVALID_PARAMS"@, "missing session_id"@) && final(terminal)@
                == old(terminal)@,
        },
        final(terminal).starting() == old(terminal).starting(),
{
    all_command_names();
    newest_is_last(d@.handlers, req.command@);
}

/// The sixteen bits of a number that is given, or the usual size.
pub open spec fn sixteen_bits(given: Option<Json>, usual: int) -> int {
    match given {
        Some(Json::Int(n)) => if 0 <= n <= u64::MAX {
            n % 65536
        } else {
            usual
        },
        _ => usual,
    }
}

/// `terminal.resize` gives the session that is named the size that is asked
/// for.
pub proof fn named_sessions_are_resized(
    d: &CommandDispatcher,
    terminal: &mut TerminalManager,
    req: &NodeInvokeRequest,
    users_shell: Option<String>,
    r: Step,
)
    requires
        call_ensures(CommandDispatcher::dispatch, (d, terminal, req, users_shell), r),
        req.command@ == "terminal.resize"@,
        !d@.handlers.contains(req.command@),
    ensures
        match asked(*req, "session_id"@) {
            Some(Json::Str(id)) => {
                &&& old(terminal)@.contains_key(id) ==> is_done(r@) && ({
                    let was = old(terminal)@[id];
                    let now = final(terminal)@[id];
                    &&& now.cols as int == sixteen_bits(asked(*req, "cols"@), 80)
                    &&& now.rows as int == sixteen_bits(asked(*req, "rows"@), 24)
                    &&& now.shell == was.shell && now.pid == was.pid && now.session_id
                        == was.session_id
                    &&& final(terminal)@ == old(terminal)@.insert(id, now)
                })
                &&& !old(terminal)@.contains_key(id) ==> is_refusal(
                    r@,
                    "RESIZE_FAILED"@,
                    "session not found: "@ + id,
                ) && final(terminal)@ == old(terminal)@
            },
            _ => is_refusal(r@, "INVALID_PARAMS"@, "missing session_id"@) && final(terminal)@
                == old(terminal)@,
        },
        final(terminal).starting() == old(terminal).starting(),
{
    all_command_names();
    newest_is_last(d@.handlers, req.command@);
}

/// `terminal.list` lists the sessions, `system.info` asks for a description,
/// `dev.status` for a search, and what is no command is refused by its name;
/// nothing happens to a session.
pub proof fn other_commands_are_answered(
    d: &CommandDispatcher,
    terminal: &mut TerminalManager,
    req: &NodeInvokeRequest,
    users_shell: Option<String>,
    r: Step,
    id: Seq<char>,
)
    requires
        call_ensures(CommandDispatcher::dispatch, (d, terminal, req, users_shell), r),
        !d@.handlers.contains(req.command@),
        req.command@ != "terminal.close"@ && req.command@ != "terminal.resize"@,
    ensures
        final(terminal)@ == old(terminal)@ && final(terminal).starting()
            == old(terminal).starting(),
        req.command@ == "system.info"@ ==> r is Describe,
        req.command@ == "dev.status"@ ==> r is FindDev,
        req.command@ == "terminal.list"@ ==> (r matches Step::Done(l) && l.ok && l.error is None && (
        l.payload matches Some(p) && p@ is Array && (old(terminal)@.contains_key(id) ==> exists|
            i: int,
        |
            0 <= i < p@->Array_0.len() && #[trigger] p@->Array_0[i] == terminal::session_json(
                old(terminal)@[id],
            )))),
        !builtins().contains(req.command@) ==> is_refusal(
            r@,
            "UNKNOWN_COMMAND"@,
            "unknown command: "@ + req.command@,
        ),
{
    all_command_names();
    newest_is_last(d@.handlers, req.command@);
    builtins_are_these(req.command@);
    if req.command@ == "terminal.list"@ {
        let l = r@->Done_0;
        let list = list_is_made(l, old(terminal)@);
        if old(terminal)@.contains_key(id) {
            let i = every_session_is_listed(l, old(terminal)@, id);
            assert(l.payload->0->Array_0[i] == terminal::session_json(old(terminal)@[id]));
        }
    }
}

/// What came of opening a session, of reading its parameters and of writing to
/// it is told.
pub proof fn outcomes_are_told(
    o: Result<TerminalSession, String>,
    a: CommandResult,
    reason: &str,
    b: CommandResult,
    w: Result<(), String>,
    c: CommandResult,
)
    requires
        call_ensures(opened, (o,), a),
        call_ensures(unreadable, (reason,), b),
        call_ensures(input_done, (w,), c),
    ensures
        o matches Ok(s) ==> a.ok && a.error is None && (a.payload matches Some(p) && {
            &&& json::json_get(p@, "session_id"@) == Some(Json::Str(s.session_id@))
            &&& json::json_get(p@, "shell"@) == Some(Json::Str(s.shell@))
            &&& json::json_get(p@, "pid"@) == Some(Json::Int(s.pid as int))
            &&& json::json_get(p@, "cols"@) == Some(Json::Int(s.cols as int))
            &&& json::json_get(p@, "rows"@) == Some(Json::Int(s.rows as int))
        }),
        o matches Err(e) ==> is_refusal(StepView::Done(a@), "SPAWN_FAILED"@, e@),
        is_refusal(StepView::Done(b@), "INVALID_PARAMS"@, reason@),
        w is Ok ==> is_done(StepView::Done(c@)),
        w matches Err(e) ==> is_refusal(StepView::Done(c@), "INPUT_FAILED"@, e@),
{
    if o is Ok {
        terminal::sessions_are_written(o->Ok_0@);
        reveal_strlit("session_id");
        reveal_strlit("shell");
        reveal_strlit("pid");
        reveal_strlit("cols");
        reveal_strlit("rows");
        assert("session_id"@.len() == 10 && "shell"@.len() == 5 && "pid"@.len() == 3);
        assert("cols"@.len() == 4 && "rows"@.len() == 4 && "cols"@[0] == 'c' && "rows"@[0] == 'r');
    }
}

/// The system is described as it is.
pub proof fn systems_are_described(d: &CommandDispatcher, i: SystemInfo, r: CommandResult)
    requires
        call_ensures(CommandDispatcher::handle_system_info, (d, i), r),
    ensures
        r.ok && r.error is None && (r.payload matches Some(p) && {
            &&& json::json_get(p@, "os"@) == Some(Json::Str(i.os@))
            &&& json::json_get(p@, "arch"@) == Some(Json::Str(i.arch@))
            &&& json::json_get(p@, "hostname"@) == Some(
                Json::Str(
                    match i.hostname {
                        Some(s) => s@,
                        None => match i.host {
                            Some(s) => s@,
                            None => Seq::empty(),
                        },
                    },
                ),
            )
            &&& json::json_get(p@, "home"@) == Some(
                Json::Str(
                    match i.home {
                        Some(s) => s@,
                        None => Seq::empty(),
                    },
                ),
            )
            &&& json::json_get(p@, "cwd"@) == Some(
                Json::Str(
                    match i.cwd {
                        Some(s) => s@,
                        None => Seq::empty(),
                    },
                ),
            )
            &&& json::json_get(p@, "shell"@) == Some(
                Json::Str(
                    match i.shell {
                        Some(s) => s@,
                        None => Seq::empty(),
                    },
                ),
            )
            &&& json::json_get(p@, "user"@) == Some(
                Json::Str(
                    match i.user {
                        Some(s) => s@,
                        None => Seq::empty(),
                    },
                ),
            )
        }),
{
    system_is_described(i);
}

/// The lines of a text are its pieces between line breaks, without the white
/// space around them, and without those that hold nothing else; dev sessions
/// run if and only if the search has written such a line, and these are the
/// process IDs.
pub proof fn searches_are_read(
    s: &str,
    l: Vec<String>,
    output: Option<String>,
    a: CommandResult,
    d: &CommandDispatcher,
    bytes: Option<Vec<u8>>,
    b: CommandResult,
)
    requires
        call_ensures(lines, (s,), l),
        call_ensures(dev_status, (output,), a),
        call_ensures(CommandDispatcher::handle_dev_status, (d, bytes), b),
    ensures
        text::texts(l@) == text::split(s@, '\n').map_values(
            |l: Seq<char>| text::trim(l),
        ).filter(|l: Seq<char>| l.len() > 0),
        output matches Some(o) ==> o@ == s@ ==> (a.payload matches Some(p) && json::json_get(
            p@,
            "running"@,
        ) == Some(Json::Bool(l@.len() > 0)) && json::json_get(p@, "pids"@) == Some(
            json::json_texts(text::texts(l@)),
        )),
        output is None ==> (a.payload matches Some(p) && json::json_get(p@, "running"@) == Some(
            Json::Bool(false),
        )),
        a.ok && b.ok && a.error is None && b.error is None,
        bytes is None && output is None ==> a@ == b@,
        bytes matches Some(v) ==> output matches Some(o) ==> text::lossy(v@) == o@ ==> a@ == b@,
{
    lines_are_trimmed_pieces(text::split(s@, '\n'));
    running_sessions_are_reported(found(text::optional(output)), s@);
    assert(text::texts(l@).len() == l@.len());
    let f = found(text::optional(output));
    let x = json::json_texts(f);
    assert(f.len() == x->Array_0.len());
}

/// Dev sessions are searched for, and binaries looked up, by these programs.
pub proof fn searches_are_made(name: &str, a: Query, b: Query, n: usize, s: Option<&'static str>)
    requires
        call_ensures(find_dev, (), a),
        call_ensures(look_up, (name,), b),
        call_ensures(dev_name, (n,), s),
    ensures
        a.program@ == "pgrep"@ && a.args@.len() == 2 && a.args@[0]@ == "-f"@ && a.args@[1]@
            == "dev.*--model"@,
        b.program@ == "which"@ && b.args@.len() == 1 && b.args@[0]@ == name@,
        s is Some <==> n < 3,
        n == 0 ==> s->0@ == "dev"@,
        n == 1 ==> s->0@ == "hanzo-dev"@,
        n == 2 ==> s->0@ == "codex"@,
{
    let x = text::texts(a.args@);
    let y = text::texts(b.args@);
    assert(x.len() == a.args@.len() && y.len() == b.args@.len());
    assert(x[0] == a.args@[0]@ && x[1] == a.args@[1]@ && y[0] == b.args@[0]@);
}

/// The dev binary is the first that was found, and just "dev" where none was.
pub proof fn dev_binaries_are_picked(
    answers: &Vec<Option<String>>,
    r: Option<String>,
    outputs: &Vec<Option<Vec<u8>>>,
    s: Option<String>,
    i: int,
)
    requires
        call_ensures(pick_dev, (answers,), r),
        call_ensures(which_dev, (outputs,), s),
        0 <= i <= 3,
    ensures
        i <= answers@.len() && (forall|k: int| 0 <= k < i ==> (#[trigger] answers@[k]) is None)
            ==> {
            &&& i < answers@.len() && i < 3 && answers@[i] is Some ==> (r matches Some(b) && b@
                == text::trim(answers@[i]->0@))
            &&& i == 3 ==> (r matches Some(b) && b@ == "dev"@)
            &&& i == answers@.len() && i < 3 ==> r is None
        },
        i <= outputs@.len() && (forall|k: int| 0 <= k < i ==> (#[trigger] outputs@[k]) is None)
            ==> {
            &&& i < outputs@.len() && i < 3 && outputs@[i] is Some ==> (s matches Some(b) && b@
                == text::trim(text::lossy(outputs@[i]->0@)))
            &&& i == 3 ==> (s matches Some(b) && b@ == "dev"@)
            &&& i == outputs@.len() && i < 3 ==> s is None
        },
{
    let x = optionals(answers@);
    let y = output_texts(outputs@);
    if i <= answers@.len() && forall|k: int| 0 <= k < i ==> (#[trigger] answers@[k]) is None {
        assert forall|k: int| 0 <= k < i implies (#[trigger] x[k]) is None by {
            assert(answers@[k] is None);
        }
        first_dev_binary_is_taken(x, i);
    }
    if i <= outputs@.len() && forall|k: int| 0 <= k < i ==> (#[trigger] outputs@[k]) is None {
        assert forall|k: int| 0 <= k < i implies (#[trigger] y[k]) is None by {
            assert(outputs@[k] is None);
        }
        first_dev_binary_is_taken(y, i);
    }
}

/// Terminal events go upstream, to the gateway and to the cloud, under their
/// names and with what happened.
pub proof fn events_go_upstream(
    c: &GatewayConnection,
    t: &TunnelConnection,
    event: TerminalEvent,
    g: GatewayFrame,
    f: Frame,
)
    requires
        call_ensures(node_event, (c, event), g),
        call_ensures(tunnel_event, (t, event), f),
    ensures
        f matches Frame::Event(e) && {
            &&& event matches TerminalEvent::Output { session_id, data } ==> e.event@
                == "terminal.output"@ && json::json_get(e.data@, "session_id"@) == Some(
                Json::Str(session_id@),
            ) && json::json_get(e.data@, "data"@) == Some(Json::Str(data@))
            &&& event matches TerminalEvent::Exit { session_id, exit_code } ==> e.event@
                == "terminal.exit"@ && json::json_get(e.data@, "session_id"@) == Some(
                Json::Str(session_id@),
            ) && json::json_get(e.data@, "exit_code"@) == Some(
                match exit_code {
                    Some(n) => Json::Int(n as int),
                    None => Json::Null,
                },
            )
            &&& g matches GatewayFrame::Req { method, params: Some(p), .. } && method@
                == "node.event"@ && json::json_get(p@, "event"@) == Some(Json::Str(e.event@))
                && json::json_get(p@, "payloadJSON"@) == Some(
                Json::Str(json::text_of_json(e.data@)),
            )
        },
{
    gateway::node_events_say_what_happened(
        g@->Req_id,
        upstream_name(event@),
        Some(upstream_data(event@)),
    );
    match event {
        TerminalEvent::Output { session_id, data } => terminal_events_go_upstream(
            session_id@,
            data@,
            None,
        ),
        TerminalEvent::Exit { session_id, exit_code } => terminal_events_go_upstream(
            session_id@,
            Seq::empty(),
            exit_code,
        ),
    }
}

/// The dispatch loop of the gateway dispatches requests as they come and
/// answers each with what handling it gave.
pub proof fn dispatch_loop_is_run(
    conn: &GatewayConnection,
    handling: &mut Option<String>,
    event: DispatchEvent,
    r: DispatchAction,
)
    requires
        call_ensures(run_dispatch_loop, (conn, handling, event), r),
    ensures
        event matches DispatchEvent::Received(None) ==> r is Stop,
        event matches DispatchEvent::Received(Some(q)) ==> (r matches DispatchAction::Dispatch(p)
            && p@ == q@) && text::optional(*final(handling)) == Some(q.id@),
        event matches DispatchEvent::Sent(done) ==> (done ==> r is Receive) && (!done ==> r is Stop)
            && text::optional(*final(handling)) == text::optional(*old(handling)),
        event matches DispatchEvent::Handled(done) ==> *final(handling) is None && (
        *old(handling) is None ==> r is Receive) && (*old(handling) matches Some(id) ==> (r
            matches DispatchAction::Send(GatewayFrame::Req { method, params: Some(p), .. })
            && method@ == "node.invoke.result"@ && json::json_get(p@, "id"@) == Some(
            Json::Str(id@),
        ) && json::json_get(p@, "nodeId"@) == Some(Json::Str(conn.node_id@)) && json::json_get(
            p@,
            "ok"@,
        ) == Some(Json::Bool(done.ok)) && json::json_get(p@, "payloadJSON"@) == Some(
            match done.payload {
                Some(v) => Json::Str(json::text_of_json(v@)),
                None => Json::Null,
            },
        ))),
{
    let was = *old(handling);
    if event is Handled && was is Some {
        let done = event->Handled_0@;
        let id = was->0@;
        assert(on_dispatch(conn.node_id@, Some(id), Seq::empty(), event@).1 is Send);
        gateway::results_say_what_came_of_it(
            r@->Send_0->Req_id,
            id,
            conn.node_id@,
            done.ok,
            done.payload,
            done.error,
        );
    }
}

/// The dispatch loop of the tunnel dispatches commands as they come and answers
/// each with what handling it gave; other frames are passed over.
pub proof fn tunnel_loop_is_run(
    conn: &TunnelConnection,
    handling: &mut Option<String>,
    event: TunnelEvent,
    r: TunnelAction,
)
    requires
        call_ensures(run_tunnel_dispatch_loop, (conn, handling, event), r),
    ensures
        event matches TunnelEvent::Received(None) ==> r is Stop,
        event matches TunnelEvent::Received(Some(Frame::Command(c))) ==> (r
            matches TunnelAction::Dispatch(q) && q.id@ == c.id@ && q.node_id@ == conn.instance_id@
            && q.command@ == c.method@ && json::held(q.params) == Some(c.params@)
            && q.timeout_ms is None) && text::optional(*final(handling)) == Some(c.id@),
        event matches TunnelEvent::Received(Some(f)) ==> !(f is Command) ==> r is Receive
            && text::optional(*final(handling)) == text::optional(*old(handling)),
        event matches TunnelEvent::Sent(done) ==> (done ==> r is Receive) && (!done ==> r is Stop)
            && text::optional(*final(handling)) == text::optional(*old(handling)),
        event matches TunnelEvent::Handled(done) ==> *final(handling) is None && (
        *old(handling) is None ==> r is Receive) && (*old(handling) matches Some(id) ==> (r
            matches TunnelAction::Send(Frame::Response(p)) && p.id@ == id@ && p.ok == done.ok && (
        done.ok ==> json::held(p.data) == json::held(done.payload) && p.error is None) && (!done.ok
            ==> p.data is None && (p.error matches Some(e) && e@ == (match done.error {
            Some(x) => x.message@,
            None => "unknown error"@,
        }))))),
{
}

/// Nothing else is told of a system, and nothing else of the dev sessions that
/// run.
pub proof fn nothing_else_is_told(i: SystemInfo, pids: Seq<Seq<char>>, name: Seq<char>)
    ensures
        json::json_get(info_json(i), name) is Some <==> name == "os"@ || name == "arch"@ || name
            == "hostname"@ || name == "home"@ || name == "cwd"@ || name == "shell"@ || name
            == "user"@,
        status_result(pids).payload matches Some(p) && (json::json_get(p, name) is Some <==> name
            == "running"@ || name == "pids"@),
{
}

} // verus!

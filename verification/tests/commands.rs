use hanzo_tunnel::commands::{
    dev_name, dev_status, find_dev, input_done, lines, look_up, node_event, opened, pick_dev, run_dispatch_loop,
    run_tunnel_dispatch_loop, tunnel_event, unreadable, which_dev, CommandDispatcher, CommandResult,
    DispatchAction, DispatchEvent, RunOutcome, Step, SystemInfo, TunnelAction, TunnelEvent,
};
use hanzo_tunnel::gateway::{GatewayConnection, GatewayFrame, NodeInvokeRequest};
use hanzo_tunnel::json::{JsonValue, ObjectBuilder};
use hanzo_tunnel::protocol::{CommandPayload, Frame};
use hanzo_tunnel::terminal::{
    exit_event, output_event, SpawnOutcome, TerminalManager, TerminalOpenParams, TerminalSession,
};
use hanzo_tunnel::TunnelConnection;

fn dispatcher() -> CommandDispatcher {
    CommandDispatcher::new("usual-model".into())
}

fn request(command: &str, params: Option<&str>) -> NodeInvokeRequest {
    NodeInvokeRequest {
        id: "test".into(),
        node_id: "n1".into(),
        command: command.into(),
        params: params.map(|p| JsonValue::parse(p).unwrap()),
        timeout_ms: None,
    }
}

fn dispatch(terminal: &mut TerminalManager, command: &str, params: &str) -> Step {
    dispatcher().dispatch(terminal, &request(command, Some(params)), Some("/bin/zsh".into()))
}

fn done(step: Step) -> CommandResult {
    match step {
        Step::Done(r) => r,
        _ => panic!("expected a result"),
    }
}

fn code(r: &CommandResult) -> (&str, &str) {
    let e = r.error.as_ref().unwrap();
    assert!(!r.ok);
    assert!(r.payload.is_none());
    (e.code.as_str(), e.message.as_str())
}

fn payload(r: &CommandResult) -> String {
    assert!(r.ok);
    assert!(r.error.is_none());
    r.payload.as_ref().unwrap().to_text()
}

fn with_session(id: &str) -> TerminalManager {
    let mut terminal = TerminalManager::new();
    let params = TerminalOpenParams { shell: None, cwd: None, env: vec![], cols: 80, rows: 24 };
    let spawn = terminal.open_as(id.into(), params, None);
    terminal.opened(spawn, SpawnOutcome::Running(Some(7))).unwrap();
    terminal
}

fn info() -> SystemInfo {
    SystemInfo {
        os: "linux".into(),
        arch: "x86_64".into(),
        hostname: None,
        host: Some("h".into()),
        home: Some("/home/z".into()),
        cwd: None,
        shell: Some("/bin/zsh".into()),
        user: None,
    }
}

#[test]
fn command_result_success() {
    let mut o = ObjectBuilder::new();
    o.put("ok", JsonValue::Bool(true));
    let r = CommandResult::success(o.build());
    assert!(r.ok);
    assert!(r.error.is_none());
}

#[test]
fn command_result_error() {
    let r = CommandResult::error("NOT_FOUND", "session not found");
    assert!(!r.ok);
    assert_eq!(r.error.as_ref().unwrap().code, "NOT_FOUND");
}

#[test]
fn dispatcher_supported_commands() {
    let dispatcher = dispatcher();
    let commands = dispatcher.supported_commands();
    assert!(commands.contains(&"terminal.open".to_string()));
    assert!(commands.contains(&"system.run".to_string()));
    assert!(commands.contains(&"dev.launch".to_string()));
}

#[test]
fn dispatcher_system_info() {
    let mut terminal = TerminalManager::new();
    let dispatcher = dispatcher();
    let req = NodeInvokeRequest {
        id: "test".into(),
        node_id: "n1".into(),
        command: "system.info".into(),
        params: None,
        timeout_ms: None,
    };
    let step = dispatcher.dispatch(&mut terminal, &req, None);
    assert!(matches!(step, Step::Describe));
    let result = dispatcher.handle_system_info(info());
    assert!(result.ok);
    let payload = result.payload.unwrap();
    assert!(payload.get("os").is_some());
    assert!(payload.get("arch").is_some());
}

#[test]
fn dispatcher_unknown_command() {
    let mut terminal = TerminalManager::new();
    let dispatcher = dispatcher();
    let req = NodeInvokeRequest {
        id: "test".into(),
        node_id: "n1".into(),
        command: "does.not.exist".into(),
        params: None,
        timeout_ms: None,
    };
    let result = done(dispatcher.dispatch(&mut terminal, &req, None));
    assert!(!result.ok);
    assert_eq!(result.error.unwrap().code, "UNKNOWN_COMMAND");
}

#[test]
fn commands_are_listed_in_order_and_once() {
    let mut d = dispatcher();
    assert_eq!(
        d.supported_commands(),
        vec![
            "dev.launch",
            "dev.status",
            "system.info",
            "system.run",
            "terminal.close",
            "terminal.input",
            "terminal.list",
            "terminal.open",
            "terminal.resize",
        ]
    );
    d.register("zeta");
    d.register("alpha");
    d.register("system.run");
    d.register("alpha");
    let list = d.supported_commands();
    assert_eq!(list.len(), 11);
    assert_eq!(list[0], "alpha");
    assert_eq!(list[10], "zeta");
    let mut sorted = list.clone();
    sorted.sort();
    assert_eq!(sorted, list);
}

#[test]
fn custom_handlers_go_first() {
    let mut terminal = TerminalManager::new();
    let mut d = dispatcher();
    assert_eq!(d.register("system.info"), 0);
    match d.dispatch(&mut terminal, &request("system.info", Some("[1]")), None) {
        Step::Custom(n, p) => {
            assert_eq!(n, 0);
            assert_eq!(p.to_text(), "[1]");
        }
        _ => panic!("expected the custom handler"),
    }
    match d.dispatch(&mut terminal, &request("system.info", None), None) {
        Step::Custom(n, p) => {
            assert_eq!(n, 0);
            assert!(matches!(p, JsonValue::Null));
        }
        _ => panic!("expected the custom handler"),
    }
    assert_eq!(d.handler("system.info"), Some(0));
    assert_eq!(d.handler("system.run"), None);
}

#[test]
fn the_newest_handler_is_called() {
    let mut terminal = TerminalManager::new();
    let mut d = dispatcher();
    assert_eq!(d.register("a"), 0);
    assert_eq!(d.register("b"), 1);
    assert_eq!(d.register("a"), 2);
    assert_eq!(d.handler("a"), Some(2));
    assert_eq!(d.handler("b"), Some(1));
    for (command, number) in [("a", 2), ("b", 1)] {
        match d.dispatch(&mut terminal, &request(command, None), None) {
            Step::Custom(n, _) => assert_eq!(n, number),
            _ => panic!("expected the custom handler"),
        }
    }
}

#[test]
fn unknown_commands_are_named() {
    let r = done(dispatch(&mut TerminalManager::new(), "nope", "{}"));
    assert_eq!(code(&r), ("UNKNOWN_COMMAND", "unknown command: nope"));
}

#[test]
fn terminals_are_opened() {
    match dispatch(&mut TerminalManager::new(), "terminal.open", r#"{"cols":9}"#) {
        Step::Open(p) => assert_eq!((p.cols, p.rows), (9, 24)),
        _ => panic!("expected a session to open"),
    }
    match dispatch(&mut TerminalManager::new(), "terminal.open", r#"{"cols":"9"}"#) {
        Step::Unreadable(p) => assert_eq!(p.to_text(), r#"{"cols":"9"}"#),
        _ => panic!("expected unreadable parameters"),
    }
    assert_eq!(code(&unreadable("why")), ("INVALID_PARAMS", "why"));
    assert_eq!(code(&opened(Err("spawn failed: x".into()))), ("SPAWN_FAILED", "spawn failed: x"));
    let session = TerminalSession { session_id: "s".into(), shell: "sh".into(), pid: 1, cols: 2, rows: 3 };
    assert_eq!(
        payload(&opened(Ok(session))),
        r#"{"cols":2,"pid":1,"rows":3,"session_id":"s","shell":"sh"}"#
    );
}

#[test]
fn input_goes_to_its_session() {
    let mut terminal = with_session("s");
    match dispatch(&mut terminal, "terminal.input", r#"{"session_id":"s","data":"ls\né"}"#) {
        Step::Input(id, bytes) => {
            assert_eq!(id, "s");
            assert_eq!(bytes, "ls\n\u{e9}".as_bytes().to_vec());
        }
        _ => panic!("expected input"),
    }
    let r = done(dispatch(&mut terminal, "terminal.input", "{}"));
    assert_eq!(code(&r), ("INVALID_PARAMS", "missing session_id"));
    let r = done(dispatch(&mut terminal, "terminal.input", r#"{"session_id":"s"}"#));
    assert_eq!(code(&r), ("INVALID_PARAMS", "missing data"));
    let r = done(dispatch(&mut terminal, "terminal.input", r#"{"session_id":"t","data":""}"#));
    assert_eq!(code(&r), ("INPUT_FAILED", "session not found: t"));
    assert_eq!(payload(&input_done(Ok(()))), r#"{"ok":true}"#);
    assert_eq!(code(&input_done(Err("stdin closed".into()))), ("INPUT_FAILED", "stdin closed"));
}

#[test]
fn sessions_are_closed_and_resized() {
    let mut terminal = with_session("s");
    let r = done(dispatch(&mut terminal, "terminal.resize", r#"{"session_id":"s","cols":132}"#));
    assert_eq!(payload(&r), r#"{"ok":true}"#);
    assert_eq!((terminal.list()[0].cols, terminal.list()[0].rows), (132, 24));
    let r = done(dispatch(&mut terminal, "terminal.resize", r#"{"session_id":"s","cols":70000,"rows":9}"#));
    assert_eq!(payload(&r), r#"{"ok":true}"#);
    assert_eq!((terminal.list()[0].cols, terminal.list()[0].rows), (4464, 9));
    let r = done(dispatch(&mut terminal, "terminal.resize", r#"{"session_id":"t"}"#));
    assert_eq!(code(&r), ("RESIZE_FAILED", "session not found: t"));
    let r = done(dispatch(&mut terminal, "terminal.resize", "{}"));
    assert_eq!(code(&r), ("INVALID_PARAMS", "missing session_id"));
    let r = done(dispatch(&mut terminal, "terminal.close", r#"{"session_id":1}"#));
    assert_eq!(code(&r), ("INVALID_PARAMS", "missing session_id"));
    let r = done(dispatch(&mut terminal, "terminal.close", r#"{"session_id":"s"}"#));
    assert_eq!(payload(&r), r#"{"ok":true}"#);
    let r = done(dispatch(&mut terminal, "terminal.close", r#"{"session_id":"s"}"#));
    assert_eq!(code(&r), ("CLOSE_FAILED", "session not found: s"));
}

#[test]
fn sessions_are_listed() {
    let r = done(dispatch(&mut TerminalManager::new(), "terminal.list", "null"));
    assert_eq!(payload(&r), "[]");
    let r = done(dispatch(&mut with_session("s"), "terminal.list", "null"));
    assert_eq!(
        payload(&r),
        r#"[{"cols":80,"pid":7,"rows":24,"session_id":"s","shell":"/bin/sh"}]"#
    );
}

#[test]
fn the_system_is_described() {
    let r = dispatcher().handle_system_info(info());
    assert_eq!(
        payload(&r),
        r#"{"arch":"x86_64","cwd":"","home":"/home/z","hostname":"h","os":"linux","shell":"/bin/zsh","user":""}"#
    );
    let mut i = info();
    i.hostname = Some("first".into());
    assert!(payload(&dispatcher().handle_system_info(i)).contains(r#""hostname":"first""#));
}

#[test]
fn programs_are_run() {
    let mut terminal = TerminalManager::new();
    match dispatch(&mut terminal, "system.run", r#"{"cmd":"ls","command":"no","cwd":"/w","timeout_ms":5}"#) {
        Step::Run(run) => {
            assert_eq!(run.shell, "/bin/zsh");
            assert_eq!(run.args(), vec!["-c", "ls"]);
            assert_eq!(run.cwd.as_deref(), Some("/w"));
            assert_eq!(run.timeout_ms, 5);
        }
        _ => panic!("expected a program"),
    }
    match dispatcher().dispatch(&mut terminal, &request("system.run", Some(r#"{"command":"pwd"}"#)), None) {
        Step::Run(run) => {
            assert_eq!(run.shell, "/bin/sh");
            assert_eq!(run.cmd, "pwd");
            assert_eq!(run.cwd, None);
            assert_eq!(run.timeout_ms, 30_000);
        }
        _ => panic!("expected a program"),
    }
    let r = done(dispatch(&mut terminal, "system.run", "{}"));
    assert_eq!(code(&r), ("INVALID_PARAMS", "missing cmd"));
}

#[test]
fn programs_end() {
    let d = dispatcher();
    let r = d.ran(RunOutcome::Finished { code: Some(-1), stdout: b"o\xff".to_vec(), stderr: vec![] });
    assert_eq!(payload(&r), "{\"exit_code\":-1,\"stderr\":\"\",\"stdout\":\"o\u{fffd}\"}");
    let r = d.ran(RunOutcome::Finished { code: None, stdout: vec![], stderr: b"e".to_vec() });
    assert_eq!(payload(&r), r#"{"exit_code":null,"stderr":"e","stdout":""}"#);
    assert_eq!(code(&d.ran(RunOutcome::Failed("x".into()))), ("EXEC_FAILED", "x"));
    assert_eq!(code(&d.ran(RunOutcome::TimedOut)), ("TIMEOUT", "command timed out"));
}

#[test]
fn dev_sessions_are_launched() {
    let mut terminal = TerminalManager::new();
    let d = dispatcher();
    let launch = match dispatch(&mut terminal, "dev.launch", r#"{"message":"fix it","cwd":"/w","model":"m"}"#) {
        Step::Launch(l) => l,
        _ => panic!("expected a launch"),
    };
    assert_eq!(launch.args(), vec!["--model", "m", "fix it"]);
    assert_eq!(
        payload(&d.launched(&launch, "/usr/bin/dev", Ok(Some(5)))),
        r#"{"binary":"/usr/bin/dev","cwd":"/w","model":"m","pid":5}"#
    );
    let launch = match dispatch(&mut terminal, "dev.launch", "{}") {
        Step::Launch(l) => l,
        _ => panic!("expected a launch"),
    };
    assert_eq!(launch.args(), vec!["--model", "usual-model"]);
    assert_eq!(
        payload(&d.launched(&launch, "dev", Ok(None))),
        r#"{"binary":"dev","cwd":null,"model":"usual-model","pid":0}"#
    );
    assert_eq!(code(&d.launched(&launch, "dev", Err("x".into()))), ("LAUNCH_FAILED", "x"));
}

#[test]
fn running_dev_sessions_are_found() {
    let d = dispatcher();
    assert!(matches!(dispatch(&mut TerminalManager::new(), "dev.status", "null"), Step::FindDev));
    assert_eq!(
        payload(&d.handle_dev_status(Some(b"12\r\n 34 \n\n".to_vec()))),
        r#"{"pids":["12","34"],"running":true}"#
    );
    assert_eq!(payload(&d.handle_dev_status(Some(vec![]))), r#"{"pids":[],"running":false}"#);
    assert_eq!(payload(&d.handle_dev_status(None)), r#"{"pids":[],"running":false}"#);
    assert_eq!(payload(&dev_status(Some("1".into()))), r#"{"pids":["1"],"running":true}"#);
    for s in ["", "\n", "a\n b\r\n\nc", "a\rb"] {
        let expected: Vec<String> =
            s.lines().map(|l| l.trim().to_string()).filter(|l| !l.is_empty()).collect();
        assert_eq!(lines(s), expected);
    }
}

#[test]
fn the_dev_binary_is_looked_up() {
    assert_eq!((find_dev().program.as_str(), find_dev().args), ("pgrep", vec!["-f".to_string(), "dev.*--model".to_string()]));
    assert_eq!((look_up("x").program.as_str(), look_up("x").args), ("which", vec!["x".to_string()]));
    assert_eq!(dev_name(0), Some("dev"));
    assert_eq!(dev_name(1), Some("hanzo-dev"));
    assert_eq!(dev_name(2), Some("codex"));
    assert_eq!(dev_name(3), None);
    assert_eq!(which_dev(&vec![]), None);
    assert_eq!(which_dev(&vec![None, None]), None);
    assert_eq!(which_dev(&vec![Some(b"/usr/bin/dev\n".to_vec())]), Some("/usr/bin/dev".into()));
    assert_eq!(which_dev(&vec![None, Some(b"/h\n".to_vec())]), Some("/h".into()));
    assert_eq!(which_dev(&vec![None, None, None]), Some("dev".into()));
    assert_eq!(pick_dev(&vec![None, None, Some(" c ".into())]), Some("c".into()));
}

#[test]
fn terminal_events_go_upstream() {
    let tunnel = TunnelConnection { instance_id: "i".into() };
    assert_eq!(
        tunnel_event(&tunnel, output_event("s", b"x")).to_json(),
        r#"{"type":"event","event":"terminal.output","data":{"data":"x","session_id":"s"}}"#
    );
    assert_eq!(
        tunnel_event(&tunnel, exit_event("s", None)).to_json(),
        r#"{"type":"event","event":"terminal.exit","data":{"exit_code":null,"session_id":"s"}}"#
    );
    let gateway = GatewayConnection::new("n".into(), "c".into());
    match node_event(&gateway, exit_event("s", Some(1))) {
        GatewayFrame::Req { method, params, .. } => {
            assert_eq!(method, "node.event");
            let params = params.unwrap();
            assert_eq!(params.get_str("event"), Some("terminal.exit"));
            assert_eq!(params.get_str("payloadJSON"), Some(r#"{"exit_code":1,"session_id":"s"}"#));
        }
        _ => panic!("expected a request"),
    }
}

#[test]
fn requests_of_the_gateway_are_answered() {
    let conn = GatewayConnection::new("n".into(), "c".into());
    let mut handling = None;
    match run_dispatch_loop(&conn, &mut handling, DispatchEvent::Received(Some(request("x", None)))) {
        DispatchAction::Dispatch(r) => assert_eq!(r.id, "test"),
        _ => panic!("expected a dispatch"),
    }
    assert_eq!(handling.as_deref(), Some("test"));
    let handled = || DispatchEvent::Handled(CommandResult::error("C", "M"));
    match run_dispatch_loop(&conn, &mut handling, handled()) {
        DispatchAction::Send(GatewayFrame::Req { id, method, params }) => {
            assert_eq!(id.len(), 36);
            assert_eq!(method, "node.invoke.result");
            assert_eq!(
                params.unwrap().to_text(),
                r#"{"error":{"code":"C","message":"M"},"id":"test","nodeId":"n","ok":false,"payloadJSON":null}"#
            );
        }
        _ => panic!("expected a result"),
    }
    assert_eq!(handling, None);
    assert!(matches!(run_dispatch_loop(&conn, &mut handling, handled()), DispatchAction::Receive));
    let mut turn = |event| run_dispatch_loop(&conn, &mut handling, event);
    assert!(matches!(turn(DispatchEvent::Received(None)), DispatchAction::Stop));
    assert!(matches!(turn(DispatchEvent::Sent(true)), DispatchAction::Receive));
    assert!(matches!(turn(DispatchEvent::Sent(false)), DispatchAction::Stop));
}

#[test]
fn commands_of_the_tunnel_are_answered() {
    let conn = TunnelConnection { instance_id: "me".into() };
    let command = Frame::Command(CommandPayload {
        id: "c-1".into(),
        method: "system.info".into(),
        params: JsonValue::Bool(true),
    });
    let mut handling = None;
    match run_tunnel_dispatch_loop(&conn, &mut handling, TunnelEvent::Received(Some(command))) {
        TunnelAction::Dispatch(r) => {
            assert_eq!(r.id, "c-1");
            assert_eq!(r.node_id, "me");
            assert_eq!(r.command, "system.info");
            assert_eq!(r.params.unwrap().to_text(), "true");
            assert_eq!(r.timeout_ms, None);
        }
        _ => panic!("expected a dispatch"),
    }
    assert_eq!(handling.as_deref(), Some("c-1"));
    let text = |result: CommandResult| {
        let mut handling = Some("c-1".to_string());
        match run_tunnel_dispatch_loop(&conn, &mut handling, TunnelEvent::Handled(result)) {
            TunnelAction::Send(f) => {
                assert_eq!(handling, None);
                f.to_json()
            }
            _ => panic!("expected a response"),
        }
    };
    assert_eq!(
        text(CommandResult::success(JsonValue::unsigned(1))),
        r#"{"type":"response","id":"c-1","ok":true,"data":1}"#
    );
    assert_eq!(
        text(CommandResult::error("C", "M")),
        r#"{"type":"response","id":"c-1","ok":false,"error":"M"}"#
    );
    assert_eq!(
        text(CommandResult { ok: false, payload: None, error: None }),
        r#"{"type":"response","id":"c-1","ok":false,"error":"unknown error"}"#
    );
    let mut handling = None;
    let mut turn = |event| run_tunnel_dispatch_loop(&conn, &mut handling, event);
    assert!(matches!(turn(TunnelEvent::Handled(CommandResult::error("C", "M"))), TunnelAction::Receive));
    assert!(matches!(turn(TunnelEvent::Received(Some(Frame::Ping))), TunnelAction::Receive));
    assert!(matches!(turn(TunnelEvent::Received(None)), TunnelAction::Stop));
    assert!(matches!(turn(TunnelEvent::Sent(true)), TunnelAction::Receive));
    assert!(matches!(turn(TunnelEvent::Sent(false)), TunnelAction::Stop));
}

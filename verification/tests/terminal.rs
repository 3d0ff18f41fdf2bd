use hanzo_tunnel::json::JsonValue;
use hanzo_tunnel::terminal::{
    choose_shell, default_cols, default_rows, exit_event, output_event, written, SpawnOutcome,
    TerminalEvent, TerminalExitData, TerminalManager, TerminalOpenParams, TerminalOutputData,
    TerminalSession,
};

fn params(shell: Option<&str>) -> TerminalOpenParams {
    TerminalOpenParams {
        shell: shell.map(|s| s.to_string()),
        cwd: None,
        env: vec![],
        cols: 80,
        rows: 24,
    }
}

fn open(mgr: &mut TerminalManager, id: &str, pid: u32) -> TerminalSession {
    let spawn = mgr.open_as(id.into(), params(Some("/bin/sh")), None);
    mgr.opened(spawn, SpawnOutcome::Running(Some(pid))).unwrap()
}

#[test]
fn terminal_open_params_defaults() {
    let json = "{}";
    let params: TerminalOpenParams = TerminalOpenParams::from_json(json).unwrap();
    assert_eq!(params.cols, 80);
    assert_eq!(params.rows, 24);
    assert!(params.shell.is_none());
}

#[test]
fn terminal_session_serialization() {
    let session = TerminalSession {
        session_id: "abc".into(),
        shell: "/bin/zsh".into(),
        pid: 12345,
        cols: 120,
        rows: 40,
    };
    let json = session.to_value().to_text();
    assert!(json.contains("\"pid\":12345"));
}

#[test]
fn terminal_manager_open_close() {
    let mut mgr = TerminalManager::new();

    let spawn = mgr.open(
        TerminalOpenParams {
            shell: Some("/bin/echo".into()),
            cwd: None,
            env: vec![],
            cols: 80,
            rows: 24,
        },
        None,
    );
    let session = mgr.opened(spawn, SpawnOutcome::Running(Some(100))).unwrap();

    assert!(!session.session_id.is_empty());
    assert_eq!(session.shell, "/bin/echo");

    let list = mgr.list();
    assert!(list.len() <= 1);
    assert_eq!(list[0].session_id, session.session_id);

    mgr.exited(&session.session_id);
    assert!(mgr.list().is_empty());
}

#[test]
fn usual_size_of_a_terminal() {
    assert_eq!(default_cols(), 80);
    assert_eq!(default_rows(), 24);
}

#[test]
fn open_params_are_read() {
    let json = r#"{"shell":"/bin/zsh","cwd":"/w","env":{"A":"1","B":"2"},"cols":100,"rows":50,"x":0}"#;
    let p = TerminalOpenParams::from_value(&JsonValue::parse(json).unwrap()).unwrap();
    assert_eq!(p.shell.as_deref(), Some("/bin/zsh"));
    assert_eq!(p.cwd.as_deref(), Some("/w"));
    let mut env = p.env.clone();
    env.sort();
    assert_eq!(env, vec![("A".to_string(), "1".to_string()), ("B".to_string(), "2".to_string())]);
    assert_eq!((p.cols, p.rows), (100, 50));
    assert_eq!(
        p.to_value().to_text(),
        r#"{"cols":100,"cwd":"/w","env":{"A":"1","B":"2"},"rows":50,"shell":"/bin/zsh"}"#
    );
    for bad in [
        "null",
        "1",
        r#"{"shell":1}"#,
        r#"{"cols":65536}"#,
        r#"{"cols":-1}"#,
        r#"{"rows":"24"}"#,
        r#"{"env":{"A":1}}"#,
        r#"{"env":[]}"#,
        r#"[null,null,{},1,2,3]"#,
    ] {
        assert!(TerminalOpenParams::from_value(&JsonValue::parse(bad).unwrap()).is_none(), "{}", bad);
    }
    for good in ["[]", r#"["/bin/sh"]"#, r#"{"shell":null,"cwd":null}"#, r#"{"cols":65535}"#] {
        assert!(TerminalOpenParams::from_value(&JsonValue::parse(good).unwrap()).is_some(), "{}", good);
    }
}

#[test]
fn sessions_are_read_back() {
    let json = r#"{"cols":1,"pid":4294967295,"rows":2,"session_id":"s","shell":"sh"}"#;
    let s = TerminalSession::from_value(&JsonValue::parse(json).unwrap()).unwrap();
    assert_eq!(s.to_value().to_text(), json);
    let json = r#"{"cols":1,"pid":4294967296,"rows":2,"session_id":"s","shell":"sh"}"#;
    assert!(TerminalSession::from_value(&JsonValue::parse(json).unwrap()).is_none());
}

#[test]
fn event_data_is_read_back() {
    let o = TerminalOutputData { session_id: "s".into(), data: "d".into() };
    assert_eq!(o.to_value().to_text(), r#"{"data":"d","session_id":"s"}"#);
    assert_eq!(TerminalOutputData::from_value(&o.to_value()).unwrap().data, "d");
    for code in [None, Some(0), Some(-1), Some(i32::MIN), Some(i32::MAX)] {
        let e = TerminalExitData { session_id: "s".into(), exit_code: code };
        assert_eq!(TerminalExitData::from_value(&e.to_value()).unwrap().exit_code, code);
    }
    for bad in [r#"{"exit_code":1}"#, r#"{"session_id":"s","exit_code":2147483648}"#, r#"["s"]"#] {
        assert!(TerminalExitData::from_value(&JsonValue::parse(bad).unwrap()).is_none());
    }
    let v = JsonValue::parse(r#"{"session_id":"s"}"#).unwrap();
    assert_eq!(TerminalExitData::from_value(&v).unwrap().exit_code, None);
}

#[test]
fn the_shell_is_the_one_asked_for_or_the_users() {
    assert_eq!(choose_shell(Some("a".into()), Some("b".into())), "a");
    assert_eq!(choose_shell(None, Some("b".into())), "b");
    assert_eq!(choose_shell(None, None), "/bin/sh");
}

#[test]
fn the_environment_tells_the_size() {
    let mut p = params(None);
    p.env = vec![("TERM".into(), "dumb".into()), ("X".into(), "y".into())];
    p.cols = 132;
    p.cwd = Some("/w".into());
    let spawn = TerminalManager::new().open_as("id".into(), p, Some("/bin/zsh".into()));
    assert_eq!(spawn.session_id, "id");
    assert_eq!(spawn.shell, "/bin/zsh");
    assert_eq!(spawn.cwd.as_deref(), Some("/w"));
    let env: std::collections::HashMap<String, String> = spawn.env.into_iter().collect();
    assert_eq!(env.len(), 4);
    assert_eq!(env["TERM"], "xterm-256color");
    assert_eq!(env["COLUMNS"], "132");
    assert_eq!(env["LINES"], "24");
    assert_eq!(env["X"], "y");
}

#[test]
fn programs_that_do_not_run_make_no_session() {
    let mut mgr = TerminalManager::new();
    for (outcome, text) in [
        (SpawnOutcome::Failed("no such file".into()), "spawn failed: no such file"),
        (SpawnOutcome::NoStdin, "no stdin"),
        (SpawnOutcome::NoStdout, "no stdout"),
        (SpawnOutcome::NoStderr, "no stderr"),
    ] {
        let spawn = mgr.open_as("id".into(), params(None), None);
        assert_eq!(mgr.opened(spawn, outcome).unwrap_err(), text);
        assert!(mgr.list().is_empty());
    }
    let spawn = mgr.open_as("id".into(), params(None), None);
    assert_eq!(mgr.opened(spawn, SpawnOutcome::Running(None)).unwrap().pid, 0);
}

#[test]
fn sessions_live_until_closed() {
    let mut mgr = TerminalManager::new();
    assert_eq!(mgr.input("a", b"x").unwrap_err(), "session not found: a");
    open(&mut mgr, "a", 1);
    open(&mut mgr, "b", 2);
    assert_eq!(mgr.input("a", b"x\xff").unwrap(), b"x\xff".to_vec());
    assert!(mgr.resize("a", 132, 1).is_ok());
    assert_eq!(mgr.resize("c", 1, 1).unwrap_err(), "session not found: c");
    let mut ids: Vec<(String, u32)> = mgr.list().into_iter().map(|s| (s.session_id, s.pid)).collect();
    ids.sort();
    assert_eq!(ids, vec![("a".to_string(), 1), ("b".to_string(), 2)]);
    for s in mgr.list() {
        assert_eq!((s.cols, s.rows), if s.session_id == "a" { (132, 1) } else { (80, 24) });
    }
    assert!(mgr.close("a").is_ok());
    assert_eq!(mgr.close("a").unwrap_err(), "session not found: a");
    assert!(mgr.input("a", b"").is_err());
    assert!(mgr.input("b", b"").is_ok());
    mgr.exited("a");
    assert_eq!(mgr.list().len(), 1);
    mgr.exited("b");
    assert!(mgr.list().is_empty());
}

#[test]
fn a_new_session_takes_the_place_of_one_with_its_name() {
    let mut mgr = TerminalManager::new();
    open(&mut mgr, "a", 1);
    open(&mut mgr, "b", 2);
    open(&mut mgr, "a", 3);
    let mut ids: Vec<(String, u32)> = mgr.list().into_iter().map(|s| (s.session_id, s.pid)).collect();
    ids.sort();
    assert_eq!(ids, vec![("a".to_string(), 3), ("b".to_string(), 2)]);
}

#[test]
fn output_is_decoded() {
    match output_event("s", b"ok \xff\xc3\xa9") {
        TerminalEvent::Output { session_id, data } => {
            assert_eq!(session_id, "s");
            assert_eq!(data, "ok \u{fffd}\u{e9}");
        }
        _ => panic!("expected output"),
    }
    match exit_event("s", Some(3)) {
        TerminalEvent::Exit { session_id, exit_code } => {
            assert_eq!(session_id, "s");
            assert_eq!(exit_code, Some(3));
        }
        _ => panic!("expected an exit"),
    }
    assert!(written(true).is_ok());
    assert_eq!(written(false).unwrap_err(), "stdin closed");
}

#[test]
fn a_program_that_ends_at_once_makes_no_session() {
    let mut mgr = TerminalManager::new();
    let spawn = mgr.open_as("a".into(), params(None), None);
    mgr.exited("a");
    assert_eq!(mgr.opened(spawn, SpawnOutcome::Running(Some(4))).unwrap().pid, 4);
    assert!(mgr.list().is_empty());
    open(&mut mgr, "a", 5);
    assert_eq!(mgr.list().len(), 1);
}

#[test]
fn a_session_is_listed_from_its_opening_to_its_end() {
    let mut mgr = TerminalManager::new();
    let first = mgr.open_as("a".into(), params(None), None);
    let second = mgr.open_as("b".into(), params(None), None);
    assert!(mgr.list().is_empty());
    assert_eq!(mgr.close("a").unwrap_err(), "session not found: a");
    mgr.opened(second, SpawnOutcome::Running(Some(2))).unwrap();
    mgr.opened(first, SpawnOutcome::Running(Some(1))).unwrap();
    mgr.resize("b", 7, 8).unwrap();
    mgr.close("a").unwrap();
    mgr.exited("a");
    let list = mgr.list();
    assert_eq!(list.len(), 1);
    assert_eq!((list[0].session_id.as_str(), list[0].cols, list[0].rows), ("b", 7, 8));
}

#[test]
fn fields_of_sessions_are_given_once() {
    for text in [r#"{"cols":1,"cols":1}"#, r#"{"env":{},"env":{}}"#, r#"{"shell":null,"shell":"s"}"#] {
        assert!(TerminalOpenParams::from_json(text).is_none(), "{}", text);
    }
    let read = TerminalOpenParams::from_json(r#"{"env":{"A":"1","A":"2"},"x":1,"x":1}"#).unwrap();
    assert_eq!(read.env, vec![("A".to_string(), "2".to_string())]);
    let text = r#"{"cols":1,"pid":2,"rows":3,"session_id":"s","shell":"sh"}"#;
    assert_eq!(TerminalSession::from_json(text).unwrap().to_value().to_text(), text);
    let text = r#"{"cols":1,"pid":2,"pid":2,"rows":3,"session_id":"s","shell":"sh"}"#;
    assert!(TerminalSession::from_json(text).is_none());
    assert!(TerminalOutputData::from_json(r#"{"session_id":"s","data":"d","data":"d"}"#).is_none());
    assert_eq!(TerminalOutputData::from_json(r#"{"session_id":"s","data":"d"}"#).unwrap().data, "d");
    assert!(TerminalExitData::from_json(r#"{"session_id":"s","exit_code":1,"exit_code":1}"#).is_none());
    assert_eq!(TerminalExitData::from_json(r#"{"session_id":"s","exit_code":1}"#).unwrap().exit_code, Some(1));
}

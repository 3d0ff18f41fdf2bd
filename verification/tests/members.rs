use hanzo_tunnel::json::JsonValue;
use hanzo_tunnel::members::Members;
use hanzo_tunnel::Frame;

#[test]
fn members_are_counted_and_found() {
    let text = r#" {"a" : [1, {"a": 2}], "b\"" :"x,}\"y" , "a":null}"#;
    let m = Members::read(text);
    assert_eq!(m.count(), 3);
    assert!(m.repeats("a"));
    assert!(!m.repeats("b\""));
    assert!(!m.repeats("z"));
    assert_eq!(m.field(0, "a").trim(), r#"[1, {"a": 2}]"#);
    assert_eq!(m.field(0, "b\"").trim(), r#""x,}\"y""#);
    assert_eq!(m.field(0, "z"), "");
}

#[test]
fn items_have_no_names() {
    let m = Members::read(r#"["a",{"a":1,"b":[]},[2,3]]"#);
    assert_eq!(m.count(), 3);
    assert!(!m.repeats("a"));
    assert_eq!(m.field(0, "a"), r#""a""#);
    assert_eq!(m.field(1, "a"), r#"{"a":1,"b":[]}"#);
    assert_eq!(m.field(2, "a"), "[2,3]");
    assert_eq!(m.field(3, "a"), "");
}

#[test]
fn other_texts_list_nothing() {
    for text in ["", "1", "null", r#""{\"a\":1}""#, "{}", " { } "] {
        assert_eq!(Members::read(text).count(), 0, "{}", text);
    }
}

#[test]
fn a_list_may_be_given() {
    let list = vec![
        (Some("id".to_string()), "1".to_string()),
        (Some("type".to_string()), "2".to_string()),
        (Some("id".to_string()), "3".to_string()),
    ];
    let m = Members::of(list);
    assert_eq!(m.count(), 3);
    assert!(m.repeats("id"));
    assert!(!m.repeats("type"));
    assert_eq!(m.field(1, "id"), "1");
    let command = JsonValue::parse(r#"{"type":"command","id":"i","method":"m"}"#);
    assert!(Frame::from_listed(command.clone(), &m).is_none());
    assert!(Frame::from_listed(command, &Members::of(vec![])).is_some());
    assert!(Frame::from_listed(None, &Members::of(vec![])).is_none());
}

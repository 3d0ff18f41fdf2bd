use hanzo_tunnel::json::{JsonValue, Member, ObjectBuilder};

#[test]
fn values_are_read_and_written() {
    for text in [
        "null",
        "true",
        "0",
        "-1",
        "18446744073709551615",
        "-9223372036854775808",
        "1.5",
        "\"a\\\"b\\n\"",
        "[]",
        "[1,[2,\"x\"]]",
        "{}",
        "{\"a\":{\"b\":[null]},\"c\":false}",
    ] {
        let v = JsonValue::parse(text).unwrap();
        assert_eq!(v.to_text(), text);
        assert_eq!(v.clone().to_text(), text);
    }
}

#[test]
fn what_is_no_json_is_not_read() {
    for text in ["", "{", "[1,]", "nul", "'a'", "01", "1 2"] {
        assert!(JsonValue::parse(text).is_none(), "{}", text);
    }
}

#[test]
fn nesting_is_read_to_a_limit() {
    let deep = |n: usize| "[".repeat(n) + &"]".repeat(n);
    assert!(JsonValue::parse(&deep(127)).is_some());
    assert!(JsonValue::parse(&deep(128)).is_none());
    assert_eq!(JsonValue::parse(&deep(127)).unwrap().to_text(), deep(127));
}

#[test]
fn the_last_member_with_a_name_counts() {
    let v = JsonValue::parse(r#"{"a":1,"a":2}"#).unwrap();
    assert_eq!(v.get_u64("a"), Some(2));
    let v = JsonValue::Object(vec![
        Member { name: "a".into(), value: JsonValue::unsigned(1) },
        Member { name: "a".into(), value: JsonValue::unsigned(2) },
    ]);
    assert_eq!(v.get_u64("a"), Some(2));
    assert_eq!(v.to_text(), r#"{"a":2}"#);
}

#[test]
fn members_are_found_by_name() {
    let v = JsonValue::parse(r#"{"s":"x","n":3,"m":-3,"f":3.0}"#).unwrap();
    assert_eq!(v.get_str("s"), Some("x"));
    assert_eq!(v.get_str("n"), None);
    assert_eq!(v.get_u64("n"), Some(3));
    assert_eq!(v.get_u64("m"), None);
    assert_eq!(v.get_u64("f"), None);
    assert_eq!(v.get_u64("z"), None);
    assert!(v.get("s").is_some());
    assert!(JsonValue::Null.get("s").is_none());
    assert!(JsonValue::parse("[1]").unwrap().get("0").is_none());
    assert_eq!(JsonValue::signed(7).as_u64(), Some(7));
}

#[test]
fn objects_are_built() {
    let mut o = ObjectBuilder::new();
    o.put("b", JsonValue::text("x"));
    o.put_some("c", None);
    o.put_some("a", Some(JsonValue::nullable(None)));
    o.put("b", JsonValue::texts(&vec!["p".to_string(), "q".to_string()]));
    assert_eq!(o.build().to_text(), r#"{"a":null,"b":["p","q"]}"#);
}

#[test]
fn objects_are_written_in_order() {
    let mut o = ObjectBuilder::new();
    o.put("b", JsonValue::parse(r#"{"z":1,"y":2}"#).unwrap());
    o.put("a", JsonValue::text("\n"));
    assert_eq!(o.text(), r#"{"b":{"y":2,"z":1},"a":"\n"}"#);
    assert_eq!(ObjectBuilder::new().text(), "{}");
}

#[test]
fn every_member_of_a_text_is_read() {
    let deep = "[".repeat(127) + &"]".repeat(127);
    let twice = || {
        let mut o = ObjectBuilder::new();
        o.put("a", JsonValue::parse(&deep).unwrap());
        o.put("a", JsonValue::unsigned(1));
        o
    };
    assert_eq!(twice().build().to_text(), r#"{"a":1}"#);
    assert_eq!(twice().text(), r#"{"a":"#.to_string() + &deep + r#","a":1}"#);
    assert!(JsonValue::parse(&twice().text()).is_none());
}

#[test]
fn nested_members_with_one_name_are_merged() {
    let inner = JsonValue::Object(vec![
        Member { name: "b".into(), value: JsonValue::unsigned(1) },
        Member { name: "a".into(), value: JsonValue::unsigned(2) },
        Member { name: "b".into(), value: JsonValue::Null },
        Member { name: "b".into(), value: JsonValue::text("last") },
    ]);
    assert_eq!(JsonValue::Array(vec![inner]).to_text(), r#"[{"a":2,"b":"last"}]"#);
    assert_eq!(JsonValue::Object(vec![]).to_text(), "{}");
}

use hanzo_tunnel::table::Table;

#[test]
fn tables_hold_one_value_under_a_name() {
    let mut t: Table<u64> = Table::new();
    assert_eq!(t.get("a"), None);
    t.insert("a", 1);
    t.insert("b", 2);
    t.insert("a", 3);
    assert_eq!(t.get("a"), Some(3));
    assert_eq!(t.get("b"), Some(2));
    t.remove("a");
    t.remove("z");
    assert_eq!(t.get("a"), None);
    assert_eq!(t.get("b"), Some(2));
}

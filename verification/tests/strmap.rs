use protocol_executor::strmap::StrMap;

fn map_of(pairs: &[(&str, &str)]) -> StrMap<String> {
    let mut m = StrMap::new();
    for (k, v) in pairs {
        m.insert(k.to_string(), v.to_string());
    }
    m
}

#[test]
fn read_after_write() {
    let mut m = map_of(&[("a", "1"), ("b", "2")]);
    assert_eq!(m.get("a"), Some(&"1".to_string()));
    m.insert("a".to_string(), "3".to_string());
    assert_eq!(m.get("a"), Some(&"3".to_string()));
    assert_eq!(m.get("b"), Some(&"2".to_string()));
    assert_eq!(m.get("c"), None);
    assert!(m.contains_key("b"));
    assert!(!m.contains_key("c"));
    assert_eq!(m.len(), 2);
}

#[test]
fn keys_keep_first_insertion_order() {
    let mut m = map_of(&[("z", "1"), ("a", "2"), ("m", "3")]);
    m.insert("a".to_string(), "4".to_string());
    assert_eq!(m.keys(), vec!["z".to_string(), "a".to_string(), "m".to_string()]);
}

#[test]
fn extending_prefers_the_added_entries() {
    let mut base = map_of(&[("a", "1"), ("b", "2")]);
    let more = map_of(&[("b", "20"), ("c", "30")]);
    base.extend_from(&more);
    assert_eq!(base.get("a"), Some(&"1".to_string()));
    assert_eq!(base.get("b"), Some(&"20".to_string()));
    assert_eq!(base.get("c"), Some(&"30".to_string()));
    assert_eq!(base.len(), 3);
}

#[test]
fn duplicate_is_equal() {
    let m = map_of(&[("x", "1"), ("y", "2")]);
    let d = m.duplicate();
    assert_eq!(d.keys(), m.keys());
    assert_eq!(d.get("y"), Some(&"2".to_string()));
}

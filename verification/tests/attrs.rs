use sherlock::attrs::{get_attrs_map, Attrs};

#[test]
fn new_mapping_is_empty() {
    let attrs = Attrs::new();
    assert_eq!(attrs.len(), 0);
    assert!(attrs.get("method").is_none());
    assert!(!attrs.contains_key("method"));
}

#[test]
fn insert_sets_and_overrides() {
    let mut attrs = Attrs::new();
    attrs.insert(String::from("method"), String::from("app_launcher"));
    attrs.insert(String::from("result"), String::from("4"));
    assert_eq!(attrs.len(), 2);
    assert_eq!(attrs.get("method").map(|s| s.as_str()), Some("app_launcher"));
    assert_eq!(attrs.get("result").map(|s| s.as_str()), Some("4"));
    attrs.insert(String::from("method"), String::from("web"));
    assert_eq!(attrs.len(), 2);
    assert_eq!(attrs.get("method").map(|s| s.as_str()), Some("web"));
    assert_eq!(attrs.get("result").map(|s| s.as_str()), Some("4"));
    assert!(attrs.get("Method").is_none());
}

#[test]
fn entries_come_in_the_order_of_their_keys() {
    let mut attrs = Attrs::new();
    attrs.insert(String::from("b"), String::from("1"));
    attrs.insert(String::from("a"), String::from("2"));
    attrs.insert(String::from("b"), String::from("3"));
    let (k0, v0) = attrs.entry(0);
    assert_eq!((k0.as_str(), v0.as_str()), ("b", "3"));
    let (k1, v1) = attrs.entry(1);
    assert_eq!((k1.as_str(), v1.as_str()), ("a", "2"));
}

#[test]
fn duplicate_is_independent() {
    let mut attrs = Attrs::new();
    attrs.insert(String::from("method"), String::from("m"));
    let mut copy = attrs.duplicate();
    copy.insert(String::from("next_content"), String::from("n"));
    copy.insert(String::from("method"), String::from("other"));
    assert_eq!(attrs.len(), 1);
    assert_eq!(attrs.get("method").map(|s| s.as_str()), Some("m"));
    assert_eq!(copy.len(), 2);
    assert_eq!(copy.get("method").map(|s| s.as_str()), Some("other"));
}

#[test]
fn pairs_make_a_mapping_where_the_later_pair_stays() {
    let attrs = get_attrs_map(vec![("method", "a"), ("keyword", "k"), ("method", "b")]);
    assert_eq!(attrs.len(), 2);
    assert_eq!(attrs.get("method").map(|s| s.as_str()), Some("b"));
    assert_eq!(attrs.get("keyword").map(|s| s.as_str()), Some("k"));
    assert_eq!(get_attrs_map(Vec::new()).len(), 0);
}

use planner_tables::string_map::StringMap;

fn map_of(entries: &[(&str, &str)]) -> StringMap {
    let mut map = StringMap::new();
    for (key, value) in entries {
        map.insert(key.to_string(), value.to_string());
    }
    map
}

#[test]
fn a_key_gives_back_its_text() {
    let map = map_of(&[("a", "1"), ("b", "2")]);
    assert_eq!(map.get("a").map(|s| s.as_str()), Some("1"));
    assert_eq!(map.get("b").map(|s| s.as_str()), Some("2"));
    assert!(map.get("c").is_none());
    assert_eq!(map.len(), 2);
    assert!(!map.is_empty());
}

#[test]
fn inserting_again_replaces_in_place() {
    let mut map = map_of(&[("a", "1"), ("b", "2")]);
    assert_eq!(map.insert("a".to_string(), "3".to_string()), Some("1".to_string()));
    assert_eq!(map.insert("c".to_string(), "4".to_string()), None);
    assert_eq!(map.keys(), vec!["a".to_string(), "b".to_string(), "c".to_string()]);
    assert_eq!(map.get("a").map(|s| s.as_str()), Some("3"));
}

#[test]
fn removing_gives_the_text_once() {
    let mut map = map_of(&[("a", "1"), ("b", "2"), ("c", "3")]);
    assert_eq!(map.remove("b"), Some("2".to_string()));
    assert_eq!(map.remove("b"), None);
    assert_eq!(map.keys(), vec!["a".to_string(), "c".to_string()]);
    map.remove("a");
    map.remove("c");
    assert!(map.is_empty());
    assert_eq!(map.len(), 0);
}

#[test]
fn maps_are_compared_without_order() {
    assert!(map_of(&[("a", "1"), ("b", "2")]) == map_of(&[("b", "2"), ("a", "1")]));
    assert!(map_of(&[("a", "1")]) != map_of(&[("a", "2")]));
    assert!(map_of(&[("a", "1")]) != map_of(&[("a", "1"), ("b", "2")]));
    let map = map_of(&[("a", "1"), ("b", "2")]);
    assert!(map.clone() == map);
}

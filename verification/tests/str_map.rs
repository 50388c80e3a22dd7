use oadiscord::sorting::chars_le_exec;
use oadiscord::str_map::StrMap;

#[test]
fn str_map_insert_get_remove() {
    let mut m: StrMap<i32> = StrMap::new();
    assert_eq!(m.insert("a".to_string(), 1), None);
    assert_eq!(m.insert("b".to_string(), 2), None);
    assert_eq!(m.insert("a".to_string(), 3), Some(1));
    assert_eq!(m.len(), 2);
    assert_eq!(m.get("a"), Some(&3));
    assert!(m.contains_key("b"));
    assert_eq!(m.remove("b"), Some(2));
    assert_eq!(m.remove("b"), None);
    assert!(!m.contains_key("b"));
    assert_eq!(m.keys(), vec!["a".to_string()]);
    m.clear();
    assert_eq!(m.len(), 0);
}

#[test]
fn string_map_merge_and_duplicate() {
    let mut a: StrMap<String> = StrMap::new();
    a.insert("x".to_string(), "1".to_string());
    a.insert("y".to_string(), "2".to_string());
    let mut b: StrMap<String> = StrMap::new();
    b.insert("y".to_string(), "3".to_string());
    b.insert("z".to_string(), "4".to_string());
    a.merge_from(&b);
    assert_eq!(a.len(), 3);
    assert_eq!(a.get("y").map(|v| v.as_str()), Some("3"));
    let c = a.duplicate();
    assert_eq!(c.get("z").map(|v| v.as_str()), Some("4"));
    assert_eq!(c.len(), 3);
}

#[test]
fn chars_order_is_string_order() {
    let words = ["", "a", "ab", "b", "B", "é", "z", "aa"];
    for x in words {
        for y in words {
            let xv: Vec<char> = x.chars().collect();
            let yv: Vec<char> = y.chars().collect();
            assert_eq!(chars_le_exec(&xv, &yv), x <= y, "{:?} {:?}", x, y);
        }
    }
}


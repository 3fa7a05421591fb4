use stackable_monitoring::properties::Properties;

#[test]
fn property_read_after_write() {
    let mut p = Properties::new();
    assert_eq!(p.get("a"), None);
    p.insert("a".to_string(), "1".to_string());
    p.insert("b".to_string(), "2".to_string());
    assert_eq!(p.get("a").map(|s| s.as_str()), Some("1"));
    p.insert("a".to_string(), "3".to_string());
    assert_eq!(p.get("a").map(|s| s.as_str()), Some("3"));
    assert_eq!(p.get("b").map(|s| s.as_str()), Some("2"));
    assert_eq!(p.len(), 2);
    let (k, v) = p.entry(0);
    assert_eq!((k.as_str(), v.as_str()), ("a", "3"));
}

#[test]
fn properties_in_name_order() {
    let mut p = Properties::new();
    for (k, v) in [("b", "1"), ("a", "2"), ("ab", "3"), ("B", "4"), ("", "5"), ("b", "6")] {
        p.insert(k.to_string(), v.to_string());
    }
    let names: Vec<(String, String)> =
        (0..p.len()).map(|i| { let (k, v) = p.entry(i); (k.clone(), v.clone()) }).collect();
    let expected: Vec<(String, String)> = [("", "5"), ("B", "4"), ("a", "2"), ("ab", "3"), ("b", "6")]
        .iter()
        .map(|(k, v)| (k.to_string(), v.to_string()))
        .collect();
    assert_eq!(names, expected);
}

use sassas::mut_map::{MutMap, MutStrMap};

#[test]
fn str_map_starts_empty() {
    let m: MutStrMap<u32> = MutStrMap::new();
    assert_eq!(m.len(), 0);
    assert!(m.get("a").is_none());
    assert!(!m.contains_key("a"));
}

#[test]
fn str_map_read_after_write() {
    let mut m: MutStrMap<u32> = MutStrMap::new();
    assert_eq!(m.insert("a", 1), None);
    assert_eq!(m.insert("b", 2), None);
    assert_eq!(m.get("a"), Some(&1));
    assert_eq!(m.get("b"), Some(&2));
    assert!(m.contains_key("a"));
    assert_eq!(m.len(), 2);
    // a second store under the same key replaces the first
    assert_eq!(m.insert("a", 7), Some(1));
    assert_eq!(m.get("a"), Some(&7));
    assert_eq!(m.len(), 2);
    assert_eq!(*m.index("b"), 2);
}

#[test]
fn str_map_remove() {
    let mut m: MutStrMap<u32> = MutStrMap::new();
    m.insert("x", 5);
    m.insert("y", 6);
    assert_eq!(m.remove("x"), Some(5));
    assert_eq!(m.remove("x"), None);
    assert!(m.get("x").is_none());
    assert_eq!(m.get("y"), Some(&6));
    assert_eq!(m.len(), 1);
}

#[test]
fn str_map_index_mut_inserts_default() {
    let mut m: MutStrMap<u32> = MutStrMap::new();
    *m.index_mut("n") += 3;
    assert_eq!(m.get("n"), Some(&3));
    *m.index_mut("n") += 4;
    assert_eq!(m.get("n"), Some(&7));
}

#[test]
fn str_map_iterates_in_insertion_order() {
    let mut m: MutStrMap<u32> = MutStrMap::new();
    m.insert("c", 3);
    m.insert("a", 1);
    m.insert("b", 2);
    m.insert("a", 10);
    let mut it = m.iter();
    let mut seen = Vec::new();
    while let Some((k, v)) = it.next() {
        seen.push((k.clone(), *v));
    }
    assert_eq!(
        seen,
        vec![("c".to_string(), 3), ("a".to_string(), 10), ("b".to_string(), 2)]
    );
    let mut keys = m.keys();
    let mut ks = Vec::new();
    while let Some(k) = keys.next() {
        ks.push(k.clone());
    }
    assert_eq!(ks, vec!["c".to_string(), "a".to_string(), "b".to_string()]);
    let mut values = m.values();
    let mut vs = Vec::new();
    while let Some(v) = values.next() {
        vs.push(*v);
    }
    assert_eq!(vs, vec![3, 10, 2]);
}

#[test]
fn iter_size_hint_counts_remaining() {
    let mut m: MutStrMap<u32> = MutStrMap::new();
    m.insert("a", 1);
    m.insert("b", 2);
    let mut it = m.iter();
    assert_eq!(it.size_hint(), (2, Some(2)));
    it.next();
    assert_eq!(it.size_hint(), (1, Some(1)));
    it.next();
    assert_eq!(it.size_hint(), (0, Some(0)));
    assert!(it.next().is_none());
}

#[test]
fn int_map_read_after_write() {
    let mut m: MutMap<u64, String> = MutMap::new();
    assert_eq!(m.insert(4, "four".to_string()), None);
    assert_eq!(m.insert(9, "nine".to_string()), None);
    assert_eq!(m.get(&4), Some(&"four".to_string()));
    assert!(m.contains_key(&9));
    assert!(!m.contains_key(&5));
    assert_eq!(m.len(), 2);
    assert_eq!(m.insert(4, "FOUR".to_string()), Some("four".to_string()));
    assert_eq!(m.index(&4), &"FOUR".to_string());
    assert_eq!(m.remove(&9), Some("nine".to_string()));
    assert_eq!(m.len(), 1);
}

#[test]
fn present_exactly_when_stored_and_not_removed() {
    let mut m: MutStrMap<u64> = MutStrMap::new();
    assert!(!m.contains_key("a"));
    m.insert("a", 1);
    *m.index_mut("b") += 2;
    m.insert("c", 3);
    m.remove("a");
    assert!(!m.contains_key("a"));
    assert_eq!(m.get("a"), None);
    assert!(m.contains_key("b"));
    assert_eq!(m.get("b"), Some(&2));
    assert!(m.contains_key("c"));
    m.insert("a", 4);
    assert_eq!(m.get("a"), Some(&4));
    assert_eq!(m.len(), 3);
}

#[test]
fn duplicate_keeps_entries_and_order() {
    let mut m: MutStrMap<String> = MutStrMap::new();
    m.insert("x", "1".to_string());
    m.insert("y", "2".to_string());
    let d = m.duplicate();
    m.insert("x", "3".to_string());
    assert_eq!(d.get("x"), Some(&"1".to_string()));
    assert_eq!(d.get("y"), Some(&"2".to_string()));
    let mut it = d.keys();
    assert_eq!(it.next(), Some(&"x".to_string()));
    assert_eq!(it.next(), Some(&"y".to_string()));
    assert_eq!(it.next(), None);
}

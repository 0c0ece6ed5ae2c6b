use dsr::KvMap;

fn s(x: &str) -> String {
    x.to_string()
}

#[test]
fn set_then_get() {
    let mut m = KvMap::new();
    m.set(s("a"), s("1"));
    assert_eq!(m.get(&s("a")), Some(s("1")));
    assert_eq!(m.get(&s("b")), None);
}

#[test]
fn set_overwrites() {
    let mut m = KvMap::new();
    m.set(s("a"), s("1"));
    m.set(s("a"), s("2"));
    assert_eq!(m.get(&s("a")), Some(s("2")));
}

#[test]
fn delete_removes() {
    let mut m = KvMap::new();
    m.set(s("a"), s("1"));
    m.set(s("b"), s("2"));
    m.delete(&s("a"));
    assert_eq!(m.get(&s("a")), None);
    assert_eq!(m.get(&s("b")), Some(s("2")));
}

#[test]
fn delete_absent_is_noop() {
    let mut m = KvMap::new();
    m.set(s("a"), s("1"));
    m.delete(&s("zzz"));
    assert_eq!(m.get(&s("a")), Some(s("1")));
    assert!(!m.is_empty());
}

#[test]
fn new_map_is_empty() {
    let m = KvMap::new();
    assert!(m.is_empty());
}

#[test]
fn dup_denotes_same_map() {
    let mut m = KvMap::new();
    m.set(s("a"), s("1"));
    m.set(s("b"), s("2"));
    let d = m.dup();
    assert!(m.eq_map(&d));
    assert_eq!(d.get(&s("a")), Some(s("1")));
    assert_eq!(d.get(&s("b")), Some(s("2")));
}

#[test]
fn eq_map_ignores_insertion_order() {
    let mut m1 = KvMap::new();
    m1.set(s("a"), s("1"));
    m1.set(s("b"), s("2"));
    let mut m2 = KvMap::new();
    m2.set(s("b"), s("2"));
    m2.set(s("a"), s("1"));
    assert!(m1.eq_map(&m2));
}

#[test]
fn eq_map_detects_difference() {
    let mut m1 = KvMap::new();
    m1.set(s("a"), s("1"));
    let mut m2 = KvMap::new();
    m2.set(s("a"), s("2"));
    assert!(!m1.eq_map(&m2));
    let m3 = KvMap::new();
    assert!(!m1.eq_map(&m3));
    assert!(!m3.eq_map(&m1));
}

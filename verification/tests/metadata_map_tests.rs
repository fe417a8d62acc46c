use http::HeaderMap;
use tower_grpc::metadata_key::MetadataKey;
use tower_grpc::metadata_map::{Entry, MetadataMap};
use tower_grpc::metadata_value::MetadataValue;

fn v(s: &'static str) -> MetadataValue {
    MetadataValue::from_static(s)
}

#[test]
fn map_insert_get_remove() {
    let mut map = MetadataMap::new();
    map.insert("x-host", MetadataValue::from_str("example.com").unwrap());
    map.insert("x-number", MetadataValue::from_str("123").unwrap());
    assert!(map.contains_key("x-host"));
    assert!(!map.contains_key("x-location"));
    assert_eq!(map.get("x-host").unwrap().as_bytes(), b"example.com");
    map.remove("x-host");
    assert!(!map.contains_key("x-host"));
}

#[test]
fn new_map_is_empty_without_capacity() {
    let map = MetadataMap::new();
    assert!(map.is_empty());
    assert_eq!(map.capacity(), 0);
    let map2 = MetadataMap::with_capacity(10);
    assert!(map2.capacity() >= 10);
}

#[test]
fn lookup_ignores_case() {
    let mut map = MetadataMap::new();
    map.insert("x-host", v("a"));
    assert_eq!(map.get("X-Host").unwrap().as_bytes(), b"a");
    assert!(map.get("bad key").is_none());
    let key = MetadataKey::from_bytes(b"X-HOST").unwrap();
    assert_eq!(map.get(&key).unwrap().as_bytes(), b"a");
}

#[test]
fn insert_replaces_all_values() {
    let mut map = MetadataMap::new();
    map.append("x-a", v("1"));
    map.append("x-a", v("2"));
    assert_eq!(map.len(), 2);
    assert_eq!(map.keys_len(), 1);
    let old = map.insert("x-a", v("3")).unwrap();
    assert_eq!(old.as_bytes(), b"1");
    let all: Vec<Vec<u8>> = {
        let mut it = map.get_all("x-a").iter();
        let mut out = Vec::new();
        while let Some(x) = it.next() {
            out.push(x.as_bytes().to_vec());
        }
        out
    };
    assert_eq!(all, vec![b"3".to_vec()]);
    assert_eq!(map.len(), 1);
}

#[test]
fn append_keeps_order() {
    let mut map = MetadataMap::new();
    assert!(!map.append("x-a", v("1")));
    assert!(map.append("x-a", v("2")));
    assert!(!map.append("x-b", v("3")));
    let mut it = map.get_all("x-a").iter();
    assert_eq!(it.next_back().unwrap().as_bytes(), b"2");
    assert_eq!(it.next().unwrap().as_bytes(), b"1");
    assert!(it.next().is_none());
    let mut values = map.values();
    assert_eq!(values.next().unwrap().as_bytes(), b"1");
    assert_eq!(values.next().unwrap().as_bytes(), b"2");
    assert_eq!(values.next().unwrap().as_bytes(), b"3");
    assert!(values.next().is_none());
}

#[test]
fn remove_moves_last_entry_into_place() {
    let mut map = MetadataMap::new();
    map.insert("x-a", v("1"));
    map.insert("x-b", v("2"));
    map.insert("x-c", v("3"));
    assert_eq!(map.remove("x-a").unwrap().as_bytes(), b"1");
    let mut keys = map.keys();
    assert_eq!(keys.next().unwrap(), "x-c");
    assert_eq!(keys.next().unwrap(), "x-b");
    assert!(keys.next().is_none());
    assert!(map.remove("x-a").is_none());
}

#[test]
fn iter_yields_each_value_with_its_key() {
    let mut map = MetadataMap::new();
    map.append("x-a", v("1"));
    map.append("x-a", v("2"));
    map.append("x-b", v("3"));
    let mut it = map.iter();
    let mut seen = Vec::new();
    while let Some((k, val)) = it.next() {
        seen.push((k.to_string(), val.as_bytes().to_vec()));
    }
    assert_eq!(
        seen,
        vec![
            ("x-a".to_string(), b"1".to_vec()),
            ("x-a".to_string(), b"2".to_vec()),
            ("x-b".to_string(), b"3".to_vec()),
        ]
    );
}

#[test]
fn get_mut_changes_the_first_value() {
    let mut map = MetadataMap::new();
    map.append("x-a", v("1"));
    map.append("x-a", v("2"));
    *map.get_mut("x-a").unwrap() = v("9");
    assert_eq!(map.get("x-a").unwrap().as_bytes(), b"9");
    assert_eq!(map.len(), 2);
}

#[test]
fn clear_and_drain_empty_the_map() {
    let mut map = MetadataMap::with_capacity(4);
    map.append("x-a", v("1"));
    map.append("x-a", v("2"));
    map.insert("x-b", v("3"));
    let cap = map.capacity();
    let mut d = map.drain();
    assert!(map.is_empty());
    assert_eq!(map.capacity(), cap);
    let (k, mut vals) = d.next().unwrap();
    assert_eq!(k.as_str(), "x-a");
    assert_eq!(vals.next().unwrap().as_bytes(), b"1");
    assert_eq!(vals.next().unwrap().as_bytes(), b"2");
    assert!(vals.next().is_none());
    let (k2, _) = d.next().unwrap();
    assert_eq!(k2.as_str(), "x-b");
    assert!(d.next().is_none());
    map.insert("x-c", v("4"));
    map.clear();
    assert!(map.is_empty());
}

#[test]
fn test_from_headers_takes_http_headers() {
    let mut http_map = HeaderMap::new();
    http_map.insert("x-host", "example.com".parse().unwrap());
    let map = MetadataMap::from_headers(http_map);
    assert_eq!(map.get("x-host").unwrap().as_bytes(), b"example.com");
}

#[test]
fn headers_round_trip() {
    let mut http_map = HeaderMap::new();
    http_map.append("x-a", "1".parse().unwrap());
    http_map.append("x-a", "2".parse().unwrap());
    http_map.insert("x-b", "3".parse().unwrap());
    let back = MetadataMap::from_headers(http_map.clone()).into_headers();
    assert_eq!(back, http_map);
}

#[test]
fn reserve_keeps_entries() {
    let mut map = MetadataMap::new();
    map.insert("x-a", v("1"));
    let before = map.capacity();
    map.reserve(100);
    assert!(map.capacity() >= before);
    assert!(map.capacity() >= 101 - 101 / 4);
    assert_eq!(map.get("x-a").unwrap().as_bytes(), b"1");
    let cap = map.capacity();
    map.reserve(1);
    assert_eq!(map.capacity(), cap);
    let mut empty = MetadataMap::new();
    empty.reserve(10);
    assert!(empty.capacity() >= 8);
}

#[test]
fn entry_vacant_then_occupied() {
    let mut map = MetadataMap::new();
    match map.entry("x-hello").unwrap() {
        Entry::Vacant(e) => {
            assert_eq!(e.key().as_str(), "x-hello");
            let r = e.insert(v("world"));
            assert_eq!(r.as_bytes(), b"world");
        }
        Entry::Occupied(_) => panic!("should be vacant"),
    }
    match map.entry("X-Hello").unwrap() {
        Entry::Occupied(mut e) => {
            assert_eq!(e.get().as_bytes(), b"world");
            e.append(v("again"));
            let old = e.insert(v("new"));
            assert_eq!(old.as_bytes(), b"world");
        }
        Entry::Vacant(_) => panic!("should be occupied"),
    }
    assert_eq!(map.len(), 1);
    assert_eq!(map.get("x-hello").unwrap().as_bytes(), b"new");
    assert!(map.entry("bad key").is_err());
}

#[test]
fn entry_or_insert() {
    let mut map = MetadataMap::new();
    let first = map.entry("x-count").unwrap().or_insert(v("1"));
    assert_eq!(first.as_bytes(), b"1");
    let second = map.entry("x-count").unwrap().or_insert(v("2"));
    assert_eq!(second.as_bytes(), b"1");
    let third = map.entry("x-other").unwrap().or_insert_with(|| v("3"));
    assert_eq!(third.as_bytes(), b"3");
    assert_eq!(map.keys_len(), 2);
}

#[test]
fn occupied_entry_remove_and_mult() {
    let mut map = MetadataMap::new();
    map.append("x-a", v("1"));
    map.append("x-a", v("2"));
    map.insert("x-b", v("3"));
    if let Entry::Occupied(mut e) = map.entry("x-a").unwrap() {
        let mut old = e.insert_mult(v("9"));
        assert_eq!(old.next().unwrap().as_bytes(), b"1");
        assert_eq!(old.next().unwrap().as_bytes(), b"2");
        assert!(old.next().is_none());
    } else {
        panic!("should be occupied");
    }
    if let Entry::Occupied(e) = map.entry("x-b").unwrap() {
        let (k, val) = e.remove_entry();
        assert_eq!(k.as_str(), "x-b");
        assert_eq!(val.as_bytes(), b"3");
    } else {
        panic!("should be occupied");
    }
    assert!(!map.contains_key("x-b"));
    assert_eq!(map.get("x-a").unwrap().as_bytes(), b"9");
}

#[test]
fn vacant_entry_into_key_and_insert_entry() {
    let mut map = MetadataMap::new();
    match map.entry("x-k").unwrap() {
        Entry::Vacant(e) => assert_eq!(e.into_key().as_str(), "x-k"),
        Entry::Occupied(_) => panic!("should be vacant"),
    }
    match map.entry("x-k").unwrap() {
        Entry::Vacant(e) => {
            let o = e.insert_entry(v("1"));
            assert_eq!(o.get().as_bytes(), b"1");
            let (k, mut vals) = o.remove_entry_mult();
            assert_eq!(k.as_str(), "x-k");
            assert_eq!(vals.next().unwrap().as_bytes(), b"1");
            assert!(vals.next().is_none());
        }
        Entry::Occupied(_) => panic!("should be vacant"),
    }
    assert!(map.is_empty());
}

#[test]
fn values_mut_changes_values_in_place() {
    let mut map = MetadataMap::new();
    map.append("x-a", v("1"));
    map.append("x-a", v("2"));
    map.insert("x-b", v("3"));
    {
        let mut it = map.values_mut();
        let first = it.next().unwrap();
        *first = v("10");
        let _second = it.next().unwrap();
        let third = it.next().unwrap();
        third.set_sensitive(true);
        assert!(it.next().is_none());
    }
    let mut all = map.get_all("x-a").iter();
    assert_eq!(all.next().unwrap().as_bytes(), b"10");
    assert_eq!(all.next().unwrap().as_bytes(), b"2");
    assert!(map.get("x-b").unwrap().is_sensitive());
}

#[test]
fn iter_mut_yields_names_with_values() {
    let mut map = MetadataMap::new();
    map.insert("x-a", v("1"));
    map.insert("x-b", v("2"));
    {
        let mut it = map.iter_mut();
        let (k, val) = it.next().unwrap();
        assert_eq!(k, "x-a");
        *val = v("one");
        let (k2, _) = it.next().unwrap();
        assert_eq!(k2, "x-b");
        assert!(it.next().is_none());
    }
    assert_eq!(map.get("x-a").unwrap().as_bytes(), b"one");
}

#[test]
fn occupied_entry_iter_mut_changes_only_its_values() {
    let mut map = MetadataMap::new();
    map.insert("host", v("world"));
    map.append("host", v("earth"));
    map.insert("x-other", v("kept"));
    if let Entry::Occupied(mut e) = map.entry("host").unwrap() {
        let mut it = e.iter_mut();
        let first = it.next().unwrap();
        assert_eq!(first.as_bytes(), b"world");
        first.set_sensitive(true);
        let last = it.next_back().unwrap();
        assert_eq!(last.as_bytes(), b"earth");
        last.set_sensitive(true);
        assert!(it.next().is_none());
        assert!(it.next_back().is_none());
    } else {
        panic!("should be occupied");
    }
    let values = map.get_all("host");
    let mut i = values.iter();
    assert!(i.next().unwrap().is_sensitive());
    assert!(i.next().unwrap().is_sensitive());
    assert!(i.next().is_none());
    assert!(!map.get("x-other").unwrap().is_sensitive());
}

#[test]
fn capacity_after_first_insert() {
    let mut map = MetadataMap::new();
    assert_eq!(map.capacity(), 0);
    map.insert("x-host", v("hello.world"));
    assert_eq!(map.capacity(), 6);
    map.append("x-host", v("again"));
    assert!(map.capacity() >= 6);
}

#[test]
fn vacant_into_key_inserts_nothing() {
    let mut map = MetadataMap::new();
    match map.entry("x-hello").unwrap() {
        Entry::Vacant(e) => assert_eq!(e.into_key().as_str(), "x-hello"),
        Entry::Occupied(_) => panic!("should be vacant"),
    }
    assert!(!map.contains_key("x-hello"));
    assert!(map.is_empty());
}

#[test]
fn from_headers_keeps_every_entry() {
    let mut raw = vec![b'a'; 70];
    raw[10] = 0;
    let odd = http::header::HeaderName::from_lowercase(&raw).unwrap();
    let mut headers = HeaderMap::new();
    headers.insert(odd, "1".parse().unwrap());
    headers.insert("x-kept", "2".parse().unwrap());
    let map = MetadataMap::from_headers(headers.clone());
    assert_eq!(map.keys_len(), 2);
    assert_eq!(map.get("x-kept").unwrap().as_bytes(), b"2");
    let mut long_key = vec![b'A'; 70];
    long_key[10] = b' ';
    let long_key = String::from_utf8(long_key).unwrap();
    assert_eq!(map.get(long_key.as_str()).unwrap().as_bytes(), b"1");
    assert_eq!(map.into_headers(), headers);
}

#[test]
fn long_string_key_entry_names_invalid_bytes_zero() {
    let mut map = MetadataMap::new();
    let mut long_key = vec![b'b'; 66];
    long_key[3] = b'{';
    let long_key = String::from_utf8(long_key).unwrap();
    match map.entry(long_key.as_str()).unwrap() {
        Entry::Vacant(e) => {
            let key = e.into_key();
            assert_eq!(key.as_str().as_bytes()[3], 0);
            assert_eq!(key.as_str().len(), 66);
            assert!(key.eq_str(&long_key));
        }
        Entry::Occupied(_) => panic!("should be vacant"),
    }
    assert!(map.entry("bad key").is_err());
}

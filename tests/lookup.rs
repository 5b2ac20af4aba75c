use std::collections::HashMap;

use kv_assets::{AssetIndex, AssetMetadata, Error, KVAssets};

/// Encodes an index the way the index producer does: a map from the lookup
/// key to a record of storage key, modification time and size.
fn blob_of(entries: &[(&str, &AssetMetadata)]) -> Vec<u8> {
    let mut index: HashMap<String, (String, u64, u64)> = HashMap::new();
    for (k, md) in entries {
        index.insert(k.to_string(), (md.path.clone(), md.modified, md.size));
    }
    bincode::serialize(&index).expect("serialize-index")
}

fn md(path: &str, modified: u64, size: u64) -> AssetMetadata {
    AssetMetadata { path: path.to_string(), modified, size }
}

/// Tests index lookup (does not contact the store)
#[test]
fn test_lookup() {
    let md_ab = AssetMetadata { path: "a/b.txt".to_string(), modified: 10000, size: 10 };
    let md_b = AssetMetadata { path: "b".to_string(), modified: 20000, size: 20 };
    let md_c = AssetMetadata { path: "c.json".to_string(), modified: 30000, size: 30 };
    let blob = blob_of(&[("a/b", &md_ab), ("b", &md_b), ("c.json", &md_c)]);

    let mut kv = KVAssets::init(&blob, "123", "namespace", "token");

    // lookup
    assert_eq!(kv.lookup_key("a/b").unwrap().as_ref(), Some(&md_ab));
    assert_eq!(kv.lookup_key("b").unwrap().as_ref(), Some(&md_b));
    assert_eq!(kv.lookup_key("c.json").unwrap().as_ref(), Some(&md_c));

    // lookup not found
    assert_eq!(kv.lookup_key("xyz").unwrap(), None);

    // test strip prefix
    assert_eq!(kv.lookup_key("/b").unwrap().as_ref(), Some(&md_b));

    // ensure_map
    assert!(kv.ensure_map().is_ok());
}

#[test]
fn end_to_end_lookup_scenario() {
    let md_ab = md("a/b.txt", 10000, 10);
    let blob = blob_of(&[("a/b", &md_ab)]);
    let mut kv = KVAssets::init(&blob, "123", "namespace", "token");
    assert_eq!(kv.lookup_key("a/b").unwrap(), Some(md_ab.clone()));
    assert_eq!(kv.lookup_key("/a/b").unwrap(), Some(md_ab.clone()));
    assert_eq!(kv.lookup_key("missing").unwrap(), None);
    assert!(matches!(kv.lookup_key(""), Err(Error::EmptyKey)));
}

#[test]
fn empty_paths_are_rejected() {
    let blob = blob_of(&[("a", &md("a.txt", 1, 2))]);
    let mut kv = KVAssets::init(&blob, "acct", "ns", "tok");
    assert!(matches!(kv.lookup_key(""), Err(Error::EmptyKey)));
    assert!(matches!(kv.lookup_key("/"), Err(Error::EmptyKey)));
    // the empty-key check comes before any decoding
    let mut bad = KVAssets::init(&[1, 2, 3], "acct", "ns", "tok");
    assert!(matches!(bad.lookup_key("/"), Err(Error::EmptyKey)));
}

#[test]
fn only_one_leading_slash_is_removed() {
    let md_b = md("b", 5, 6);
    let blob = blob_of(&[("b", &md_b)]);
    let mut kv = KVAssets::init(&blob, "acct", "ns", "tok");
    assert_eq!(kv.lookup_key("//b").unwrap(), None);
    assert_eq!(kv.lookup_key("/b").unwrap(), Some(md_b));
}

#[test]
fn missing_paths_are_absent_not_errors() {
    let blob = blob_of(&[("a/b", &md("a/b.txt", 1, 1)), ("c", &md("c", 2, 2))]);
    let mut kv = KVAssets::init(&blob, "acct", "ns", "tok");
    for p in ["x", "/x", "a", "a/b/", "A/B", "/c/", "b.txt"] {
        assert_eq!(kv.lookup_key(p).unwrap(), None, "path {}", p);
    }
}

#[test]
fn repeated_lookups_keep_working() {
    let md_c = md("c.json", 3, 4);
    let blob = blob_of(&[("c.json", &md_c)]);
    let mut kv = KVAssets::init(&blob, "acct", "ns", "tok");
    for _ in 0..5 {
        assert_eq!(kv.lookup_key("c.json").unwrap(), Some(md_c.clone()));
        assert_eq!(kv.lookup_key("/c.json").unwrap(), Some(md_c.clone()));
        assert!(kv.ensure_map().is_ok());
    }
}

#[test]
fn malformed_index_fails_every_time() {
    let blob: Vec<u8> = vec![0xff, 0xff, 0xff, 0xff, 0xff, 0xff, 0xff, 0xff, 1];
    let mut kv = KVAssets::init(&blob, "acct", "ns", "tok");
    assert!(matches!(kv.lookup_key("a"), Err(Error::DeserializeAssets(_))));
    assert!(matches!(kv.lookup_key("/a"), Err(Error::DeserializeAssets(_))));
    assert!(matches!(kv.ensure_map(), Err(Error::DeserializeAssets(_))));
}

#[test]
fn empty_index_finds_nothing() {
    let blob = blob_of(&[]);
    let mut kv = KVAssets::init(&blob, "acct", "ns", "tok");
    assert_eq!(kv.lookup_key("/index.html").unwrap(), None);
}

#[test]
fn index_round_trip_empty() {
    let idx = AssetIndex::new();
    let bytes = idx.to_bytes().unwrap();
    let back = AssetIndex::from_bytes(&bytes).unwrap();
    assert_eq!(back.get(&"a".to_string()), None);
    assert_eq!(bytes, blob_of(&[]));
}

#[test]
fn index_round_trip_one() {
    let mut idx = AssetIndex::new();
    idx.insert("a/b.txt".to_string(), md("store/a/b.txt", 77, 8));
    let bytes = idx.to_bytes().unwrap();
    assert!(!bytes.is_empty());
    let back = AssetIndex::from_bytes(&bytes).unwrap();
    assert_eq!(back.get(&"a/b.txt".to_string()), Some(&md("store/a/b.txt", 77, 8)));
    assert_eq!(back.get(&"a/b".to_string()), None);
}

#[test]
fn index_round_trip_many() {
    let mut idx = AssetIndex::new();
    let keys = ["a/b.txt", "a/b/c/d.css", "index.html", "x/y/z/w.js", "über/ß.txt"];
    for (i, k) in keys.iter().enumerate() {
        idx.insert(k.to_string(), md(&format!("h{}", i), 1000 + i as u64, i as u64));
    }
    let bytes = idx.to_bytes().unwrap();
    let back = AssetIndex::from_bytes(&bytes).unwrap();
    for (i, k) in keys.iter().enumerate() {
        assert_eq!(
            back.get(&k.to_string()),
            Some(&md(&format!("h{}", i), 1000 + i as u64, i as u64))
        );
    }
    assert_eq!(back.get(&"a".to_string()), None);
}

#[test]
fn insert_replaces_and_encoding_keeps_the_last() {
    let mut idx = AssetIndex::new();
    idx.insert("k".to_string(), md("old", 1, 1));
    idx.insert("k".to_string(), md("new", 2, 2));
    assert_eq!(idx.get(&"k".to_string()), Some(&md("new", 2, 2)));
    let back = AssetIndex::from_bytes(&idx.to_bytes().unwrap()).unwrap();
    assert_eq!(back.get(&"k".to_string()), Some(&md("new", 2, 2)));
}

#[test]
fn encoded_index_serves_lookups() {
    let mut idx = AssetIndex::new();
    idx.insert("a/b".to_string(), md("a/b.txt", 10000, 10));
    let bytes = idx.to_bytes().unwrap();
    assert_eq!(bytes, blob_of(&[("a/b", &md("a/b.txt", 10000, 10))]));
    let mut kv = KVAssets::init(&bytes, "acct", "ns", "tok");
    assert_eq!(kv.lookup_key("/a/b").unwrap(), Some(md("a/b.txt", 10000, 10)));
}

#[test]
fn from_bytes_rejects_garbage() {
    assert!(matches!(AssetIndex::from_bytes(&[5]), Err(Error::DeserializeAssets(_))));
    let blob = blob_of(&[("p", &md("q", 1, 2))]);
    assert!(matches!(
        AssetIndex::from_bytes(&blob[..blob.len() - 1]),
        Err(Error::DeserializeAssets(_))
    ));
}

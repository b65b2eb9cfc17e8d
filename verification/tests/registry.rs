use grpm::database::{Database, Package, StorageError, BUCKET_NAME};
use tempfile::TempDir;

fn setup() -> (TempDir, String, Database) {
    let dir = tempfile::tempdir().unwrap();
    let path = dir.path().join("test.db").to_str().unwrap().to_string();
    let db = Database::new(jammdb::DB::open(&path).unwrap()).unwrap();
    (dir, path, db)
}

fn sample() -> Package {
    Package {
        name: "Test Package".to_string(),
        path: "/test/path".to_string(),
        version: "v1.2.3".to_string(),
        binary: "test".to_string(),
    }
}

#[test]
fn new() {
    let (_dir, path, db) = setup();
    assert!(std::path::Path::new(&path).exists());
    drop(db);
    let store = jammdb::DB::open(&path).unwrap();
    let tx = store.tx(false).unwrap();
    let _ = tx.get_bucket(BUCKET_NAME).unwrap();
}

#[test]
fn put_get() {
    let (_dir, _path, mut db) = setup();
    let key = "Test";
    let package = Package {
        name: "Test Package".to_string(),
        path: "/test/path".to_string(),
        version: "v1.2.3".to_string(),
        binary: "test".to_string(),
    };
    db.put(key, &package).unwrap();
    let result = db.get(key).unwrap();
    assert!(result.is_some());
    assert_eq!(result.unwrap(), package);
}

#[test]
fn get_all() {
    let (_dir, _path, mut db) = setup();
    let key1 = "Test1";
    let key2 = "Test2";

    let package = Package {
        name: "Test Package".to_string(),
        path: "/test/path".to_string(),
        version: "v1.2.3".to_string(),
        binary: "test".to_string(),
    };

    db.put(key1, &package).unwrap();
    db.put(key2, &package).unwrap();

    let packages = db.get_all().unwrap();

    assert!(packages.len() == 2);
}

#[test]
fn delete() {
    let (_dir, _path, mut db) = setup();
    let key = "Test";
    let package = Package {
        name: "Test Package".to_string(),
        path: "/test/path".to_string(),
        version: "v1.2.3".to_string(),
        binary: "test".to_string(),
    };
    db.put(key, &package).unwrap();
    db.remove(key).unwrap();
    let result = db.get(key).unwrap();
    assert!(result.is_none());
}

#[test]
fn get_of_a_key_never_put_finds_nothing() {
    let (_dir, _path, db) = setup();
    assert!(db.get("absent").unwrap().is_none());
}

#[test]
fn remove_of_an_absent_key_is_no_error_and_changes_nothing() {
    let (_dir, _path, mut db) = setup();
    db.put("kept", &sample()).unwrap();
    db.remove("absent").unwrap();
    db.remove("absent").unwrap();
    assert_eq!(db.get_all().unwrap(), vec![sample()]);
}

#[test]
fn put_under_a_key_that_is_there_replaces_the_record() {
    let (_dir, _path, mut db) = setup();
    db.put("tool", &sample()).unwrap();
    let newer = Package { version: "v2.0.0".to_string(), ..sample() };
    db.put("tool", &newer).unwrap();
    assert_eq!(db.get("tool").unwrap(), Some(newer));
    assert_eq!(db.get_all().unwrap().len(), 1);
}

#[test]
fn every_text_of_a_record_comes_back() {
    let (_dir, _path, mut db) = setup();
    let package = Package {
        name: "naïve – tool".to_string(),
        version: String::new(),
        binary: "bin/ツール".to_string(),
        path: "/opt/with space/ü".to_string(),
    };
    db.put("naïve", &package).unwrap();
    assert_eq!(db.get("naïve").unwrap(), Some(package));
}

#[test]
fn a_put_leaves_other_keys_alone() {
    let (_dir, _path, mut db) = setup();
    let first = sample();
    let second = Package { name: "other".to_string(), ..sample() };
    db.put("a", &first).unwrap();
    db.put("b", &second).unwrap();
    assert_eq!(db.get("a").unwrap(), Some(first));
    assert_eq!(db.get("b").unwrap(), Some(second));
}

#[test]
fn listing_holds_one_record_for_each_distinct_key() {
    let (_dir, _path, mut db) = setup();
    assert_eq!(db.get_all().unwrap().len(), 0);
    let keys = ["e", "a", "d", "b", "c"];
    for key in keys {
        db.put(key, &Package { name: key.to_string(), ..sample() }).unwrap();
    }
    db.put("a", &Package { name: "a".to_string(), ..sample() }).unwrap();
    let listed = db.get_all().unwrap();
    assert_eq!(listed.len(), 5);
    for key in keys {
        assert_eq!(listed.iter().filter(|package| package.name == key).count(), 1);
    }
}

#[test]
fn records_stay_when_the_registry_is_opened_again() {
    let (_dir, path, mut db) = setup();
    db.put("tool", &sample()).unwrap();
    drop(db);
    let db = Database::new(jammdb::DB::open(&path).unwrap()).unwrap();
    assert_eq!(db.get("tool").unwrap(), Some(sample()));
}

#[test]
fn a_record_is_stored_as_four_length_prefixed_texts() {
    let (_dir, path, mut db) = setup();
    let package = Package {
        name: "ab".to_string(),
        version: "1".to_string(),
        binary: "".to_string(),
        path: "/x".to_string(),
    };
    db.put("k", &package).unwrap();
    drop(db);
    let store = jammdb::DB::open(&path).unwrap();
    let tx = store.tx(false).unwrap();
    let bucket = tx.get_bucket(BUCKET_NAME).unwrap();
    let stored = bucket.get_kv("k").unwrap().value().to_vec();
    let mut expected: Vec<u8> = Vec::new();
    expected.extend_from_slice(&[2, 0, 0, 0, 0, 0, 0, 0]);
    expected.extend_from_slice(b"ab");
    expected.extend_from_slice(&[1, 0, 0, 0, 0, 0, 0, 0]);
    expected.extend_from_slice(b"1");
    expected.extend_from_slice(&[0, 0, 0, 0, 0, 0, 0, 0]);
    expected.extend_from_slice(&[2, 0, 0, 0, 0, 0, 0, 0]);
    expected.extend_from_slice(b"/x");
    assert_eq!(stored, expected);
}

fn store_raw(path: &str, key: &str, value: &[u8]) {
    let store = jammdb::DB::open(path).unwrap();
    let tx = store.tx(true).unwrap();
    let bucket = tx.get_bucket(BUCKET_NAME).unwrap();
    bucket.put(key.as_bytes().to_vec(), value.to_vec()).unwrap();
    drop(bucket);
    tx.commit().unwrap();
}

#[test]
fn bytes_that_are_no_record_are_reported_as_corrupt() {
    let (_dir, path, db) = setup();
    drop(db);
    store_raw(&path, "broken", &[9, 0, 0, 0, 0, 0, 0, 0, b'x']);
    let db = Database::new(jammdb::DB::open(&path).unwrap()).unwrap();
    assert!(matches!(db.get("broken"), Err(StorageError::Corrupt(_))));
    assert!(matches!(db.get_all(), Err(StorageError::Corrupt(_))));
}

#[test]
fn a_text_that_is_not_utf8_is_reported_as_corrupt() {
    let (_dir, path, db) = setup();
    drop(db);
    let mut value: Vec<u8> = vec![1, 0, 0, 0, 0, 0, 0, 0, 0xff];
    for _ in 0..3 {
        value.extend_from_slice(&[0, 0, 0, 0, 0, 0, 0, 0]);
    }
    store_raw(&path, "broken", &value);
    let db = Database::new(jammdb::DB::open(&path).unwrap()).unwrap();
    assert!(matches!(db.get("broken"), Err(StorageError::Corrupt(_))));
}

#[test]
fn bytes_after_a_record_are_ignored() {
    let (_dir, path, db) = setup();
    drop(db);
    let mut value: Vec<u8> = Vec::new();
    for text in ["n", "v", "b", "p"] {
        value.extend_from_slice(&[1, 0, 0, 0, 0, 0, 0, 0]);
        value.extend_from_slice(text.as_bytes());
    }
    value.extend_from_slice(b"trailing");
    store_raw(&path, "k", &value);
    let db = Database::new(jammdb::DB::open(&path).unwrap()).unwrap();
    let expected = Package {
        name: "n".to_string(),
        version: "v".to_string(),
        binary: "b".to_string(),
        path: "p".to_string(),
    };
    assert_eq!(db.get("k").unwrap(), Some(expected));
}

#[test]
fn the_empty_key_is_a_key_like_any_other() {
    let (_dir, _path, mut db) = setup();
    db.put("", &sample()).unwrap();
    assert_eq!(db.get("").unwrap(), Some(sample()));
    assert_eq!(db.get_all().unwrap().len(), 1);
    db.remove("").unwrap();
    assert!(db.get("").unwrap().is_none());
}

#[test]
fn long_records_and_many_keys_are_kept() {
    let (_dir, _path, mut db) = setup();
    let long = Package { path: "p".repeat(100_000), ..sample() };
    db.put("long", &long).unwrap();
    for i in 0..300 {
        db.put(&format!("key-{}", i), &sample()).unwrap();
    }
    assert_eq!(db.get("long").unwrap(), Some(long));
    assert_eq!(db.get_all().unwrap().len(), 301);
    for i in 0..300 {
        db.remove(&format!("key-{}", i)).unwrap();
    }
    assert_eq!(db.get_all().unwrap().len(), 1);
}

#[test]
fn opening_a_store_without_the_namespace_creates_it() {
    let dir = tempfile::tempdir().unwrap();
    let path = dir.path().join("bare.db").to_str().unwrap().to_string();
    {
        let store = jammdb::DB::open(&path).unwrap();
        let tx = store.tx(true).unwrap();
        tx.create_bucket("OTHER").unwrap();
        tx.commit().unwrap();
        let tx = store.tx(false).unwrap();
        assert!(tx.get_bucket(BUCKET_NAME).is_err());
    }
    let mut db = Database::new(jammdb::DB::open(&path).unwrap()).unwrap();
    assert_eq!(db.get_all().unwrap().len(), 0);
    db.put("tool", &sample()).unwrap();
    assert_eq!(db.get("tool").unwrap(), Some(sample()));
    drop(db);
    let store = jammdb::DB::open(&path).unwrap();
    let tx = store.tx(false).unwrap();
    assert!(tx.get_bucket(BUCKET_NAME).is_ok());
    assert!(tx.get_bucket("OTHER").is_ok());
}

#[test]
fn records_are_listed_in_the_order_of_their_keys() {
    let (_dir, _path, mut db) = setup();
    for key in ["b", "", "ab", "a", "B", "aa", "\u{e9}", "a\u{0}"] {
        db.put(key, &Package { name: key.to_string(), ..sample() }).unwrap();
    }
    let listed: Vec<String> = db.get_all().unwrap().into_iter().map(|p| p.name).collect();
    assert_eq!(listed, vec!["", "B", "a", "a\u{0}", "aa", "ab", "b", "\u{e9}"]);
}

#[test]
fn a_second_listing_gives_what_the_first_gave() {
    let (_dir, _path, mut db) = setup();
    for key in ["zeta", "alpha", "mid"] {
        db.put(key, &Package { name: key.to_string(), ..sample() }).unwrap();
    }
    let first = db.get_all().unwrap();
    let second = db.get_all().unwrap();
    assert_eq!(first, second);
    assert_eq!(first.len(), 3);
}

#[test]
fn making_a_registry_of_a_store_keeps_its_records() {
    let dir = tempfile::tempdir().unwrap();
    let path = dir.path().join("kept.db").to_str().unwrap().to_string();
    let mut db = Database::new(jammdb::DB::open(&path).unwrap()).unwrap();
    db.put("one", &sample()).unwrap();
    db.put("two", &Package { name: "two".to_string(), ..sample() }).unwrap();
    let before = db.get_all().unwrap();
    drop(db);
    let db = Database::new(jammdb::DB::open(&path).unwrap()).unwrap();
    assert_eq!(db.get_all().unwrap(), before);
}

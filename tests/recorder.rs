use node_cache::{PickleRecorder, Recorder};

fn path(name: &str) -> String {
    format!("/tmp/node_cache_test_{}.db", name)
}

/// Reads a saved cache file back the way the server does at start-up.
fn reload(p: &str) -> PickleRecorder {
    let db = pickledb::PickleDb::load(p, pickledb::PickleDbDumpPolicy::DumpUponRequest, pickledb::SerializationMethod::Json)
        .unwrap();
    let entries: Vec<(String, String)> =
        db.iter().map(|item| (item.get_key().to_string(), item.get_value::<String>().unwrap())).collect();
    PickleRecorder::from_entries(p.to_string(), entries)
}

#[test]
fn record_then_get_round_trip() {
    let mut r = PickleRecorder::new(path("round_trip"));
    assert_eq!(r.get("k").unwrap(), None);
    r.record("k", &"\"0x64\"".to_string()).unwrap();
    assert_eq!(r.get("k").unwrap(), Some("\"0x64\"".to_string()));
    r.record("other", &"1".to_string()).unwrap();
    assert_eq!(r.get("k").unwrap(), Some("\"0x64\"".to_string()));
}

#[test]
fn record_overwrites() {
    let mut r = PickleRecorder::new(path("overwrite"));
    r.record("k", &"1".to_string()).unwrap();
    r.record("k", &"2".to_string()).unwrap();
    assert_eq!(r.get("k").unwrap(), Some("2".to_string()));
}

#[test]
fn value_survives_later_writes_to_other_keys() {
    let mut r = PickleRecorder::new(path("chained"));
    r.record("k", &"\"v\"".to_string()).unwrap();
    for i in 0..5 {
        r.record(&format!("other{}", i), &format!("{}", i)).unwrap();
        assert_eq!(r.get("k").unwrap(), Some("\"v\"".to_string()));
    }
    r.save().unwrap();
    assert_eq!(r.get("k").unwrap(), Some("\"v\"".to_string()));
}

#[test]
fn save_then_load_reproduces_entries() {
    let p = path("persist");
    let mut r = PickleRecorder::new(p.clone());
    r.record("a", &"\"0x1\"".to_string()).unwrap();
    r.record("b/c", &"{\"x\":[1,2]}".to_string()).unwrap();
    r.record("empty", &"".to_string()).unwrap();
    r.save().unwrap();
    let loaded = reload(&p);
    assert_eq!(loaded.get("a").unwrap(), Some("\"0x1\"".to_string()));
    assert_eq!(loaded.get("b/c").unwrap(), Some("{\"x\":[1,2]}".to_string()));
    assert_eq!(loaded.get("empty").unwrap(), Some("".to_string()));
    assert_eq!(loaded.get("missing").unwrap(), None);
}

#[test]
fn from_entries_later_pairs_win() {
    let r = PickleRecorder::from_entries(
        path("from_entries"),
        vec![("k".to_string(), "1".to_string()), ("j".to_string(), "2".to_string()), ("k".to_string(), "3".to_string())],
    );
    assert_eq!(r.get("k").unwrap(), Some("3".to_string()));
    assert_eq!(r.get("j").unwrap(), Some("2".to_string()));
    assert_eq!(r.get("x").unwrap(), None);
}

#[test]
fn saving_to_an_unwritable_place_fails() {
    let mut r = PickleRecorder::new("/tmp/node_cache_test_no_such_dir/out.db".to_string());
    r.record("k", &"1".to_string()).unwrap();
    assert!(r.save().is_err());
    assert_eq!(r.get("k").unwrap(), Some("1".to_string()));
}

#[test]
fn repeated_reads_agree() {
    let mut r = PickleRecorder::new(path("reads"));
    r.record("k", &"[1]".to_string()).unwrap();
    let shared = &r;
    let reads: Vec<Option<String>> = (0..8).map(|_| Recorder::get(shared, "k").unwrap()).collect();
    assert!(reads.iter().all(|v| v == &Some("[1]".to_string())));
}

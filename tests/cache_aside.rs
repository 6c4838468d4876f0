use node_cache::{lookup, settle, CacheKey, Lookup, Method, PickleRecorder, UpstreamError};

fn balance_key() -> CacheKey {
    CacheKey::from_params(Method::Balance, vec!["\"0x000000000000000000000000000000000000000a\"".to_string(), "\"0x5\"".to_string()])
        .unwrap()
}

fn hit(l: &Lookup) -> Option<String> {
    match l {
        Lookup::Hit(v) => Some(v.clone()),
        _ => None,
    }
}

fn answer(l: &Lookup) -> Option<String> {
    match l {
        Lookup::Answer(v) => Some(v.clone()),
        _ => None,
    }
}

/// An upstream stand-in that counts its calls.
struct CountingUpstream {
    calls: u32,
    reply: String,
}

impl CountingUpstream {
    fn call(&mut self) -> Result<String, UpstreamError> {
        self.calls += 1;
        Ok(self.reply.clone())
    }
}

fn query(rec: &mut PickleRecorder, key: &CacheKey, upstream: Option<&mut CountingUpstream>) -> Option<String> {
    match lookup(rec, key, upstream.is_some()).unwrap() {
        Lookup::Hit(v) | Lookup::Answer(v) => Some(v),
        Lookup::Fetch => {
            let fetched = upstream.unwrap().call();
            let served = settle(rec, key, fetched).unwrap();
            assert!(served.record_failure.is_none());
            Some(served.value)
        }
        Lookup::Unavailable => None,
    }
}

#[test]
fn balance_scenario_second_call_replays() {
    let mut rec = PickleRecorder::new("/tmp/node_cache_test_scenario.db".to_string());
    let mut up = CountingUpstream { calls: 0, reply: "\"0x64\"".to_string() };
    let key = balance_key();
    assert_eq!(query(&mut rec, &key, Some(&mut up)), Some("\"0x64\"".to_string()));
    assert_eq!(up.calls, 1);
    assert_eq!(rec.get(&key.text()).unwrap(), Some("\"0x64\"".to_string()));
    assert_eq!(query(&mut rec, &key, Some(&mut up)), Some("\"0x64\"".to_string()));
    assert_eq!(up.calls, 1);
}

#[test]
fn stored_answer_wins_over_upstream() {
    let mut rec = PickleRecorder::new("/tmp/node_cache_test_precedence.db".to_string());
    let key = balance_key();
    rec.record(&key.text(), &"\"0x7\"".to_string()).unwrap();
    let l = lookup(&rec, &key, true).unwrap();
    assert_eq!(hit(&l), Some("\"0x7\"".to_string()));
    let l = lookup(&rec, &key, false).unwrap();
    assert_eq!(hit(&l), Some("\"0x7\"".to_string()));
}

#[test]
fn cold_miss_fetches_once_and_records_once() {
    let mut rec = PickleRecorder::new("/tmp/node_cache_test_cold.db".to_string());
    let key = balance_key();
    assert!(matches!(lookup(&rec, &key, true).unwrap(), Lookup::Fetch));
    let served = settle(&mut rec, &key, Ok("\"0x9\"".to_string())).unwrap();
    assert_eq!(served.value, "\"0x9\"");
    assert!(served.record_failure.is_none());
    assert_eq!(rec.get(&key.text()).unwrap(), Some("\"0x9\"".to_string()));
}

#[test]
fn replay_mode_answers_with_fallbacks() {
    let mut rec = PickleRecorder::new("/tmp/node_cache_test_fallback.db".to_string());
    let cases = [
        (Method::Balance, "\"0x0\""),
        (Method::TransactionCount, "\"0x0\""),
        (Method::StorageAt, "\"0x0000000000000000000000000000000000000000000000000000000000000000\""),
        (Method::GetCode, "\"0x\""),
        (Method::BlockByNumber, "null"),
        (Method::TransactionByHash, "null"),
        (Method::GetAccount, "null"),
        (Method::DebugTraceBlockByNumber, "[]"),
        (Method::DebugTraceCall, "{\"failed\":false,\"gas\":0,\"returnValue\":\"0x\",\"structLogs\":[]}"),
        (Method::GasPrice, "\"0x3b9aca00\""),
        (Method::ChainId, "\"0x1\""),
    ];
    for (m, expected) in cases {
        let key = CacheKey::from_params(m, vec![]).unwrap();
        assert_eq!(query(&mut rec, &key, None), Some(expected.to_string()), "{:?}", m);
    }
}

#[test]
fn block_number_needs_upstream() {
    let rec = PickleRecorder::new("/tmp/node_cache_test_unavailable.db".to_string());
    let key = CacheKey::from_params(Method::BlockNumber, vec![]).unwrap();
    assert!(matches!(lookup(&rec, &key, false).unwrap(), Lookup::Unavailable));
    assert!(matches!(lookup(&rec, &key, true).unwrap(), Lookup::Fetch));
}

#[test]
fn chain_id_is_never_forwarded() {
    let rec = PickleRecorder::new("/tmp/node_cache_test_chain.db".to_string());
    let key = CacheKey::from_params(Method::ChainId, vec![]).unwrap();
    assert_eq!(answer(&lookup(&rec, &key, true).unwrap()), Some("\"0x1\"".to_string()));
}

#[test]
fn uncached_methods_are_not_recorded() {
    let mut rec = PickleRecorder::new("/tmp/node_cache_test_uncached.db".to_string());
    let key = CacheKey::from_params(Method::GasPrice, vec![]).unwrap();
    assert!(matches!(lookup(&rec, &key, true).unwrap(), Lookup::Fetch));
    let served = settle(&mut rec, &key, Ok("\"0x5\"".to_string())).unwrap();
    assert_eq!(served.value, "\"0x5\"");
    assert_eq!(rec.get(&key.text()).unwrap(), None);
    assert!(matches!(lookup(&rec, &key, true).unwrap(), Lookup::Fetch));
}

#[test]
fn upstream_failure_is_passed_on_and_not_recorded() {
    let mut rec = PickleRecorder::new("/tmp/node_cache_test_failure.db".to_string());
    let key = balance_key();
    let r = settle(&mut rec, &key, Err(UpstreamError { message: "boom".to_string() }));
    assert_eq!(r.unwrap_err().message, "boom");
    assert_eq!(rec.get(&key.text()).unwrap(), None);
    assert!(matches!(lookup(&rec, &key, true).unwrap(), Lookup::Fetch));
}

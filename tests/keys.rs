use node_cache::{CacheKey, Method};

fn key(method: Method, args: &[&str]) -> String {
    CacheKey::new(method, args.iter().map(|a| a.to_string()).collect()).text()
}

#[test]
fn key_joins_name_and_arguments() {
    assert_eq!(key(Method::Balance, &["\"0xab\"", "\"0x5\""]), "get_balance/\"0xab\"/\"0x5\"");
    assert_eq!(key(Method::GasPrice, &[]), "gas_price");
}

#[test]
fn key_escapes_separators() {
    assert_eq!(key(Method::GetCode, &["a/b", "c\\d"]), "get_code/a\\/b/c\\\\d");
}

#[test]
fn shifted_argument_boundaries_give_distinct_keys() {
    assert_ne!(key(Method::StorageAt, &["ab", "c"]), key(Method::StorageAt, &["a", "bc"]));
    assert_ne!(key(Method::StorageAt, &["a/", "b"]), key(Method::StorageAt, &["a", "/b"]));
    assert_ne!(key(Method::Balance, &["x"]), key(Method::GetAccount, &["x"]));
    assert_ne!(key(Method::Balance, &[]), key(Method::Balance, &[""]));
}

#[test]
fn same_query_gives_same_key() {
    assert_eq!(key(Method::DebugTraceCall, &["{}", "null", "null"]), key(Method::DebugTraceCall, &["{}", "null", "null"]));
}

#[test]
fn omitted_parameters_are_null() {
    let k = CacheKey::from_params(Method::Balance, vec!["\"0xab\"".to_string()]).unwrap();
    assert_eq!(k.args, vec!["\"0xab\"".to_string(), "null".to_string()]);
    let explicit = CacheKey::from_params(Method::Balance, vec!["\"0xab\"".to_string(), "null".to_string()]).unwrap();
    assert_eq!(k.text(), explicit.text());
}

#[test]
fn too_many_parameters_are_refused() {
    assert!(CacheKey::from_params(Method::TransactionByHash, vec!["a".to_string(), "b".to_string()]).is_none());
    assert!(CacheKey::from_params(Method::ChainId, vec!["a".to_string()]).is_none());
    assert!(CacheKey::from_params(Method::ChainId, vec![]).is_some());
}

#[test]
fn method_table() {
    let all = Method::all();
    assert_eq!(all.len(), 12);
    assert_eq!(Method::Balance.rpc_name(), "eth_getBalance");
    assert_eq!(Method::DebugTraceCall.rpc_name(), "debug_traceCall");
    assert_eq!(Method::StorageAt.arity(), 3);
    assert_eq!(Method::TransactionByHash.arity(), 1);
    assert_eq!(Method::Balance.name(), "get_balance");
}

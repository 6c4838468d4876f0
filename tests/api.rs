use node_cache::{build_inner, NodeCacheDebugApi, NodeCacheEngineEthApi, NodeCacheEthApi};
use std::sync::Arc;

#[test]
fn handles_keep_upstream_and_recorder() {
    let rec = Arc::new(5u8);
    let engine = NodeCacheEngineEthApi::new(Some("node"), rec.clone());
    assert!(engine.inner.has_upstream());
    assert_eq!(engine.inner.provider(), &Some("node"));
    assert!(Arc::ptr_eq(engine.inner.recorder(), &rec));
    let eth: NodeCacheEthApi<&str, u8> = NodeCacheEthApi::new(None, rec.clone());
    assert!(!eth.inner.has_upstream());
    let debug = NodeCacheDebugApi::new(Some(1u32), rec.clone());
    assert_eq!(debug.inner.provider(), &Some(1));
    let inner = build_inner::<u32, u8>(None, rec);
    assert!(inner.provider().is_none());
}

//! Handles that query servers hold: an optional upstream client and a
//! shared recorder.
use std::sync::Arc;
use vstd::prelude::*;

verus! {

/// What every query handler needs: the upstream client, absent in replay
/// mode, and the recorder shared by all handlers.
pub struct ApiInner<P, R> {
    provider: Option<P>,
    recorder: Arc<R>,
}

impl<P, R> ApiInner<P, R> {
    pub closed spec fn spec_provider(&self) -> Option<P> {
        self.provider
    }

    pub closed spec fn spec_recorder(&self) -> Arc<R> {
        self.recorder
    }

    /// The upstream client, if one is configured.
    pub fn provider(&self) -> (r: &Option<P>)
        ensures
            *r == self.spec_provider(),
    {
        &self.provider
    }

    /// The shared recorder.
    pub fn recorder(&self) -> (r: &Arc<R>)
        ensures
            *r == self.spec_recorder(),
    {
        &self.recorder
    }

    /// Whether queries may be forwarded upstream.
    pub fn has_upstream(&self) -> (r: bool)
        ensures
            r == self.spec_provider() is Some,
    {
        self.provider.is_some()
    }
}

pub fn build_inner<P, R>(provider: Option<P>, recorder: Arc<R>) -> (r: ApiInner<P, R>)
    ensures
        r.spec_provider() == provider,
        r.spec_recorder() == recorder,
{
    ApiInner { provider, recorder }
}

/// The handler of the standard node queries.
pub struct NodeCacheEthApi<P, R> {
    pub inner: ApiInner<P, R>,
}

impl<P, R> NodeCacheEthApi<P, R> {
    pub fn new(provider: Option<P>, recorder: Arc<R>) -> (r: Self)
        ensures
            r.inner.spec_provider() == provider,
            r.inner.spec_recorder() == recorder,
    {
        NodeCacheEthApi { inner: build_inner(provider, recorder) }
    }
}

/// The handler of the tracing and debugging queries.
pub struct NodeCacheDebugApi<P, R> {
    pub inner: ApiInner<P, R>,
}

impl<P, R> NodeCacheDebugApi<P, R> {
    pub fn new(provider: Option<P>, recorder: Arc<R>) -> (r: Self)
        ensures
            r.inner.spec_provider() == provider,
            r.inner.spec_recorder() == recorder,
    {
        NodeCacheDebugApi { inner: build_inner(provider, recorder) }
    }
}

/// The handler of the queries that a consensus client makes.
pub struct NodeCacheEngineEthApi<P, R> {
    pub inner: ApiInner<P, R>,
}

impl<P, R> NodeCacheEngineEthApi<P, R> {
    pub fn new(provider: Option<P>, recorder: Arc<R>) -> (r: Self)
        ensures
            r.inner.spec_provider() == provider,
            r.inner.spec_recorder() == recorder,
    {
        NodeCacheEngineEthApi { inner: build_inner(provider, recorder) }
    }
}

} // verus!

//! The cache-aside policy shared by every query handler.
//!
//! A query is answered in two steps. [`lookup`] consults the recorder and
//! decides: replay a stored answer, ask the upstream node, or answer with
//! the method's fallback. When the upstream node was asked, [`settle`] takes
//! its reply, records it and says what to answer.
use crate::key::{lemma_key_injective, CacheKey, Method};
use crate::recorder::{Entries, Recorder, RecorderError};
use vstd::prelude::*;

verus! {

/// Whether answers to the method are stored and replayed.
pub open spec fn spec_is_cached(m: Method) -> bool {
    !(m is GasPrice || m is BlockNumber || m is ChainId)
}

/// Whether the method is forwarded to the upstream node on a miss.
pub open spec fn spec_asks_upstream(m: Method) -> bool {
    !(m is ChainId)
}

pub open spec fn spec_fallback(m: Method) -> Option<Seq<char>> {
    match m {
        Method::Balance | Method::TransactionCount => Some("\"0x0\""@),
        Method::StorageAt => Some(
            "\"0x0000000000000000000000000000000000000000000000000000000000000000\""@,
        ),
        Method::GetCode => Some("\"0x\""@),
        Method::BlockByNumber | Method::TransactionByHash | Method::GetAccount => Some("null"@),
        Method::DebugTraceBlockByNumber => Some("[]"@),
        Method::DebugTraceCall => Some(
            "{\"failed\":false,\"gas\":0,\"returnValue\":\"0x\",\"structLogs\":[]}"@,
        ),
        Method::GasPrice => Some("\"0x3b9aca00\""@),
        Method::ChainId => Some("\"0x1\""@),
        Method::BlockNumber => None,
    }
}

impl Method {
    /// Whether answers to the method are stored and replayed.
    pub fn is_cached(&self) -> (r: bool)
        ensures
            r == spec_is_cached(*self),
    {
        !matches!(self, Method::GasPrice | Method::BlockNumber | Method::ChainId)
    }

    /// Whether the method is forwarded to the upstream node on a miss.
    pub fn asks_upstream(&self) -> (r: bool)
        ensures
            r == spec_asks_upstream(*self),
    {
        !matches!(self, Method::ChainId)
    }

    /// The JSON answer given when nothing is stored and the upstream node
    /// is not asked: zero, empty bytes, null, an empty list or an empty
    /// trace; one gwei for the gas price and chain 1 for the chain id. The
    /// block number has none.
    pub fn fallback(&self) -> (r: Option<&'static str>)
        ensures
            match r {
                Some(t) => spec_fallback(*self) == Some(t@),
                None => spec_fallback(*self) is None,
            },
    {
        match self {
            Method::Balance | Method::TransactionCount => Some("\"0x0\""),
            Method::StorageAt => Some(
                "\"0x0000000000000000000000000000000000000000000000000000000000000000\"",
            ),
            Method::GetCode => Some("\"0x\""),
            Method::BlockByNumber | Method::TransactionByHash | Method::GetAccount => Some("null"),
            Method::DebugTraceBlockByNumber => Some("[]"),
            Method::DebugTraceCall => Some(
                "{\"failed\":false,\"gas\":0,\"returnValue\":\"0x\",\"structLogs\":[]}",
            ),
            Method::GasPrice => Some("\"0x3b9aca00\""),
            Method::ChainId => Some("\"0x1\""),
            Method::BlockNumber => None,
        }
    }
}

/// What to do with a query after the recorder was consulted.
#[derive(Clone, Debug)]
pub enum Lookup {
    /// Answer with this stored JSON text.
    Hit(String),
    /// Ask the upstream node, then call [`settle`].
    Fetch,
    /// Answer with this fallback JSON text.
    Answer(String),
    /// Nothing stored, no upstream node, and the method has no fallback.
    Unavailable,
}

/// The decision that [`lookup`] owes for `key` against `entries`.
pub open spec fn lookup_spec(entries: Entries, key: CacheKey, upstream: bool, l: Lookup) -> bool {
    let k = key.spec_text();
    let m = key.method;
    if spec_is_cached(m) && entries.contains_key(k) {
        l matches Lookup::Hit(v) && v@ == entries[k]
    } else {
        miss_spec(m, upstream, l)
    }
}

/// The decision for a query of `m` that found nothing stored.
pub open spec fn miss_spec(m: Method, upstream: bool, l: Lookup) -> bool {
    if upstream && spec_asks_upstream(m) {
        l is Fetch
    } else {
        match spec_fallback(m) {
            Some(t) => l matches Lookup::Answer(a) && a@ == t,
            None => l is Unavailable,
        }
    }
}

/// The decision for a query of `m` given what the recorder held for it.
pub open spec fn decide_spec(m: Method, upstream: bool, found: Option<String>, l: Lookup) -> bool {
    match found {
        Some(v) => l matches Lookup::Hit(h) && h@ == v@,
        None => miss_spec(m, upstream, l),
    }
}

/// Decides how to answer a query of `m`, given what the recorder held for
/// its key (`None` when nothing, or when the recorder was not consulted)
/// and whether an upstream node is configured.
pub fn decide(m: Method, upstream: bool, found: Option<String>) -> (l: Lookup)
    ensures
        decide_spec(m, upstream, found, l),
{
    match found {
        Some(v) => Lookup::Hit(v),
        None => {
            if upstream && m.asks_upstream() {
                Lookup::Fetch
            } else {
                match m.fallback() {
                    Some(t) => Lookup::Answer(t.to_string()),
                    None => Lookup::Unavailable,
                }
            }
        },
    }
}

/// What [`lookup`] owes: it succeeds exactly when the method is not cached
/// or its key can be read, and then decides as [`lookup_spec`] says.
pub open spec fn lookup_ensures<R: Recorder>(
    recorder: R,
    key: CacheKey,
    upstream: bool,
    r: Result<Lookup, RecorderError>,
) -> bool {
    &&& r is Ok <==> (!spec_is_cached(key.method) || recorder.readable(key.spec_text()))
    &&& r matches Ok(l) ==> lookup_spec(recorder.entries(), key, upstream, l)
}

/// Decides how to answer the query `key`, given whether an upstream node is
/// configured. A stored answer always wins. The recorder is read only for
/// cached methods, and a failed read is passed on.
pub fn lookup<R: Recorder>(recorder: &R, key: &CacheKey, upstream: bool) -> (r: Result<
    Lookup,
    RecorderError,
>)
    requires
        recorder.inv(),
    ensures
        lookup_ensures(*recorder, *key, upstream, r),
{
    let found = if key.method.is_cached() {
        let text = key.text();
        match recorder.get(text.as_str()) {
            Ok(f) => f,
            Err(e) => {
                return Err(e);
            },
        }
    } else {
        None
    };
    Ok(decide(key.method, upstream, found))
}

/// A failure reported by the upstream node.
#[derive(Clone, Debug)]
pub struct UpstreamError {
    pub message: String,
}

/// An upstream answer, with the outcome of recording it.
#[derive(Clone, Debug)]
pub struct Served {
    /// The JSON text to answer with.
    pub value: String,
    /// Why the answer could not be recorded, if it could not.
    pub record_failure: Option<RecorderError>,
}

/// What [`settle`] owes, given the recorder's entries before and after.
pub open spec fn settle_spec(
    before: Entries,
    after: Entries,
    key: CacheKey,
    fetched: Result<String, UpstreamError>,
    r: Result<Served, UpstreamError>,
) -> bool {
    match fetched {
        Err(e) => r matches Err(f) && f.message@ == e.message@ && after == before,
        Ok(v) => r matches Ok(s) && s.value@ == v@ && if spec_is_cached(key.method) {
            match s.record_failure {
                None => after == before.insert(key.spec_text(), v@),
                Some(_) => after == before,
            }
        } else {
            s.record_failure is None && after == before
        },
    }
}

/// What [`settle`] owes of the recorder: [`settle_spec`] on its entries;
/// no record failure from a writable recorder; a recorded key stays
/// readable.
pub open spec fn settle_ensures<R: Recorder>(
    before: R,
    after: R,
    key: CacheKey,
    fetched: Result<String, UpstreamError>,
    r: Result<Served, UpstreamError>,
) -> bool {
    &&& settle_spec(before.entries(), after.entries(), key, fetched, r)
    &&& after.writable() == before.writable()
    &&& before.writable() ==> (r matches Ok(s) ==> s.record_failure is None)
    &&& spec_is_cached(key.method) ==> (r matches Ok(s) ==> (s.record_failure is None
        ==> after.readable(key.spec_text())))
}

/// Completes a query that [`lookup`] sent upstream. A successful answer of
/// a cached method is recorded; a failed recording is reported beside the
/// answer and does not replace it. An upstream failure is passed on and
/// nothing is recorded.
pub fn settle<R: Recorder>(
    recorder: &mut R,
    key: &CacheKey,
    fetched: Result<String, UpstreamError>,
) -> (r: Result<Served, UpstreamError>)
    requires
        old(recorder).inv(),
    ensures
        final(recorder).inv(),
        settle_ensures(*old(recorder), *final(recorder), *key, fetched, r),
{
    match fetched {
        Err(e) => Err(UpstreamError { message: e.message }),
        Ok(value) => {
            if key.method.is_cached() {
                let text = key.text();
                match recorder.record(text.as_str(), &value) {
                    Ok(()) => Ok(Served { value, record_failure: None }),
                    Err(e) => Ok(Served { value, record_failure: Some(e) }),
                }
            } else {
                Ok(Served { value, record_failure: None })
            }
        },
    }
}

/// A stored answer takes precedence: the upstream node is not asked, even
/// when one is configured, and the stored text is the answer.
pub proof fn lemma_stored_answer_wins<R: Recorder>(
    recorder: R,
    key: CacheKey,
    upstream: bool,
    r: Result<Lookup, RecorderError>,
)
    requires
        spec_is_cached(key.method),
        recorder.entries().contains_key(key.spec_text()),
        recorder.readable(key.spec_text()),
        lookup_ensures(recorder, key, upstream, r),
    ensures
        r matches Ok(Lookup::Hit(v)) && v@ == recorder.entries()[key.spec_text()],
{
}

/// A cold key of a cached method, with an upstream node configured and a
/// writable recorder, is fetched once, answered with what came back and
/// recorded once: the entries gain exactly that key, and the same query
/// then replays the answer without asking upstream.
pub proof fn lemma_cold_miss_fetches_once<R: Recorder>(
    before: R,
    after: R,
    key: CacheKey,
    fetched: String,
    first: Result<Lookup, RecorderError>,
    served: Result<Served, UpstreamError>,
    again: Result<Lookup, RecorderError>,
)
    requires
        spec_is_cached(key.method),
        !before.entries().contains_key(key.spec_text()),
        before.readable(key.spec_text()),
        before.writable(),
        lookup_ensures(before, key, true, first),
        settle_ensures(before, after, key, Ok(fetched), served),
        lookup_ensures(after, key, true, again),
    ensures
        first matches Ok(Lookup::Fetch),
        served matches Ok(s) && s.value@ == fetched@ && s.record_failure is None,
        after.entries() == before.entries().insert(key.spec_text(), fetched@),
        after.entries().dom() == before.entries().dom().insert(key.spec_text()),
        again matches Ok(Lookup::Hit(v)) && v@ == fetched@,
{
    assert(after.entries().dom() =~= before.entries().dom().insert(key.spec_text()));
}

/// With no upstream node, a readable query that finds nothing stored is
/// answered with the method's fallback, as a success; it is never sent
/// upstream.
pub proof fn lemma_replay_only_falls_back<R: Recorder>(
    recorder: R,
    key: CacheKey,
    r: Result<Lookup, RecorderError>,
)
    requires
        !(spec_is_cached(key.method) && recorder.entries().contains_key(key.spec_text())),
        spec_is_cached(key.method) ==> recorder.readable(key.spec_text()),
        lookup_ensures(recorder, key, false, r),
    ensures
        r is Ok,
        spec_fallback(key.method) matches Some(t) ==> r matches Ok(Lookup::Answer(a)) && a@ == t,
        spec_fallback(key.method) is None ==> r matches Ok(Lookup::Unavailable),
{
}

/// A query is never answered from another query's entry: with only
/// `stored` recorded and no upstream node, a different query gets its
/// fallback.
pub proof fn lemma_other_query_not_served<R: Recorder>(
    recorder: R,
    stored: CacheKey,
    asked: CacheKey,
    r: Result<Lookup, RecorderError>,
)
    requires
        recorder.entries().dom() == set![stored.spec_text()],
        stored.method != asked.method || stored.arg_texts() != asked.arg_texts(),
        spec_is_cached(asked.method) ==> recorder.readable(asked.spec_text()),
        lookup_ensures(recorder, asked, false, r),
    ensures
        r is Ok,
        spec_fallback(asked.method) matches Some(t) ==> r matches Ok(Lookup::Answer(a)) && a@ == t,
{
    if asked.spec_text() == stored.spec_text() {
        lemma_key_injective(stored.method, stored.arg_texts(), asked.method, asked.arg_texts());
    }
    assert(!recorder.entries().contains_key(asked.spec_text()));
}

/// A failed read of a cached method's key is passed on as an error, never
/// replaced by a fallback or an upstream call.
pub proof fn lemma_failed_read_is_passed_on<R: Recorder>(
    recorder: R,
    key: CacheKey,
    upstream: bool,
    r: Result<Lookup, RecorderError>,
)
    requires
        spec_is_cached(key.method),
        !recorder.readable(key.spec_text()),
        lookup_ensures(recorder, key, upstream, r),
    ensures
        r is Err,
{
}

/// An upstream failure is passed on and leaves the recorder untouched.
pub proof fn lemma_upstream_failure_not_recorded(
    before: Entries,
    after: Entries,
    key: CacheKey,
    e: UpstreamError,
    r: Result<Served, UpstreamError>,
)
    requires
        settle_spec(before, after, key, Err(e), r),
    ensures
        r matches Err(f) && f.message@ == e.message@,
        after == before,
{
}

} // verus!

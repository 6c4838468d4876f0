//! A record/replay cache for read-only blockchain node queries.
//!
//! Query answers are kept as JSON text under canonical keys built from the
//! query method and its arguments. A recorder holds them in memory and
//! writes a full snapshot to disk on request.
pub mod api;
pub mod arguments;
pub mod cache;
pub mod key;
pub mod params;
pub mod pickle_recorder;
pub mod recorder;
pub mod shutdown;

pub use api::{build_inner, ApiInner, NodeCacheDebugApi, NodeCacheEngineEthApi, NodeCacheEthApi};
pub use arguments::AppArgs;
pub use cache::{decide, lookup, settle, Lookup, Served, UpstreamError};
pub use key::{CacheKey, Method};
pub use params::param_text;
pub use pickle_recorder::PickleRecorder;
pub use recorder::{Recorder, RecorderError};
pub use shutdown::{step, Directive, Event, Phase};

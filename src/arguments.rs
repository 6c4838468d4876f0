//! The settings the server starts with.
use vstd::prelude::*;

verus! {

/// Where to listen, which node to forward to, and where the cache lives.
#[derive(Clone, Debug)]
pub struct AppArgs {
    /// The address the server listens on.
    pub host: String,
    /// The upstream node's URL; without it the server only replays.
    pub node: Option<String>,
    /// Whether all requests should be recorded.
    pub record: bool,
    /// The file that holds the cache.
    pub db_file_path: String,
}

} // verus!

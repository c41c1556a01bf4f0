//! What the service tells about itself.

use vstd::prelude::*;

verus! {

/// The name and the version of the service.
#[derive(Clone, Debug)]
pub struct AppVersion {
    pub name: String,
    pub version: String,
}

/// Counters of the store's driver.
#[derive(Clone, Copy, Debug)]
pub struct AppInfo {
    pub scylla_latency_avg_ms: u64,
    pub scylla_latency_p99_ms: u64,
    pub scylla_latency_p90_ms: u64,
    pub scylla_errors_num: u64,
    pub scylla_queries_num: u64,
    pub scylla_errors_iter_num: u64,
    pub scylla_queries_iter_num: u64,
    pub scylla_retries_num: u64,
}

} // verus!

//! The fixed numbers of the gateway.

use vstd::prelude::*;

verus! {

/// How long a stored document lives, in seconds.
pub const CACHE_TTL_SECONDS: u64 = 3600;

/// How long one call to an upstream may take, in seconds.
pub const UPSTREAM_TIMEOUT_SECONDS: u64 = 30;

/// How many requests a client may make in one burst.
pub const BURST_SIZE: u32 = 100;

/// After how many seconds a client gets one request of its burst back.
pub const REPLENISH_SECONDS: u64 = 60;

/// Every how many seconds the buckets of idle clients are swept out.
pub const SWEEP_SECONDS: u64 = 60;

} // verus!

//! Names and numbers shared by every component of the deployment.
use vstd::prelude::*;

verus! {

/// Hash that holds one heartbeat record per consumer identity.
pub const CONSUMER_HEARTBEAT_KEY: &'static str = "rust_backend_consumers:heartbeat";

/// The one consumer group that every worker joins on its stream.
pub const CONSUMER_GROUP_NAME: &'static str = "rust-backend";

/// Key of the lock that makes the rebalancer a singleton per tick.
pub const REBALANCE_LOCK_KEY: &'static str = "rust_backend:rebalance_lock";

/// Value written under the rebalance lock key.
pub const REBALANCE_LOCK_VALUE: &'static str = "locked";

/// Field of a stream entry that carries the business payload.
pub const MESSAGE_KEY: &'static str = "message";

/// Seconds without a heartbeat after which a consumer counts as dead.
pub const HEARTBEAT_TIMEOUT_SECONDS: i64 = 60;

/// Seconds between two heartbeat writes of one consumer.
pub const HEARTBEAT_INTERVAL_SECONDS: u64 = 5;

/// Seconds between two rebalance ticks.
pub const REBALANCE_CHECK_INTERVAL_SECONDS: u64 = 10;

/// Lifetime of the rebalance lock, in seconds.
pub const LOCK_TTL_SECONDS: u64 = 30;

/// Number of pending ids claimed to one target in one call.
pub const BATCH_SIZE: usize = 10;

/// Most pending ids fetched for one dead consumer in one tick.
pub const PENDING_FETCH_LIMIT: usize = 1000;

/// Most entries returned by one group read.
pub const READ_COUNT: usize = 10;

/// Longest wait of a group read for fresh entries, in milliseconds.
pub const READ_BLOCK_MS: u64 = 1000;

/// Most handler invocations in flight for one batch.
pub const HANDLER_CONCURRENCY: usize = 5;

/// Pause after a failed broker call or a failed pool, in milliseconds.
pub const RETRY_BACKOFF_MS: u64 = 5000;

/// Pool size per stream when the configuration gives none.
pub const DEFAULT_MAX_CONSUMER_COUNT: usize = 5;

/// Connection cap when the configuration gives none.
pub const DEFAULT_MAX_REDIS_POOL_SIZE: usize = 16;

} // verus!

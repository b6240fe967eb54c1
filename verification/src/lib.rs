//! A store for responses and their background jobs, kept in Redis: the rules of the store, of the
//! queue, of the service in front of them and of its client.
//!
//! The library decides; it performs no input or output itself. An operation that needs Redis
//! tells what is to be sent, or runs as a state machine whose `step` takes what happened and tells
//! what is to be done next.

pub mod capabilities;
pub mod claim;
pub mod client;
pub mod config;
pub mod convert;
pub mod error;
pub mod json;
pub mod laws;
pub mod metrics;
pub mod model;
pub mod probe;
pub mod proto;
pub mod queue;
pub mod service;
pub mod status;
pub mod store;
pub mod text;
pub mod transaction;

pub use capabilities::RedisCapabilities;
pub use claim::{ClaimBatchResult, ClaimOptions};
pub use config::{
    grpc_listen_addr_from_env, grpc_max_message_bytes_from_env, metrics_http_enabled_from_env,
    metrics_http_listen_addr_from_env, StoreConfig, DEFAULT_GRPC_MAX_MESSAGE_BYTES,
};
pub use error::{redis_error_kind, StoreError};
pub use model::{
    autoclaim_cursor_key, build_cancelled_response, build_queued_response, build_upstream_request,
    generate_response_id, is_deleted_tombstone, is_in_flight_background,
    is_in_progress_background, is_terminal_background_status, response_id_from_value,
    response_store_key, stored_response_status, unix_seconds_now, BackgroundJob,
    PendingBackgroundJob, StoredResponse,
};
pub use queue::{BackgroundQueue, BackgroundQueueStats};
pub use store::ResponseStore;

//! Laws on what the operations accept: they take every input, and what they have started can
//! always go on.

use vstd::prelude::*;

use crate::capabilities::{parse_redis_version, redis_version_at_least, RedisCapabilities};
use crate::claim::{ClaimAction, ClaimBatchResult, ClaimEvent, ClaimOptions, ClaimRun};
use crate::client::{claim_reply, from_proto_record, reconcile_reply, to_proto_record};
use crate::config::{
    grpc_max_message_bytes_from_env, metrics_http_enabled_from_env, StoreConfig, StoreEnvironment,
};
use crate::convert::{core_job_to_proto, core_to_proto, proto_to_core, store_error_to_status};
use crate::error::{RedisFailure, StoreError};
use crate::json::json_of;
use crate::metrics::{escape_prometheus_label_value, prometheus_body, stats_for_query};
use crate::model::{
    build_cancelled_response, build_failed_response, build_queued_response, build_upstream_request,
    is_stale_enqueued, response_id_from_value, same_record, BackgroundJob, StoredResponse,
};
use crate::probe::probe_endpoint_from_env;
use crate::proto::{
    AcknowledgeBackgroundJobRequest, ClaimBackgroundJobsRequest, ClaimBackgroundJobsResponse,
    DeleteResponseRequest, EnqueueBackgroundJobRequest, EnsureConsumerGroupRequest,
    GetResponseRequest, ReconcileStaleResponseRequest, ReconcileStaleResponseResponse,
    StoreResponseRequest, UpdateResponseRequest,
};
use crate::queue::{
    acknowledged, find_group, group_created, stats_from_group, BackgroundQueue,
    BackgroundQueueStats, GroupInfo, StatsEvent, StatsRun,
};
use crate::service::{
    batch_to_proto, ClaimCall, ClaimCallAction, ClaimCallEvent, ReadStep, ReconcileStep,
    ResponsesApiStoreService,
};
use crate::status::Status;
use crate::store::{
    prepare_claim_background, prepare_complete_background, prepare_fail_background,
    reconcile_write_ttl, Reconciliation, ResponseStore,
};
use crate::transaction::{decide, Action, Change, Event, Outcome, Transaction};

verus! {

/// The store takes every response, every lifetime and every time.
pub proof fn the_store_takes_everything(
    store: &ResponseStore,
    response_id: &str,
    record: &StoredResponse,
    loaded: Option<StoredResponse>,
    existing: &Option<StoredResponse>,
    ttl_seconds: Option<u64>,
    reconcile_stale: bool,
    now: i64,
    stale_seconds: i64,
    stored: StoredResponse,
)
    ensures
        call_requires(ResponseStore::store, (store, response_id, record, ttl_seconds)),
        call_requires(ResponseStore::get_at, (store, response_id, reconcile_stale, loaded, now)),
        call_requires(ResponseStore::get, (store, response_id, reconcile_stale, loaded)),
        call_requires(
            ResponseStore::update,
            (store, response_id, record, ttl_seconds, existing),
        ),
        call_requires(
            ResponseStore::reconcile_stale_response_at,
            (store, response_id, stored, stale_seconds, now),
        ),
        call_requires(
            ResponseStore::reconcile_stale_response,
            (store, response_id, stored, stale_seconds),
        ),
        call_requires(ResponseStore::tombstone_deleted_background, (store, response_id, record)),
        call_requires(ResponseStore::claim_background_response, (store, response_id)),
        call_requires(reconcile_write_ttl, (stale_seconds, store.default_ttl_seconds)),
        call_requires(is_stale_enqueued, (stored.enqueued_at, now, stale_seconds)),
        call_requires(same_record, (record, record)),
{
}

/// Every change can be tried on every record.
pub proof fn changes_take_every_record(
    store: &ResponseStore,
    change: &Change,
    stored: StoredResponse,
    record: &StoredResponse,
    response_id: &str,
    text: &str,
    value: &serde_json::Value,
    result: serde_json::Value,
)
    ensures
        call_requires(decide, (change, stored, response_id)),
        call_requires(prepare_claim_background, (record, response_id)),
        call_requires(prepare_complete_background, (record, response_id, value)),
        call_requires(prepare_fail_background, (record, response_id, text)),
        call_requires(ResponseStore::complete_background_response, (store, response_id, result)),
        call_requires(ResponseStore::fail_background_response, (store, response_id, text)),
{
}

/// A response can be built of every request, and cancelled where it is an object or `Null`.
pub proof fn responses_are_built_of_everything(
    text: &str,
    other: &str,
    value: &serde_json::Value,
    record: &StoredResponse,
)
    ensures
        call_requires(build_queued_response, (text, other, value)),
        call_requires(build_upstream_request, (value,)),
        call_requires(build_failed_response, (text, other)),
        call_requires(response_id_from_value, (value,)),
        json_of(record.response) is Object || json_of(record.response) is Null ==> call_requires(
            build_cancelled_response,
            (record, text),
        ),
{
}

/// A transaction of the store takes every reply that it waits for, at its start and after every
/// step.
pub proof fn transactions_can_go_on(
    key: String,
    response_id: String,
    change: Change,
    default_ttl_seconds: u64,
    transaction: Transaction,
    before: Transaction,
    earlier: Event,
    action: Action,
    event: Event,
)
    requires
        call_ensures(Transaction::new, (key, response_id, change, default_ttl_seconds), transaction)
            || call_ensures(Transaction::step, (before, earlier), (transaction, action)),
        call_ensures(Transaction::awaits, (&transaction, &event), true),
    ensures
        call_requires(Transaction::step, (transaction, event)),
{
}

/// A transaction that the store starts takes every reply that it waits for.
pub proof fn started_transactions_can_go_on(
    store: &ResponseStore,
    response_id: &str,
    message: &str,
    result: serde_json::Value,
    stored: StoredResponse,
    loaded: Option<StoredResponse>,
    reconcile_stale: bool,
    stale_seconds: i64,
    now: i64,
    transaction: Transaction,
    event: Event,
)
    requires
        call_ensures(ResponseStore::claim_background_response, (store, response_id), transaction)
            || call_ensures(
            ResponseStore::complete_background_response,
            (store, response_id, result),
            transaction,
        ) || call_ensures(
            ResponseStore::fail_background_response,
            (store, response_id, message),
            transaction,
        ) || call_ensures(
            ResponseStore::reconcile_stale_response_at,
            (store, response_id, stored, stale_seconds, now),
            Reconciliation::Stale(transaction),
        ) || call_ensures(
            ResponseStore::get_at,
            (store, response_id, reconcile_stale, loaded, now),
            Ok::<Reconciliation, StoreError>(Reconciliation::Stale(transaction)),
        ),
        call_ensures(Transaction::awaits, (&transaction, &event), true),
    ensures
        call_requires(Transaction::step, (transaction, event)),
{
}

/// A transaction that the service starts takes every reply that it waits for.
pub proof fn served_transactions_can_go_on(
    service: &ResponsesApiStoreService,
    get: &GetResponseRequest,
    reconcile: &ReconcileStaleResponseRequest,
    loaded: Result<Option<StoredResponse>, StoreError>,
    now: i64,
    before: StoredResponse,
    transaction: Transaction,
    event: Event,
)
    requires
        call_ensures(
            ResponsesApiStoreService::get_response_loaded,
            (service, get, loaded, now),
            Ok::<ReadStep, Status>(ReadStep::Reconcile(transaction)),
        ) || call_ensures(
            ResponsesApiStoreService::reconcile_stale_response_loaded,
            (service, reconcile, loaded, now),
            Ok::<ReconcileStep, Status>(ReconcileStep::Reconcile { before, transaction }),
        ),
        call_ensures(Transaction::awaits, (&transaction, &event), true),
    ensures
        call_requires(Transaction::step, (transaction, event)),
{
}

/// A claim takes every worker whose waiting time can be counted, and then every reply that it waits
/// for.
pub proof fn claims_can_go_on(
    queue: &BackgroundQueue,
    options: &ClaimOptions,
    cursor: &str,
    run: ClaimRun,
    before: ClaimRun,
    earlier: ClaimEvent,
    action: ClaimAction,
    event: ClaimEvent,
)
    requires
        call_ensures(BackgroundQueue::claim_jobs, (queue, options, cursor), (run, action))
            || call_ensures(ClaimRun::step, (before, earlier), (run, action)),
        call_ensures(ClaimRun::awaits, (&run, &event), true),
    ensures
        options.block_ms + 500 <= u64::MAX ==> call_requires(
            BackgroundQueue::claim_jobs,
            (queue, options, cursor),
        ),
        call_requires(ClaimRun::step, (run, event)),
{
}

/// A request for jobs takes every worker, and then every reply that it waits for.
pub proof fn claim_calls_can_go_on(
    service: &ResponsesApiStoreService,
    request: ClaimBackgroundJobsRequest,
    call: ClaimCall,
    before: ClaimCall,
    earlier: ClaimCallEvent,
    action: ClaimCallAction,
    event: ClaimCallEvent,
)
    requires
        call_ensures(
            ResponsesApiStoreService::claim_background_jobs,
            (service, request),
            Ok::<(ClaimCall, ClaimCallAction), Status>((call, action)),
        ) || call_ensures(
            ResponsesApiStoreService::claim_step,
            (service, before, earlier),
            (call, action),
        ),
        call_ensures(ClaimCall::awaits, (&call, &event), true),
    ensures
        call_requires(ResponsesApiStoreService::claim_background_jobs, (service, request)),
        call_requires(ResponsesApiStoreService::claim_step, (service, call, event)),
{
}

/// The queue takes every group and every reply.
pub proof fn the_queue_takes_everything(
    queue: &BackgroundQueue,
    text: &str,
    other: &str,
    group: &GroupInfo,
    groups: &Vec<GroupInfo>,
    created: Result<(), RedisFailure>,
    number: Result<i32, RedisFailure>,
    run: StatsRun,
    event: StatsEvent,
    query: Option<String>,
    stats: &BackgroundQueueStats,
)
    requires
        call_ensures(StatsRun::awaits, (&run, &event), true),
    ensures
        call_requires(stats_from_group, (text, group)),
        call_requires(find_group, (groups, text)),
        call_requires(group_created, (created,)),
        call_requires(acknowledged, (text, other, number)),
        call_requires(BackgroundQueue::enqueue, (queue, text)),
        call_requires(BackgroundQueue::ensure_consumer_group, (queue, text, other)),
        call_requires(BackgroundQueue::get_autoclaim_cursor, (queue, text)),
        call_requires(BackgroundQueue::set_autoclaim_cursor, (queue, text, other)),
        call_requires(BackgroundQueue::acknowledge, (queue, text, other)),
        call_requires(BackgroundQueue::stats, (queue, text)),
        call_requires(StatsRun::step, (run, event)),
        call_requires(stats_for_query, (queue, query)),
        call_requires(escape_prometheus_label_value, (text,)),
        call_requires(prometheus_body, (text, stats)),
{
}

/// The service takes every request and every load.
pub proof fn the_service_takes_everything(
    service: &ResponsesApiStoreService,
    store: &StoreResponseRequest,
    get: &GetResponseRequest,
    update: &UpdateResponseRequest,
    delete: &DeleteResponseRequest,
    enqueue: &EnqueueBackgroundJobRequest,
    acknowledge: &AcknowledgeBackgroundJobRequest,
    ensure: &EnsureConsumerGroupRequest,
    reconcile: &ReconcileStaleResponseRequest,
    loaded: Result<Option<StoredResponse>, StoreError>,
    result: Result<Outcome, StoreError>,
    core: &StoredResponse,
    response_id: &str,
    ttl_seconds: u64,
    now: i64,
)
    ensures
        call_requires(ResponsesApiStoreService::store_response, (service, store)),
        call_requires(ResponsesApiStoreService::get_response, (service, get)),
        call_requires(ResponsesApiStoreService::get_response_loaded, (service, get, loaded, now)),
        call_requires(ResponsesApiStoreService::get_response_reconciled, (service, get, result)),
        call_requires(ResponsesApiStoreService::update_response, (service, update)),
        call_requires(
            ResponsesApiStoreService::update_response_loaded,
            (service, response_id, core, ttl_seconds, loaded),
        ),
        call_requires(ResponsesApiStoreService::delete_response, (service, delete)),
        call_requires(
            ResponsesApiStoreService::delete_response_loaded,
            (service, delete, loaded),
        ),
        call_requires(ResponsesApiStoreService::enqueue_background_job, (service, enqueue, now)),
        call_requires(
            ResponsesApiStoreService::acknowledge_background_job,
            (service, acknowledge),
        ),
        call_requires(ResponsesApiStoreService::ensure_consumer_group, (service, ensure)),
        call_requires(ResponsesApiStoreService::reconcile_stale_response, (service, reconcile)),
        call_requires(
            ResponsesApiStoreService::reconcile_stale_response_loaded,
            (service, reconcile, loaded, now),
        ),
        call_requires(
            ResponsesApiStoreService::reconcile_stale_response_reconciled,
            (service, reconcile, core, result),
        ),
{
}

/// Every record, job and error can be sent, and every message can be looked at.
pub proof fn messages_are_made_of_everything(
    response_id: &str,
    record: &StoredResponse,
    job: &BackgroundJob,
    batch: ClaimBatchResult,
    err: StoreError,
    message: &crate::proto::StoredResponse,
    reply: ClaimBackgroundJobsResponse,
    reconciled: ReconcileStaleResponseResponse,
)
    ensures
        call_requires(core_to_proto, (response_id, record)),
        call_requires(to_proto_record, (response_id, record)),
        call_requires(core_job_to_proto, (job,)),
        call_requires(batch_to_proto, (batch,)),
        call_requires(store_error_to_status, (err,)),
        call_requires(proto_to_core, (message,)),
        call_requires(from_proto_record, (Some(message), response_id)),
        call_requires(claim_reply, (reply,)),
        call_requires(reconcile_reply, (reconciled, response_id)),
{
}

/// Settings are read of every environment, and capabilities of every reply.
pub proof fn settings_are_read_of_everything(
    env: StoreEnvironment,
    value: Option<String>,
    text: &str,
    major: u32,
    minor: u32,
)
    ensures
        call_requires(StoreConfig::from_env, (env,)),
        call_requires(metrics_http_enabled_from_env, (value,)),
        call_requires(grpc_max_message_bytes_from_env, (value,)),
        call_requires(probe_endpoint_from_env, (value,)),
        call_requires(parse_redis_version, (text,)),
        call_requires(redis_version_at_least, (text, major, minor)),
        call_requires(RedisCapabilities::from_info, (text,)),
{
}

} // verus!

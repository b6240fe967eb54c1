//! Laws on the service: which requests are served, what each one comes to, and what is answered.

use vstd::prelude::*;

use super::claims::same_options;
use super::documents::{lemma_more_names_differ, marks_deletion};
use super::errors::{contains, lemma_contains};
use super::messages::{carries, is_read_as, is_readable, lemma_carries, lemma_decoded};
use super::states::{has_status, has_waited, same, same_request, views_tell_records_apart};
use super::storing::{fails_stale, is_missing, key_in, lemma_key_in, lemma_same_request};
use crate::claim::{ClaimAction, ClaimBatchResult, ClaimEvent, ClaimRun};
use crate::config::StoreConfig;
use crate::convert::{proto_to_core, store_error_to_status};
use crate::error::{RedisFailure, StoreError};
use crate::json::json_of;
use crate::model::{lemma_names_differ, same_record, StoredResponse};
use crate::proto::{
    AcknowledgeBackgroundJobRequest, ClaimBackgroundJobsRequest, ClaimBackgroundJobsResponse,
    DeleteResponseRequest, EnqueueBackgroundJobRequest, EnsureConsumerGroupRequest,
    GetResponseRequest, HealthResponse, ReconcileStaleResponseRequest,
    ReconcileStaleResponseResponse, StoreResponseRequest, UpdateResponseRequest,
};
use crate::queue::{
    Acknowledgement, BackgroundQueue, GroupCreate, StreamAppend, AUTOCLAIM_CURSOR_SCRIPT,
};
use crate::service::{
    batch_to_proto, ClaimCall, ClaimCallAction, ClaimCallEvent, ClaimCallPhase, Deletion, ReadStep,
    ReconcileStep, ResponsesApiStoreService,
};
use crate::status::{Code, Status};
use crate::store::{opened_client, RecordWrite};
use crate::transaction::Outcome;

verus! {

/// Whether a status tells that the request lacks something.
pub open spec fn is_bad_request(status: Status, message: Seq<char>) -> bool {
    status.code == Code::InvalidArgument && status.message@ == message
}

/// Whether a status tells that there is no such response.
pub open spec fn reports_missing(status: Status, response_id: Seq<char>) -> bool {
    &&& status.code == Code::NotFound
    &&& status.message@ == if contains(response_id, "consumer group"@) {
        response_id
    } else {
        "response not found: "@ + response_id
    }
}

/// Whether two statuses say the same.
pub open spec fn same_status(left: Status, right: Status) -> bool {
    left.code == right.code && left.message@ == right.message@
}

/// The lifetime for which a record is stored: the one that is asked for, where it is not zero, and
/// else the store's own.
pub open spec fn lifetime(service: ResponsesApiStoreService, ttl_seconds: u64) -> u64 {
    if ttl_seconds > 0 {
        ttl_seconds
    } else {
        service.store.default_ttl_seconds
    }
}

/// Whether a request has a record with an ID.
pub open spec fn names_its_record(record: Option<crate::proto::StoredResponse>) -> bool {
    record matches Some(message) && message.response_id@.len() > 0
}

/// A lifetime of zero stands for the default, and every other one for itself.
pub proof fn lifetimes_are_asked_for(
    service: &ResponsesApiStoreService,
    ttl_seconds: u64,
    ttl: Option<u64>,
)
    requires
        call_ensures(ResponsesApiStoreService::ttl_from_request, (service, ttl_seconds), ttl),
    ensures
        ttl_seconds == 0 ==> ttl is None,
        ttl_seconds > 0 ==> ttl == Some(ttl_seconds),
{
}

/// A record is required, with its ID, and given back as it is.
pub proof fn records_are_required(
    record: &Option<crate::proto::StoredResponse>,
    required: Result<&crate::proto::StoredResponse, Status>,
)
    requires
        call_ensures(ResponsesApiStoreService::require_record, (record,), required),
    ensures
        required is Ok <==> names_its_record(*record),
        required matches Ok(found) ==> found@ == (*record)->0@,
        required matches Err(status) ==> is_bad_request(status, "record.response_id is required"@),
{
}

/// Whether a write stores the record of a message, as it is read, for that lifetime.
pub open spec fn stores(
    write: RecordWrite,
    service: ResponsesApiStoreService,
    message: crate::proto::StoredResponse,
    ttl_seconds: u64,
) -> bool {
    &&& write.key@ == key_in(service.store, message.response_id@)
    &&& write.ttl_seconds == ttl_seconds
    &&& is_read_as(message, write.record)
}

/// A record that a client sends is stored as it was sent, under its own ID, for the lifetime that
/// the client asks for or else the default. Only a record that is missing, has no ID or cannot be
/// read is refused, and a lifetime of zero.
pub proof fn sent_records_are_stored(
    service: &ResponsesApiStoreService,
    request: &StoreResponseRequest,
    write: Result<RecordWrite, Status>,
    refused: Status,
)
    requires
        call_ensures(ResponsesApiStoreService::store_response, (service, request), write),
        names_its_record(request.record) && !is_readable(request.record->0) ==> call_ensures(
            proto_to_core,
            (&request.record->0,),
            Err::<StoredResponse, Status>(refused),
        ),
    ensures
        names_its_record(request.record) && !is_readable(request.record->0) ==> (write matches Err(
            status,
        ) && same_status(status, refused)),
        write is Ok <==> names_its_record(request.record) && is_readable(request.record->0)
            && lifetime(*service, request.ttl_seconds) > 0,
        names_its_record(request.record) && is_readable(request.record->0) ==> (
        write matches Err(status) ==> is_bad_request(
            status,
            "ttl_seconds must be greater than 0"@,
        )),
        write matches Ok(write) ==> stores(
            write,
            *service,
            request.record->0,
            lifetime(*service, request.ttl_seconds),
        ),
        write matches Err(status) ==> status.code == Code::InvalidArgument,
        !names_its_record(request.record) ==> (write matches Err(status) && is_bad_request(
            status,
            "record.response_id is required"@,
        )),
{
    if let Some(message) = request.record {
        lemma_key_in(service.store, message.response_id@);
        lemma_decoded(message, arbitrary());
        if let Ok(write) = write {
            lemma_decoded(message, write.record);
        }
    }
}

/// What a request asks for is looked up under its own key; a request without an ID is refused.
pub proof fn requests_name_their_response(
    service: &ResponsesApiStoreService,
    get: &GetResponseRequest,
    delete: &DeleteResponseRequest,
    reconcile: &ReconcileStaleResponseRequest,
    get_key: Result<String, Status>,
    delete_key: Result<String, Status>,
    reconcile_key: Result<String, Status>,
)
    requires
        call_ensures(ResponsesApiStoreService::get_response, (service, get), get_key),
        call_ensures(ResponsesApiStoreService::delete_response, (service, delete), delete_key),
        call_ensures(
            ResponsesApiStoreService::reconcile_stale_response,
            (service, reconcile),
            reconcile_key,
        ),
    ensures
        get.response_id@.len() == 0 ==> (get_key matches Err(status) && is_bad_request(
            status,
            "response_id is required"@,
        )),
        get.response_id@.len() > 0 ==> (get_key matches Ok(key) && key@ == key_in(
            service.store,
            get.response_id@,
        )),
        delete.response_id@.len() == 0 ==> (delete_key matches Err(status) && is_bad_request(
            status,
            "response_id is required"@,
        )),
        delete.response_id@.len() > 0 ==> (delete_key matches Ok(key) && key@ == key_in(
            service.store,
            delete.response_id@,
        )),
        reconcile.response_id@.len() == 0 ==> (reconcile_key matches Err(status) && is_bad_request(
            status,
            "response_id is required"@,
        )),
        reconcile.response_id@.len() > 0 ==> (reconcile_key matches Ok(key) && key@ == key_in(
            service.store,
            reconcile.response_id@,
        )),
{
    lemma_key_in(service.store, get.response_id@);
    lemma_key_in(service.store, delete.response_id@);
    lemma_key_in(service.store, reconcile.response_id@);
}

/// A client that reads a response gets it as it is stored, whether or not it looks for staleness.
/// It learns that there is none exactly if nothing is stored or a deletion is marked. Only a queued
/// response that has waited for the store's limit is reconciled first, where the client asks for
/// it.
pub proof fn reads_are_answered(
    service: &ResponsesApiStoreService,
    request: &GetResponseRequest,
    loaded: Option<StoredResponse>,
    now: i64,
    step: Result<ReadStep, Status>,
)
    requires
        call_ensures(
            ResponsesApiStoreService::get_response_loaded,
            (service, request, Ok::<Option<StoredResponse>, StoreError>(loaded), now),
            step,
        ),
    ensures
        step is Err <==> is_missing(loaded),
        step matches Err(status) ==> reports_missing(status, request.response_id@),
        step matches Ok(ReadStep::Answer(message)) ==> carries(
            message,
            request.response_id@,
            loaded->0,
        ),
        !is_missing(loaded) ==> (step matches Ok(ReadStep::Reconcile(_)) <==> request.reconcile_stale
            && has_status(loaded->0, "queued"@) && has_waited(
            loaded->0.enqueued_at,
            now,
            service.store.stale_seconds,
        )),
        step matches Ok(ReadStep::Reconcile(transaction)) ==> fails_stale(
            transaction,
            service.store,
            request.response_id@,
            now,
            service.store.stale_seconds,
        ),
{
    lemma_key_in(service.store, request.response_id@);
    lemma_names_differ();
    lemma_contains(request.response_id@, "consumer group"@);
    if let Ok(ReadStep::Answer(message)) = step {
        lemma_carries(message, request.response_id@, loaded->0);
    }
}

/// Where a response cannot be loaded, a client that reads, replaces or reconciles it learns of the
/// error.
pub proof fn load_errors_are_answered(
    service: &ResponsesApiStoreService,
    get: &GetResponseRequest,
    reconcile: &ReconcileStaleResponseRequest,
    core: &StoredResponse,
    response_id: &str,
    ttl_seconds: u64,
    err: StoreError,
    now: i64,
    mapped: Status,
    read: Result<ReadStep, Status>,
    updated: Result<RecordWrite, Status>,
    reconciled: Result<ReconcileStep, Status>,
)
    requires
        call_ensures(store_error_to_status, (err,), mapped),
        call_ensures(
            ResponsesApiStoreService::get_response_loaded,
            (service, get, Err::<Option<StoredResponse>, StoreError>(err), now),
            read,
        ),
        call_ensures(
            ResponsesApiStoreService::update_response_loaded,
            (service, response_id, core, ttl_seconds, Err::<Option<StoredResponse>, StoreError>(err)),
            updated,
        ),
        call_ensures(
            ResponsesApiStoreService::reconcile_stale_response_loaded,
            (service, reconcile, Err::<Option<StoredResponse>, StoreError>(err), now),
            reconciled,
        ),
    ensures
        read matches Err(status) && same_status(status, mapped),
        updated matches Err(status) && same_status(status, mapped),
        reconciled matches Err(status) && same_status(status, mapped),
{
}

/// A client that reads a stale response gets the record that the transaction has left, or learns of
/// its error.
pub proof fn reconciled_reads_are_answered(
    service: &ResponsesApiStoreService,
    request: &GetResponseRequest,
    result: Result<Outcome, StoreError>,
    answer: Result<crate::proto::StoredResponse, Status>,
    mapped: Status,
)
    requires
        call_ensures(
            ResponsesApiStoreService::get_response_reconciled,
            (service, request, result),
            answer,
        ),
        result matches Err(err) ==> call_ensures(store_error_to_status, (err,), mapped),
    ensures
        result matches Ok(outcome) ==> (answer matches Ok(message) && carries(
            message,
            request.response_id@,
            outcome.record,
        )),
        result is Err ==> (answer matches Err(status) && same_status(status, mapped)),
{
    if let (Ok(outcome), Ok(message)) = (result, answer) {
        lemma_carries(message, request.response_id@, outcome.record);
    }
}

/// A record that is to replace a response is read as it was sent, under its own ID.
pub proof fn replacements_are_read(
    service: &ResponsesApiStoreService,
    request: &UpdateResponseRequest,
    start: Result<(String, StoredResponse), Status>,
    refused: Status,
)
    requires
        call_ensures(ResponsesApiStoreService::update_response, (service, request), start),
        names_its_record(request.record) && !is_readable(request.record->0) ==> call_ensures(
            proto_to_core,
            (&request.record->0,),
            Err::<StoredResponse, Status>(refused),
        ),
    ensures
        names_its_record(request.record) && !is_readable(request.record->0) ==> (start matches Err(
            status,
        ) && same_status(status, refused)),
        start is Ok <==> names_its_record(request.record) && is_readable(request.record->0),
        start matches Ok((response_id, record)) ==> response_id@ == request.record->0.response_id@
            && is_read_as(request.record->0, record),
        start matches Err(status) ==> status.code == Code::InvalidArgument,
        !names_its_record(request.record) ==> (start matches Err(status) && is_bad_request(
            status,
            "record.response_id is required"@,
        )),
{
    if let Some(message) = request.record {
        lemma_decoded(message, arbitrary());
        if let Ok((_, record)) = start {
            lemma_decoded(message, record);
        }
    }
}

/// A response is replaced by exactly the record that was sent, and only where there is one.
pub proof fn replacements_are_stored(
    service: &ResponsesApiStoreService,
    response_id: &str,
    core: &StoredResponse,
    ttl_seconds: u64,
    loaded: Option<StoredResponse>,
    write: Result<RecordWrite, Status>,
)
    requires
        call_ensures(
            ResponsesApiStoreService::update_response_loaded,
            (
                service,
                response_id,
                core,
                ttl_seconds,
                Ok::<Option<StoredResponse>, StoreError>(loaded),
            ),
            write,
        ),
    ensures
        is_missing(loaded) ==> (write matches Err(status) && reports_missing(status, response_id@)),
        write is Ok <==> !is_missing(loaded) && lifetime(*service, ttl_seconds) > 0,
        write matches Ok(write) ==> {
            &&& write.key@ == key_in(service.store, response_id@)
            &&& write.ttl_seconds == lifetime(*service, ttl_seconds)
            &&& same(write.record, *core)
        },
        !is_missing(loaded) ==> (write matches Err(status) ==> is_bad_request(
            status,
            "ttl_seconds must be greater than 0"@,
        )),
{
    lemma_key_in(service.store, response_id@);
    lemma_contains(response_id@, "consumer group"@);
    if let Ok(write) = write {
        views_tell_records_apart(write.record, *core);
    }
}

/// Whether a job for the response is queued or running.
pub open spec fn is_in_flight(record: StoredResponse) -> bool {
    record.pending_upstream_request is Some || has_status(record, "queued"@) || has_status(
        record,
        "in_progress"@,
    )
}

/// A response that is deleted while its job is in flight is marked as deleted, for the worker to
/// see; any other one is removed, and so is one that cannot be loaded. What is missing is not
/// found.
pub proof fn deletions_are_carried_out(
    service: &ResponsesApiStoreService,
    request: &DeleteResponseRequest,
    loaded: Result<Option<StoredResponse>, StoreError>,
    deletion: Result<Deletion, Status>,
)
    requires
        call_ensures(
            ResponsesApiStoreService::delete_response_loaded,
            (service, request, loaded),
            deletion,
        ),
    ensures
        loaded matches Ok(found) ==> (is_missing(found) ==> (deletion matches Err(status)
            && reports_missing(status, request.response_id@))),
        loaded matches Ok(found) ==> (!is_missing(found) && is_in_flight(found->0)
            && service.store.default_ttl_seconds > 0 ==> (deletion matches Ok(Deletion::Mark(write))
            && write.key@ == key_in(service.store, request.response_id@) && write.ttl_seconds
            == service.store.default_ttl_seconds && marks_deletion(
            json_of(write.record.response),
            request.response_id@,
        ) && write.record.pending_upstream_request is None
            && write.record.upstream_authorization is None && same_request(
            write.record,
            found->0,
        ))),
        loaded matches Ok(found) ==> (!is_missing(found) && is_in_flight(found->0)
            && service.store.default_ttl_seconds == 0 ==> deletion is Err),
        loaded matches Ok(found) ==> (!is_missing(found) && !is_in_flight(found->0) ==> (
        deletion matches Ok(Deletion::Remove { key }) && key@ == key_in(
            service.store,
            request.response_id@,
        ))),
        loaded is Err ==> (deletion matches Ok(Deletion::Remove { key }) && key@ == key_in(
            service.store,
            request.response_id@,
        )),
{
    lemma_key_in(service.store, request.response_id@);
    lemma_names_differ();
    lemma_more_names_differ();
    lemma_contains(request.response_id@, "consumer group"@);
    if let (Ok(Some(found)), Ok(Deletion::Mark(write))) = (loaded, deletion) {
        lemma_same_request(write.record, found);
    }
}

/// A job's record is stored as it was sent, for the default lifetime and enqueued now, whatever the
/// client says of the time; then the job is appended to the queue under the same ID.
pub proof fn jobs_are_stored_and_enqueued(
    service: &ResponsesApiStoreService,
    request: &EnqueueBackgroundJobRequest,
    now: i64,
    plan: Result<(RecordWrite, StreamAppend), Status>,
    sent: StoredResponse,
    refused: Status,
)
    requires
        call_ensures(
            ResponsesApiStoreService::enqueue_background_job,
            (service, request, now),
            plan,
        ),
        names_its_record(request.record) && !is_readable(request.record->0) ==> call_ensures(
            proto_to_core,
            (&request.record->0,),
            Err::<StoredResponse, Status>(refused),
        ),
    ensures
        names_its_record(request.record) && !is_readable(request.record->0) ==> (plan matches Err(
            status,
        ) && same_status(status, refused)),
        plan is Ok <==> names_its_record(request.record) && is_readable(request.record->0)
            && service.store.default_ttl_seconds > 0,
        plan matches Ok((write, append)) ==> {
            &&& write.key@ == key_in(service.store, request.record->0.response_id@)
            &&& write.ttl_seconds == service.store.default_ttl_seconds
            &&& write.record.enqueued_at == Some(now)
            &&& is_read_as(request.record->0, sent) ==> {
                &&& write.record.upstream@ == sent.upstream@
                &&& json_of(write.record.response) == json_of(sent.response)
                &&& write.record@.input == sent@.input
                &&& write.record@.pending_upstream_request == sent@.pending_upstream_request
                &&& write.record@.upstream_authorization == sent@.upstream_authorization
            }
            &&& append.key@ == service.queue.stream_key@
            &&& append.field@ == "response_id"@
            &&& append.value@ == request.record->0.response_id@
            &&& append.entry_id@ == "*"@
            &&& service.queue.stream_maxlen == 0 ==> append.approx_maxlen is None
            &&& service.queue.stream_maxlen > 0 ==> append.approx_maxlen == Some(
                service.queue.stream_maxlen,
            )
        },
        plan matches Err(status) ==> status.code == Code::InvalidArgument,
        !names_its_record(request.record) ==> (plan matches Err(status) && is_bad_request(
            status,
            "record.response_id is required"@,
        )),
{
    if let Some(message) = request.record {
        lemma_key_in(service.store, message.response_id@);
        lemma_decoded(message, arbitrary());
        if let Ok((write, append)) = plan {
            let core = StoredResponse { enqueued_at: message.enqueued_at, ..write.record };
            assert(core@ == crate::convert::decoded(message@)->Ok_0);
            lemma_decoded(message, core);
            if is_read_as(message, sent) {
                let left = crate::json::documents_of(core.input@);
                let right = crate::json::documents_of(sent.input@);
                assert forall|i: int| 0 <= i < left.len() implies left[i] == right[i] by {
                    assert(parsed(message, i) == Ok::<crate::json::Json, Seq<char>>(
                        json_of(core.input@[i]),
                    ));
                    assert(parsed(message, i) == Ok::<crate::json::Json, Seq<char>>(
                        json_of(sent.input@[i]),
                    ));
                }
                assert(left == right);
            }
        }
    }
}

/// What the item at `at` of a message's input is read as.
spec fn parsed(message: crate::proto::StoredResponse, at: int) -> Result<
    crate::json::Json,
    Seq<char>,
> {
    crate::json::parsed_json(message.input_json@[at]@)
}

/// An entry is acknowledged as the worker says; both names are required.
pub proof fn acknowledgements_name_the_entry(
    service: &ResponsesApiStoreService,
    request: &AcknowledgeBackgroundJobRequest,
    plan: Result<Acknowledgement, Status>,
)
    requires
        call_ensures(
            ResponsesApiStoreService::acknowledge_background_job,
            (service, request),
            plan,
        ),
    ensures
        plan is Ok <==> request.stream_id@.len() > 0 && request.consumer_group@.len() > 0,
        plan matches Ok(plan) ==> plan.key@ == service.queue.stream_key@ && plan.stream_id@
            == request.stream_id@ && plan.consumer_group@ == request.consumer_group@,
        plan matches Err(status) ==> is_bad_request(
            status,
            "stream_id and consumer_group are required"@,
        ),
{
}

/// A group is created as the client says, from the start of the stream where it names none.
pub proof fn groups_start_where_asked(
    service: &ResponsesApiStoreService,
    request: &EnsureConsumerGroupRequest,
    plan: Result<GroupCreate, Status>,
)
    requires
        call_ensures(ResponsesApiStoreService::ensure_consumer_group, (service, request), plan),
    ensures
        plan is Ok <==> request.consumer_group@.len() > 0,
        plan matches Ok(plan) ==> {
            &&& plan.key@ == service.queue.stream_key@
            &&& plan.consumer_group@ == request.consumer_group@
            &&& request.start_id@.len() > 0 ==> plan.start_id@ == request.start_id@
            &&& request.start_id@.len() == 0 ==> plan.start_id@ == "0-0"@
        },
        plan matches Err(status) ==> is_bad_request(status, "consumer_group is required"@),
{
}

/// The limit that a request sets: its own where it is positive, and else the service's.
pub open spec fn limit(service: ResponsesApiStoreService, stale_seconds: i64) -> i64 {
    if stale_seconds > 0 {
        stale_seconds
    } else {
        service.default_stale_seconds
    }
}

/// A response that is there is failed for staleness exactly if it is queued and has waited for the
/// limit that the request sets; the service's limit counts only where the request sets none. Every
/// other response is answered as it is, as one that has not changed.
pub proof fn the_requested_limit_decides(
    service: &ResponsesApiStoreService,
    request: &ReconcileStaleResponseRequest,
    loaded: Option<StoredResponse>,
    now: i64,
    step: Result<ReconcileStep, Status>,
)
    requires
        call_ensures(
            ResponsesApiStoreService::reconcile_stale_response_loaded,
            (service, request, Ok::<Option<StoredResponse>, StoreError>(loaded), now),
            step,
        ),
    ensures
        step is Err <==> is_missing(loaded),
        step matches Err(status) ==> reports_missing(status, request.response_id@),
        !is_missing(loaded) && request.stale_seconds > 0 ==> (
        step matches Ok(ReconcileStep::Reconcile { .. }) <==> has_status(loaded->0, "queued"@)
            && has_waited(loaded->0.enqueued_at, now, request.stale_seconds)),
        !is_missing(loaded) && request.stale_seconds <= 0 ==> (
        step matches Ok(ReconcileStep::Reconcile { .. }) <==> has_status(loaded->0, "queued"@)
            && has_waited(loaded->0.enqueued_at, now, service.default_stale_seconds)),
        step matches Ok(ReconcileStep::Reconcile { before, transaction }) ==> same(
            before,
            loaded->0,
        ) && fails_stale(
            transaction,
            service.store,
            request.response_id@,
            now,
            limit(*service, request.stale_seconds),
        ),
        step matches Ok(ReconcileStep::Answer(response)) ==> !response.reconciled && (
        response.record matches Some(message) && carries(
            message,
            request.response_id@,
            loaded->0,
        )),
{
    lemma_key_in(service.store, request.response_id@);
    lemma_names_differ();
    lemma_contains(request.response_id@, "consumer group"@);
    match step {
        Ok(ReconcileStep::Reconcile { before, .. }) => {
            views_tell_records_apart(before, loaded->0);
        },
        Ok(ReconcileStep::Answer(response)) => {
            if let Some(message) = response.record {
                lemma_carries(message, request.response_id@, loaded->0);
            }
        },
        Err(_) => {},
    }
}

/// After the transaction the record that it has left is answered, with the word whether it differs
/// from the one before; an error is answered as such.
pub proof fn reconciliations_tell_the_change(
    service: &ResponsesApiStoreService,
    request: &ReconcileStaleResponseRequest,
    before: &StoredResponse,
    result: Result<Outcome, StoreError>,
    answer: Result<ReconcileStaleResponseResponse, Status>,
    unchanged: bool,
    mapped: Status,
)
    requires
        call_ensures(
            ResponsesApiStoreService::reconcile_stale_response_reconciled,
            (service, request, before, result),
            answer,
        ),
        result matches Ok(outcome) ==> call_ensures(
            same_record,
            (before, &outcome.record),
            unchanged,
        ),
        result matches Err(err) ==> call_ensures(store_error_to_status, (err,), mapped),
    ensures
        result matches Ok(outcome) ==> (answer matches Ok(response) && response.reconciled
            == !unchanged && (response.record matches Some(message) && carries(
            message,
            request.response_id@,
            outcome.record,
        ))),
        result is Err ==> (answer matches Err(status) && same_status(status, mapped)),
{
    if let (Ok(outcome), Ok(response)) = (result, answer) {
        if let Some(message) = response.record {
            lemma_carries(message, request.response_id@, outcome.record);
        }
    }
}

/// The service is healthy exactly if Redis answers.
pub proof fn health_is_that_of_redis(
    service: &ResponsesApiStoreService,
    pinged: Result<(), StoreError>,
    version: &str,
    health: HealthResponse,
)
    requires
        call_ensures(ResponsesApiStoreService::health, (service, pinged, version), health),
    ensures
        health.redis_ok <==> pinged is Ok,
        health.version@ == version@,
{
}

/// A service is made exactly where the Redis client accepts the URL, with the settings of its
/// configuration.
pub proof fn services_keep_their_settings(
    config: StoreConfig,
    service: Result<ResponsesApiStoreService, StoreError>,
)
    requires
        call_ensures(ResponsesApiStoreService::new, (config,), service),
    ensures
        service is Ok <==> opened_client(config.redis_url@) is Ok,
        service matches Err(err) ==> err is Storage,
        service matches Ok(service) ==> {
            &&& opened_client(config.redis_url@)->Ok_0 == service.store.redis_client
            &&& opened_client(config.redis_url@)->Ok_0 == service.queue.client
            &&& service.store.key_prefix@ == config.key_prefix@
            &&& service.store.default_ttl_seconds == config.ttl_seconds
            &&& service.store.stale_seconds == config.stale_seconds
            &&& service.queue.stream_key@ == config.stream_key@
            &&& service.queue.stream_maxlen == config.stream_maxlen
            &&& service.default_stale_seconds == config.stale_seconds
        },
{
}

/// A worker must name its group and itself. It then gets as many jobs as it asks for, but at least
/// one and at most a hundred, and waits as it says; the group's cursor is read first.
pub proof fn workers_ask_for_jobs(
    service: &ResponsesApiStoreService,
    request: ClaimBackgroundJobsRequest,
    start: Result<(ClaimCall, ClaimCallAction), Status>,
)
    requires
        call_ensures(ResponsesApiStoreService::claim_background_jobs, (service, request), start),
    ensures
        start is Ok <==> request.consumer_group@.len() > 0 && request.consumer_name@.len() > 0,
        start matches Err(status) ==> is_bad_request(
            status,
            "consumer_group and consumer_name are required"@,
        ),
        start matches Ok((call, action)) ==> {
            &&& call.options.consumer_group@ == request.consumer_group@
            &&& call.options.consumer_name@ == request.consumer_name@
            &&& 1 <= call.options.count <= 100
            &&& 1 <= request.count <= 100 ==> call.options.count == request.count
            &&& request.count == 0 ==> call.options.count == 1
            &&& request.count > 100 ==> call.options.count == 100
            &&& call.options.block_ms == request.block_ms
            &&& call.options.autoclaim_min_idle_ms == request.autoclaim_min_idle_ms
            &&& call.phase is ReadingCursor
            &&& action matches ClaimCallAction::ReadCursor { key } && key@
                == service.queue.stream_key@ + ":meta:autoclaim:"@ + request.consumer_group@
        },
{
}

/// Whether a request for jobs goes on for the same worker.
pub open spec fn goes_on(next: ClaimCall, call: ClaimCall) -> bool {
    same_options(next.options, call.options)
}

/// Whether a request for jobs does what the claim says: it passes the claim's actions on, stores the
/// cursor that the claim has left before it answers, and answers with the claim's error.
pub open spec fn follows_the_claim(
    next: (ClaimCall, ClaimCallAction),
    service: ResponsesApiStoreService,
    call: ClaimCall,
    claimed: (ClaimRun, ClaimAction),
    mapped: Status,
) -> bool {
    match claimed.1 {
        ClaimAction::Finish(Ok(batch)) => {
            &&& next.0.phase matches ClaimCallPhase::StoringCursor(kept) && kept@ == batch@
            &&& next.1 matches ClaimCallAction::StoreCursor(update) && update.key@
                == service.queue.stream_key@ + ":meta:autoclaim:"@ + call.options.consumer_group@
                && update.cursor@ == claimed.0.cursor@ && update.script@
                == AUTOCLAIM_CURSOR_SCRIPT@
        },
        ClaimAction::Finish(Err(_)) => {
            &&& next.0.phase is Finished
            &&& next.1 matches ClaimCallAction::Answer(Err(status)) && same_status(status, mapped)
        },
        action => {
            &&& next.0.phase matches ClaimCallPhase::Claiming(run) && run@ == claimed.0@
            &&& next.1 matches ClaimCallAction::Claim(passed) && passed@ == action@
        },
    }
}

/// A request for jobs starts its claim at the stored cursor, or at the start of the stream where
/// there is none; a failure to read the cursor is answered.
pub proof fn claims_start_at_the_cursor(
    service: &ResponsesApiStoreService,
    call: ClaimCall,
    reply: Result<Option<String>, RedisFailure>,
    next: (ClaimCall, ClaimCallAction),
    cursor: &str,
    claimed: (ClaimRun, ClaimAction),
    mapped: Status,
)
    requires
        call.phase is ReadingCursor,
        call_ensures(
            ResponsesApiStoreService::claim_step,
            (service, call, ClaimCallEvent::CursorRead(reply)),
            next,
        ),
        reply matches Ok(Some(stored)) ==> cursor@ == stored@,
        reply matches Ok(None) ==> cursor@ == "0-0"@,
        call_ensures(
            BackgroundQueue::claim_jobs,
            (&service.queue, &call.options, cursor),
            claimed,
        ),
        claimed.1 matches ClaimAction::Finish(Err(err)) ==> call_ensures(
            store_error_to_status,
            (err,),
            mapped,
        ),
        reply matches Err(failure) ==> call_ensures(
            store_error_to_status,
            (StoreError::Storage(failure),),
            mapped,
        ),
    ensures
        goes_on(next.0, call),
        reply is Ok ==> follows_the_claim(next, *service, call, claimed, mapped),
        reply is Err ==> next.0.phase is Finished && (next.1 matches ClaimCallAction::Answer(
            Err(status),
        ) && same_status(status, mapped)),
{
}

/// What happens to the claim is handed to it, and the request does what the claim says.
pub proof fn claims_are_followed(
    service: &ResponsesApiStoreService,
    call: ClaimCall,
    run: ClaimRun,
    event: ClaimEvent,
    next: (ClaimCall, ClaimCallAction),
    claimed: (ClaimRun, ClaimAction),
    mapped: Status,
)
    requires
        call.phase == ClaimCallPhase::Claiming(run),
        call_ensures(
            ResponsesApiStoreService::claim_step,
            (service, call, ClaimCallEvent::Claim(event)),
            next,
        ),
        call_ensures(ClaimRun::step, (run, event), claimed),
        claimed.1 matches ClaimAction::Finish(Err(err)) ==> call_ensures(
            store_error_to_status,
            (err,),
            mapped,
        ),
    ensures
        goes_on(next.0, call),
        follows_the_claim(next, *service, call, claimed, mapped),
{
}

/// Once the cursor is stored the worker gets all jobs of its batch; a failure to store it is
/// answered.
pub proof fn jobs_are_answered_after_the_cursor(
    service: &ResponsesApiStoreService,
    call: ClaimCall,
    batch: ClaimBatchResult,
    reply: Result<(), RedisFailure>,
    next: (ClaimCall, ClaimCallAction),
    sent: Result<ClaimBackgroundJobsResponse, Status>,
    mapped: Status,
)
    requires
        call.phase == ClaimCallPhase::StoringCursor(batch),
        call_ensures(
            ResponsesApiStoreService::claim_step,
            (service, call, ClaimCallEvent::CursorStored(reply)),
            next,
        ),
        call_ensures(batch_to_proto, (batch,), sent),
        reply matches Err(failure) ==> call_ensures(
            store_error_to_status,
            (StoreError::Storage(failure),),
            mapped,
        ),
    ensures
        next.0.phase is Finished,
        reply is Ok ==> (next.1 matches ClaimCallAction::Answer(Ok(response)) && (
        sent matches Ok(message) && response@ == message@)),
        reply is Err ==> (next.1 matches ClaimCallAction::Answer(Err(status)) && same_status(
            status,
            mapped,
        )),
{
}

/// Each phase waits for the reply to what it asked for, and for nothing else.
pub proof fn phases_await_their_replies(
    call: &ClaimCall,
    event: &ClaimCallEvent,
    answer: bool,
    run: &ClaimRun,
    claim_event: &ClaimEvent,
    claim_answer: bool,
)
    requires
        call_ensures(ClaimCall::awaits, (call, event), answer),
        call_ensures(ClaimRun::awaits, (run, claim_event), claim_answer),
        call.phase matches ClaimCallPhase::Claiming(held) ==> held == *run,
        *event matches ClaimCallEvent::Claim(held) ==> held == *claim_event,
    ensures
        answer <==> match call.phase {
            ClaimCallPhase::ReadingCursor => *event is CursorRead,
            ClaimCallPhase::Claiming(_) => *event is Claim && claim_answer,
            ClaimCallPhase::StoringCursor(_) => *event is CursorStored,
            ClaimCallPhase::Finished => false,
        },
{
}

} // verus!

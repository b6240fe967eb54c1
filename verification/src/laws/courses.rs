//! Laws on how operations follow each other: what one call leaves, the next one finds.

use vstd::prelude::*;

use super::claims::views_tell_batches_apart;
use super::documents::{holds, lemma_more_names_differ};
use super::states::{has_status, same, views_tell_records_apart};
use crate::claim::{candidates_in, entries_of, pages_of, BatchView, EntryView};
use crate::claim::{ClaimAction, ClaimEvent, ClaimRun, StreamEntry};
use crate::error::StoreError;
use crate::json::{json_of, Json};
use crate::model::{lemma_names_differ, StoredResponse};
use crate::proto::{
    DeleteResponseRequest, EnqueueBackgroundJobRequest, GetResponseRequest,
    ReconcileStaleResponseRequest,
};
use crate::queue::{stats_from_group, BackgroundQueueStats, GroupInfo, StreamAppend};
use crate::service::{Deletion, ReadStep, ReconcileStep, ResponsesApiStoreService};
use crate::status::{Code, Status};
use crate::store::{RecordWrite, Reconciliation, ResponseStore};
use crate::transaction::{decide, Change, Decision, Outcome, Transaction};

verus! {

/// What was stored is found by the next read, under the same key and as it was, unless it marks a
/// deletion; a read that looks for staleness finds it as well, unless it is queued.
pub proof fn what_was_stored_is_read(
    store: &ResponseStore,
    response_id: &str,
    record: &StoredResponse,
    ttl_seconds: Option<u64>,
    write: RecordWrite,
    key: String,
    reconcile_stale: bool,
    now: i64,
    found: Result<Reconciliation, StoreError>,
)
    requires
        call_ensures(
            ResponseStore::store,
            (store, response_id, record, ttl_seconds),
            Ok::<RecordWrite, StoreError>(write),
        ),
        call_ensures(ResponseStore::load, (store, response_id), key),
        call_ensures(
            ResponseStore::get_at,
            (store, response_id, reconcile_stale, Some(write.record), now),
            found,
        ),
    ensures
        key@ == write.key@,
        !has_status(*record, "deleted"@) ==> found is Ok,
        !has_status(*record, "deleted"@) && (!reconcile_stale || !has_status(*record, "queued"@))
            ==> (found matches Ok(Reconciliation::Unchanged(answer)) && same(answer, *record)),
        has_status(*record, "deleted"@) ==> found is Err,
{
    if let Ok(Reconciliation::Unchanged(answer)) = found {
        views_tell_records_apart(answer, *record);
    }
}

/// Whether or not a read looks for staleness, it finds the same responses, and as they are, unless
/// one is queued.
pub proof fn reads_agree(
    store: &ResponseStore,
    response_id: &str,
    loaded: Option<StoredResponse>,
    now: i64,
    plain: Result<Reconciliation, StoreError>,
    looking: Result<Reconciliation, StoreError>,
)
    requires
        call_ensures(ResponseStore::get_at, (store, response_id, false, loaded, now), plain),
        call_ensures(ResponseStore::get_at, (store, response_id, true, loaded, now), looking),
    ensures
        plain is Ok <==> looking is Ok,
        loaded is None ==> plain is Err,
        loaded matches Some(record) ==> (plain is Err <==> has_status(record, "deleted"@)),
        plain matches Ok(answer) ==> answer is Unchanged,
        loaded matches Some(record) ==> (plain is Ok && !has_status(record, "queued"@) ==> (
        looking matches Ok(Reconciliation::Unchanged(answer)) && same(answer, record))),
        plain matches Err(StoreError::NotFound(id)) ==> id@ == response_id@,
        looking matches Err(StoreError::NotFound(id)) ==> id@ == response_id@,
        plain matches Err(err) ==> err is NotFound,
        looking matches Err(err) ==> err is NotFound,
{
    if let (Some(record), Ok(Reconciliation::Unchanged(answer))) = (loaded, looking) {
        views_tell_records_apart(answer, record);
    }
}

/// A response that is deleted is not found any more, by any read, and no change gets hold of it.
pub proof fn what_was_deleted_is_gone(
    service: &ResponsesApiStoreService,
    delete: &DeleteResponseRequest,
    record: StoredResponse,
    write: RecordWrite,
    get: &GetResponseRequest,
    now: i64,
    step: Result<ReadStep, Status>,
    change: &Change,
    response_id: &str,
    decision: Decision,
)
    requires
        call_ensures(
            ResponsesApiStoreService::delete_response_loaded,
            (service, delete, Ok::<Option<StoredResponse>, StoreError>(Some(record))),
            Ok::<Deletion, Status>(Deletion::Mark(write)),
        ),
        call_ensures(
            ResponsesApiStoreService::get_response_loaded,
            (service, get, Ok::<Option<StoredResponse>, StoreError>(Some(write.record)), now),
            step,
        ),
        call_ensures(decide, (change, write.record, response_id), decision),
    ensures
        step matches Err(status) && status.code == Code::NotFound,
        !(decision is Write),
        has_status(write.record, "deleted"@),
{
    lemma_names_differ();
    lemma_more_names_differ();
}

/// A response is claimed once: it is then in progress, with its request, and a second claim is
/// refused.
pub proof fn responses_are_claimed_once(
    stored: StoredResponse,
    response_id: &str,
    first: Decision,
    outcome: Outcome,
    second: Decision,
)
    requires
        call_ensures(decide, (&Change::Claim, stored, response_id), first),
        first matches Decision::Write(written) ==> written == outcome,
        call_ensures(decide, (&Change::Claim, outcome.record, response_id), second),
    ensures
        first is Write <==> has_status(stored, "queued"@)
            && stored.pending_upstream_request is Some,
        first is Write ==> {
            &&& has_status(outcome.record, "in_progress"@)
            &&& holds(json_of(outcome.record.response), "id"@, Json::Str(response_id@))
            &&& outcome.payload matches Some(payload) && json_of(payload.pending_upstream_request)
                == json_of(stored.pending_upstream_request->0) && payload.upstream@
                == stored.upstream@
            &&& outcome.record.pending_upstream_request matches Some(kept) && json_of(kept)
                == json_of(stored.pending_upstream_request->0)
            &&& second matches Decision::Refuse(err) && err is FailedPrecondition
        },
        !(first is Write) ==> (first matches Decision::Refuse(err) && err is FailedPrecondition),
{
    lemma_names_differ();
    lemma_more_names_differ();
}

/// A claimed response ends as the worker says: with every object it is completed, and with every
/// message it fails and carries that message.
pub proof fn claimed_responses_end_as_the_worker_says(
    stored: StoredResponse,
    response_id: &str,
    claimed: Outcome,
    response: serde_json::Value,
    completed: Decision,
    message: String,
    failed: Decision,
)
    requires
        call_ensures(
            decide,
            (&Change::Claim, stored, response_id),
            Decision::Write(claimed),
        ),
        call_ensures(
            decide,
            (&Change::Complete(response), claimed.record, response_id),
            completed,
        ),
        call_ensures(decide, (&Change::Fail(message), claimed.record, response_id), failed),
    ensures
        json_of(response) is Object ==> (completed matches Decision::Write(outcome) && has_status(
            outcome.record,
            "completed"@,
        ) && outcome.record.pending_upstream_request is None && (forall|key: Seq<char>|
            key != "id"@ && key != "status"@ && key != "background"@ ==> #[trigger] json_of(
                outcome.record.response,
            ).field(key) == json_of(response).field(key))),
        !(json_of(response) is Object) ==> (completed matches Decision::Refuse(err)
            && err is InvalidArgument),
        failed matches Decision::Write(outcome) && has_status(outcome.record, "failed"@)
            && outcome.record.pending_upstream_request is None && (json_of(
            outcome.record.response,
        ).field("error"@) matches Some(error) && holds(error, "message"@, Json::Str(message@))),
{
    lemma_names_differ();
    lemma_more_names_differ();
}

/// A response that has not been claimed cannot be completed, but a queued one with its request can
/// fail; what is neither queued nor in progress can do neither.
pub proof fn unclaimed_responses_are_not_completed(
    stored: StoredResponse,
    response_id: &str,
    response: serde_json::Value,
    completed: Decision,
    message: String,
    failed: Decision,
)
    requires
        !has_status(stored, "in_progress"@),
        call_ensures(decide, (&Change::Complete(response), stored, response_id), completed),
        call_ensures(decide, (&Change::Fail(message), stored, response_id), failed),
    ensures
        completed matches Decision::Refuse(err) && err is FailedPrecondition,
        has_status(stored, "queued"@) && stored.pending_upstream_request is Some ==> (
        failed matches Decision::Write(outcome) && has_status(outcome.record, "failed"@)),
        !has_status(stored, "queued"@) || stored.pending_upstream_request is None ==> (
        failed matches Decision::Refuse(err) && err is FailedPrecondition),
{
    lemma_names_differ();
    lemma_more_names_differ();
}

/// What has ended stays as it is: no claim, completion, failure or look for staleness changes it.
pub proof fn what_has_ended_stays(
    change: &Change,
    stored: StoredResponse,
    response_id: &str,
    decision: Decision,
)
    requires
        has_status(stored, "completed"@) || has_status(stored, "failed"@) || has_status(
            stored,
            "cancelled"@,
        ) || has_status(stored, "deleted"@),
        call_ensures(decide, (change, stored, response_id), decision),
    ensures
        *change is FailStale ==> (decision matches Decision::Keep(kept) && same(kept, stored)),
        !(*change is FailStale) ==> (decision matches Decision::Refuse(err)
            && err is FailedPrecondition),
{
    lemma_names_differ();
    lemma_more_names_differ();
    if let Decision::Keep(kept) = decision {
        views_tell_records_apart(kept, stored);
    }
}

/// A change that was carried out once is not carried out again: what a completion, a failure or
/// staleness has left is written by no further change.
pub proof fn ends_are_final(
    change: &Change,
    stored: StoredResponse,
    response_id: &str,
    outcome: Outcome,
    later: &Change,
    decision: Decision,
)
    requires
        !(*change is Claim),
        call_ensures(decide, (change, stored, response_id), Decision::Write(outcome)),
        call_ensures(decide, (later, outcome.record, response_id), decision),
    ensures
        !(decision is Write),
        !has_status(outcome.record, "queued"@),
        !has_status(outcome.record, "in_progress"@),
        *change is Complete ==> has_status(outcome.record, "completed"@),
        *change is Fail || *change is FailStale ==> has_status(outcome.record, "failed"@),
{
    lemma_names_differ();
    lemma_more_names_differ();
}

/// A limit that a request sets decides alone: services with different limits of their own do the
/// same with it. A response goes stale exactly at the limit, counted from its start.
pub proof fn requested_limits_decide_alone(
    left: &ResponsesApiStoreService,
    right: &ResponsesApiStoreService,
    request: &ReconcileStaleResponseRequest,
    record: StoredResponse,
    start: i64,
    now: i64,
    left_step: Result<ReconcileStep, Status>,
    right_step: Result<ReconcileStep, Status>,
)
    requires
        request.stale_seconds > 0,
        !has_status(record, "deleted"@),
        record.enqueued_at == Some(start),
        call_ensures(
            ResponsesApiStoreService::reconcile_stale_response_loaded,
            (left, request, Ok::<Option<StoredResponse>, StoreError>(Some(record)), now),
            left_step,
        ),
        call_ensures(
            ResponsesApiStoreService::reconcile_stale_response_loaded,
            (right, request, Ok::<Option<StoredResponse>, StoreError>(Some(record)), now),
            right_step,
        ),
    ensures
        left_step is Ok,
        right_step is Ok,
        left_step->Ok_0 is Reconcile <==> right_step->Ok_0 is Reconcile,
        left_step->Ok_0 is Reconcile <==> has_status(record, "queued"@) && now - start
            >= request.stale_seconds,
        left_step matches Ok(ReconcileStep::Answer(answer)) ==> !answer.reconciled,
        left_step matches Ok(ReconcileStep::Reconcile { transaction, .. }) ==> transaction.change
            == (Change::FailStale { now, stale_seconds: request.stale_seconds }),
{
    lemma_names_differ();
}

/// A request without a limit means the service's own, by which a response goes stale exactly at
/// the limit, counted from its start.
pub proof fn other_requests_mean_the_own_limit(
    service: &ResponsesApiStoreService,
    request: &ReconcileStaleResponseRequest,
    record: StoredResponse,
    start: i64,
    now: i64,
    step: Result<ReconcileStep, Status>,
)
    requires
        request.stale_seconds <= 0,
        service.default_stale_seconds > 0,
        !has_status(record, "deleted"@),
        record.enqueued_at == Some(start),
        call_ensures(
            ResponsesApiStoreService::reconcile_stale_response_loaded,
            (service, request, Ok::<Option<StoredResponse>, StoreError>(Some(record)), now),
            step,
        ),
    ensures
        step is Ok,
        step->Ok_0 is Reconcile <==> has_status(record, "queued"@) && now - start
            >= service.default_stale_seconds,
        step matches Ok(ReconcileStep::Reconcile { transaction, .. }) ==> transaction.change
            == (Change::FailStale { now, stale_seconds: service.default_stale_seconds }),
{
    lemma_names_differ();
}

/// What is to fail for staleness does fail, if it has not changed by the time that the transaction
/// reads it.
pub proof fn stale_responses_fail(
    store: &ResponseStore,
    response_id: &str,
    stored: StoredResponse,
    stale_seconds: i64,
    now: i64,
    transaction: Transaction,
    decision: Decision,
)
    requires
        call_ensures(
            ResponseStore::reconcile_stale_response_at,
            (store, response_id, stored, stale_seconds, now),
            Reconciliation::Stale(transaction),
        ),
        call_ensures(decide, (&transaction.change, stored, response_id), decision),
    ensures
        decision matches Decision::Write(outcome) && has_status(outcome.record, "failed"@) && (
        json_of(outcome.record.response).field("error"@) matches Some(error) && holds(
            error,
            "message"@,
            Json::Str("background response stale"@),
        )),
{
    lemma_names_differ();
    lemma_more_names_differ();
}

/// A job that was enqueued is loaded for the worker under the key under which it was stored, and
/// its waiting time counts from its enqueuing.
pub proof fn enqueued_jobs_are_loaded(
    service: &ResponsesApiStoreService,
    request: &EnqueueBackgroundJobRequest,
    now: i64,
    write: RecordWrite,
    append: StreamAppend,
    named: &str,
    key: String,
)
    requires
        call_ensures(
            ResponsesApiStoreService::enqueue_background_job,
            (service, request, now),
            Ok::<(RecordWrite, StreamAppend), Status>((write, append)),
        ),
        named@ == append.value@,
        call_ensures(ResponseStore::load, (&service.store, named), key),
    ensures
        key@ == write.key@,
        write.record.enqueued_at == Some(now),
        append.key@ == service.queue.stream_key@,
{
}

/// The statistics of a group follow what Redis reports: with the same lag what waits is the same,
/// and one more entry that waits, or is in progress, is one more in the statistics.
pub proof fn statistics_follow_the_group(
    name: &str,
    group: &GroupInfo,
    busier: &GroupInfo,
    stats: Result<BackgroundQueueStats, StoreError>,
    more: Result<BackgroundQueueStats, StoreError>,
)
    requires
        call_ensures(stats_from_group, (name, group), stats),
        call_ensures(stats_from_group, (name, busier), more),
        group.lag is Some,
        busier.lag is Some,
    ensures
        stats is Ok,
        more is Ok,
        stats->Ok_0.pending == group.lag->0,
        stats->Ok_0.in_progress == group.pending,
        more->Ok_0.pending - stats->Ok_0.pending == busier.lag->0 - group.lag->0,
        more->Ok_0.in_progress - stats->Ok_0.in_progress == busier.pending - group.pending,
        group.lag->0 + group.pending <= u64::MAX ==> stats->Ok_0.workload == group.lag->0
            + group.pending,
        group.lag->0 + group.pending > u64::MAX ==> stats->Ok_0.workload == u64::MAX,
{
}

/// Whether a claim has not come to anything yet.
pub open spec fn is_fresh(run: ClaimRun) -> bool {
    &&& run.batch.jobs@.len() == 0
    &&& run.batch.pending_jobs@.len() == 0
    &&& run.batch.pending_stream_ids@.len() == 0
}

/// A worker that asks for one job gets the entry that another worker has left idle, whatever the
/// status of its response, with the record that was loaded, as one that was taken over and was idle
/// for the time that the worker asked for. The entry is not acknowledged.
pub proof fn idle_jobs_reach_the_next_worker(
    run: ClaimRun,
    cursor: String,
    entries: Vec<StreamEntry>,
    response_id: String,
    loading: (ClaimRun, ClaimAction),
    record: StoredResponse,
    finished: (ClaimRun, ClaimAction),
)
    requires
        run.phase is Autoclaiming,
        is_fresh(run),
        run.options.count == 1,
        entries@.len() == 1,
        entries@[0].response_id == Some(response_id),
        call_ensures(
            ClaimRun::step,
            (run, ClaimEvent::Autoclaimed(Ok((cursor, entries)))),
            loading,
        ),
        call_ensures(
            ClaimRun::step,
            (loading.0, ClaimEvent::Loaded(Ok(Some(record)))),
            finished,
        ),
    ensures
        loading.1 matches ClaimAction::Load { response_id: wanted } && wanted@ == response_id@,
        finished.1 matches ClaimAction::Finish(Ok(batch)) && {
            &&& batch.jobs@.len() == 1
            &&& batch.pending_jobs@.len() == 0
            &&& batch.pending_stream_ids@.len() == 0
            &&& batch.jobs@[0].stream_id@ == entries@[0].id@
            &&& batch.jobs@[0].response_id@ == response_id@
            &&& same(batch.jobs@[0].record, record)
            &&& batch.jobs@[0].autoclaimed
            &&& batch.jobs@[0].idle_ms == Some(run.options.autoclaim_min_idle_ms as u64)
        },
        finished.0.cursor@ == cursor@,
{
    let all = entries_of(entries@);
    assert(all.drop_last() == Seq::<EntryView>::empty());
    assert(all.last() == entries@[0]@);
    reveal_with_fuel(candidates_in, 2);
    let candidates = candidates_in(all);
    assert(candidates.len() == 1);
    assert(run@.batch == BatchView::empty()) by {
        views_tell_batches_apart(run.batch, 0);
        assert(run@.batch.jobs =~= Seq::empty());
        assert(run@.batch.pending_jobs =~= Seq::empty());
        assert(run@.batch.pending_stream_ids =~= Seq::empty());
    }
    if let ClaimAction::Finish(Ok(batch)) = finished.1 {
        views_tell_batches_apart(batch, 0);
        views_tell_records_apart(batch.jobs@[0].record, record);
    }
}

/// A worker that asks for one job gets a new entry likewise, as one that was not taken over.
pub proof fn new_jobs_reach_the_worker(
    run: ClaimRun,
    page: (String, Vec<StreamEntry>),
    pages: Vec<(String, Vec<StreamEntry>)>,
    response_id: String,
    loading: (ClaimRun, ClaimAction),
    record: StoredResponse,
    finished: (ClaimRun, ClaimAction),
)
    requires
        run.phase is Reading,
        is_fresh(run),
        pages@ == seq![page],
        page.0@ == run.stream_key@,
        page.1@.len() == 1,
        page.1@[0].response_id == Some(response_id),
        call_ensures(ClaimRun::step, (run, ClaimEvent::Read(Ok(pages))), loading),
        call_ensures(
            ClaimRun::step,
            (loading.0, ClaimEvent::Loaded(Ok(Some(record)))),
            finished,
        ),
    ensures
        loading.1 matches ClaimAction::Load { response_id: wanted } && wanted@ == response_id@,
        finished.1 matches ClaimAction::Finish(Ok(batch)) && {
            &&& batch.jobs@.len() == 1
            &&& batch.pending_jobs@.len() == 0
            &&& batch.jobs@[0].stream_id@ == page.1@[0].id@
            &&& batch.jobs@[0].response_id@ == response_id@
            &&& same(batch.jobs@[0].record, record)
            &&& !batch.jobs@[0].autoclaimed
            &&& batch.jobs@[0].idle_ms is None
        },
{
    let all = entries_of(page.1@);
    assert(pages_of(pages@)[0] == (page.0@, all));
    assert(all.drop_last() == Seq::<EntryView>::empty());
    assert(all.last() == page.1@[0]@);
    reveal_with_fuel(candidates_in, 2);
    assert(candidates_in(all).len() == 1);
    assert(run@.batch == BatchView::empty()) by {
        views_tell_batches_apart(run.batch, 0);
        assert(run@.batch.jobs =~= Seq::empty());
        assert(run@.batch.pending_jobs =~= Seq::empty());
        assert(run@.batch.pending_stream_ids =~= Seq::empty());
    }
    if let ClaimAction::Finish(Ok(batch)) = finished.1 {
        views_tell_batches_apart(batch, 0);
        views_tell_records_apart(batch.jobs@[0].record, record);
    }
}

} // verus!

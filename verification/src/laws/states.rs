//! Laws on stored responses: their states, their keys, and the time that they wait.

use vstd::prelude::*;

use super::documents::{alike_documents_are_the_same, holds, lemma_more_names_differ};
use crate::json::{document_option, documents_of, json_of, Json, MAX_DEPTH};
use crate::model::{
    autoclaim_cursor_key, copy_value_option, copy_values, generate_response_id,
    is_claimable_background, is_deleted_tombstone, is_in_flight_background,
    is_in_progress_background, is_stale_enqueued, is_terminal_background_status,
    response_id_from_uuid, response_store_key, same_record, should_reconcile_stale,
    stored_response_status, unix_seconds, BackgroundJob, PendingBackgroundJob, StoredResponse,
};
use crate::model::{lemma_names_differ, records_alike, records_alike_is_reflexive};
use crate::text::text_option;

verus! {

/// Whether the response of a record is an object whose `status` is this text.
pub open spec fn has_status(record: StoredResponse, status: Seq<char>) -> bool {
    holds(json_of(record.response), "status"@, Json::Str(status))
}

/// Whether a record waits for a worker, with the request for it at hand.
pub open spec fn can_be_claimed(record: StoredResponse) -> bool {
    has_status(record, "queued"@) && record.pending_upstream_request is Some
}

/// Whether the response has come to an end: it is completed, failed, cancelled or deleted.
pub open spec fn has_ended(record: StoredResponse) -> bool {
    has_status(record, "completed"@) || has_status(record, "failed"@) || has_status(
        record,
        "cancelled"@,
    ) || has_status(record, "deleted"@)
}

/// Whether something enqueued at a known time has waited for `limit` seconds at the time `now`.
/// The smallest limit of all is always reached.
pub open spec fn has_waited(enqueued_at: Option<i64>, now: i64, limit: i64) -> bool {
    enqueued_at matches Some(start) && (now - start >= limit || limit == i64::MIN)
}

/// Whether two records hold the same.
pub open spec fn same(left: StoredResponse, right: StoredResponse) -> bool {
    &&& left.upstream@ == right.upstream@
    &&& json_of(left.response) == json_of(right.response)
    &&& left.input@.len() == right.input@.len()
    &&& forall|i: int|
        0 <= i < left.input@.len() ==> json_of(#[trigger] left.input@[i]) == json_of(
            right.input@[i],
        )
    &&& match (left.pending_upstream_request, right.pending_upstream_request) {
        (Some(left), Some(right)) => json_of(left) == json_of(right),
        (None, None) => true,
        _ => false,
    }
    &&& match (left.upstream_authorization, right.upstream_authorization) {
        (Some(left), Some(right)) => left@ == right@,
        (None, None) => true,
        _ => false,
    }
    &&& left.enqueued_at == right.enqueued_at
}

/// Whether two records agree on all that is known of the request: the upstream, the input and the
/// time of the enqueuing.
pub open spec fn same_request(left: StoredResponse, right: StoredResponse) -> bool {
    &&& left.upstream@ == right.upstream@
    &&& left.input@.len() == right.input@.len()
    &&& forall|i: int|
        0 <= i < left.input@.len() ==> json_of(#[trigger] left.input@[i]) == json_of(
            right.input@[i],
        )
    &&& left.enqueued_at == right.enqueued_at
}

/// A record's view tells all that the record holds: records of the same view hold the same.
pub proof fn views_tell_records_apart(left: StoredResponse, right: StoredResponse)
    ensures
        left@ == right@ <==> same(left, right),
{
    let lefts = documents_of(left.input@);
    let rights = documents_of(right.input@);
    if left@ == right@ {
        assert(lefts.len() == left.input@.len());
        assert(rights.len() == right.input@.len());
        assert forall|i: int| 0 <= i < left.input@.len() implies json_of(
            #[trigger] left.input@[i],
        ) == json_of(right.input@[i]) by {
            assert(lefts[i] == rights[i]);
        }
    }
    if same(left, right) {
        assert(lefts == rights);
        assert(left@ == right@);
    }
}

/// A job's view tells all that the job holds.
pub proof fn views_tell_jobs_apart(left: BackgroundJob, right: BackgroundJob)
    ensures
        left@ == right@ <==> {
            &&& left.stream_id@ == right.stream_id@
            &&& left.response_id@ == right.response_id@
            &&& same(left.record, right.record)
            &&& left.autoclaimed == right.autoclaimed
            &&& left.idle_ms == right.idle_ms
        },
{
    views_tell_records_apart(left.record, right.record);
}

/// A pending job's view tells all that the job holds.
pub proof fn views_tell_pending_jobs_apart(left: PendingBackgroundJob, right: PendingBackgroundJob)
    ensures
        left@ == right@ <==> {
            &&& left.stream_id@ == right.stream_id@
            &&& left.response_id@ == right.response_id@
            &&& left.autoclaimed == right.autoclaimed
            &&& left.idle_ms == right.idle_ms
        },
{
}

/// Whether all documents of a record are plain, up to the nesting that can be read.
pub open spec fn is_plain(record: StoredResponse) -> bool {
    &&& json_of(record.response).is_plain(127)
    &&& forall|i: int|
        0 <= i < record.input@.len() ==> json_of(#[trigger] record.input@[i]).is_plain(127)
    &&& record.pending_upstream_request matches Some(request) ==> json_of(request).is_plain(127)
}

/// The library's notion of a plain record is this one.
pub(crate) proof fn lemma_plain(record: StoredResponse)
    ensures
        record@.is_plain() <==> is_plain(record),
{
    let documents = documents_of(record.input@);
    assert(documents.len() == record.input@.len());
    if is_plain(record) {
        assert forall|i: int| 0 <= i < documents.len() implies (#[trigger] documents[i]).is_plain(
            127,
        ) by {
            assert(documents[i] == json_of(record.input@[i]));
        }
    }
    if record@.is_plain() {
        assert forall|i: int| 0 <= i < record.input@.len() implies json_of(
            #[trigger] record.input@[i],
        ).is_plain(127) by {
            assert(record@.input[i] == json_of(record.input@[i]));
        }
    }
}

/// Copies of jobs hold what the jobs hold.
pub proof fn copied_jobs_hold_the_same(
    job: &BackgroundJob,
    copy: BackgroundJob,
    pending: &PendingBackgroundJob,
    pending_copy: PendingBackgroundJob,
)
    requires
        call_ensures(BackgroundJob::clone, (job,), copy),
        call_ensures(PendingBackgroundJob::clone, (pending,), pending_copy),
    ensures
        copy.stream_id@ == job.stream_id@,
        copy.response_id@ == job.response_id@,
        same(copy.record, job.record),
        copy.autoclaimed == job.autoclaimed,
        copy.idle_ms == job.idle_ms,
        pending_copy.stream_id@ == pending.stream_id@,
        pending_copy.response_id@ == pending.response_id@,
        pending_copy.autoclaimed == pending.autoclaimed,
        pending_copy.idle_ms == pending.idle_ms,
{
    views_tell_jobs_apart(copy, *job);
    views_tell_pending_jobs_apart(pending_copy, *pending);
}

/// A copy of a record holds what the record holds.
pub proof fn copies_hold_the_same(record: &StoredResponse, copy: StoredResponse)
    requires
        call_ensures(StoredResponse::clone, (record,), copy),
    ensures
        same(*record, copy),
{
    views_tell_records_apart(*record, copy);
}

/// A copy of a list of values has as many, each holding the same document.
pub proof fn copied_values_hold_the_same(
    values: &Vec<serde_json::Value>,
    copies: Vec<serde_json::Value>,
    at: int,
)
    requires
        call_ensures(copy_values, (values,), copies),
    ensures
        copies@.len() == values@.len(),
        0 <= at < values@.len() ==> json_of(copies@[at]) == json_of(values@[at]),
{
    assert(documents_of(copies@).len() == documents_of(values@).len());
    if 0 <= at < values@.len() {
        assert(documents_of(copies@)[at] == documents_of(values@)[at]);
    }
}

/// A copy of a value that may be absent is there where the value is, and holds the same document.
pub proof fn copied_options_hold_the_same(
    value: &Option<serde_json::Value>,
    copy: Option<serde_json::Value>,
)
    requires
        call_ensures(copy_value_option, (value,), copy),
    ensures
        copy is Some <==> *value is Some,
        copy is Some ==> json_of(copy->0) == json_of((*value)->0),
{
}

/// The status of a record is the text in the field `status` of its response, and there is none
/// where there is no such text.
pub proof fn statuses_are_told(
    stored: &StoredResponse,
    status: Option<&str>,
    text: Seq<char>,
)
    requires
        call_ensures(stored_response_status, (stored,), status),
    ensures
        has_status(*stored, text) <==> (status matches Some(found) && found@ == text),
{
}

/// A record marks a deletion exactly if its status is `deleted`.
pub proof fn deletions_are_told(stored: &StoredResponse, answer: bool)
    requires
        call_ensures(is_deleted_tombstone, (stored,), answer),
    ensures
        answer <==> has_status(*stored, "deleted"@),
{
}

/// A job is in flight exactly if its request is still there or its status is `queued` or
/// `in_progress`.
pub proof fn flights_are_told(stored: &StoredResponse, answer: bool)
    requires
        call_ensures(is_in_flight_background, (stored,), answer),
    ensures
        stored.pending_upstream_request is Some ==> answer,
        has_status(*stored, "queued"@) ==> answer,
        has_status(*stored, "in_progress"@) ==> answer,
        answer ==> stored.pending_upstream_request is Some || has_status(*stored, "queued"@)
            || has_status(*stored, "in_progress"@),
{
}

/// A response is in progress exactly if its status says so.
pub proof fn progress_is_told(stored: &StoredResponse, answer: bool)
    requires
        call_ensures(is_in_progress_background, (stored,), answer),
    ensures
        answer <==> has_status(*stored, "in_progress"@),
{
}

/// A worker may start on a response exactly if it is queued and its request is there.
pub proof fn claims_are_told(stored: &StoredResponse, answer: bool)
    requires
        call_ensures(is_claimable_background, (stored,), answer),
    ensures
        answer <==> can_be_claimed(*stored),
{
}

/// A response has come to an end exactly if it is completed, failed, cancelled or deleted.
pub proof fn ends_are_told(stored: &StoredResponse, answer: bool)
    requires
        call_ensures(is_terminal_background_status, (stored,), answer),
    ensures
        answer <==> has_ended(*stored),
{
}

/// Exactly the queued responses can go stale.
pub proof fn waiting_is_told(stored: &StoredResponse, answer: bool)
    requires
        call_ensures(should_reconcile_stale, (stored,), answer),
    ensures
        answer <==> has_status(*stored, "queued"@),
{
}

/// No record has two statuses.
pub proof fn statuses_exclude_each_other(
    record: StoredResponse,
    left: Seq<char>,
    right: Seq<char>,
)
    ensures
        has_status(record, left) && has_status(record, right) ==> left == right,
        has_ended(record) ==> !can_be_claimed(record) && !has_status(record, "in_progress"@)
            && !has_status(record, "queued"@),
        has_status(record, "in_progress"@) ==> !can_be_claimed(record),
{
    lemma_names_differ();
    lemma_more_names_differ();
}

/// A response goes stale once it has waited for the limit: not before, not without a known start,
/// and the time since its start decides, whatever the clock shows.
pub proof fn staleness_is_told(
    enqueued_at: Option<i64>,
    now: i64,
    stale_seconds: i64,
    answer: bool,
)
    requires
        call_ensures(is_stale_enqueued, (enqueued_at, now, stale_seconds), answer),
    ensures
        answer <==> has_waited(enqueued_at, now, stale_seconds),
{
}

/// The clock's seconds are kept as they are up to the largest signed number; beyond it they wrap
/// around, and a clock before the epoch shows zero.
pub proof fn clock_readings_are_kept(reading: Option<u64>, now: i64)
    requires
        call_ensures(unix_seconds, (reading,), now),
    ensures
        reading is None ==> now == 0,
        reading matches Some(seconds) ==> (now >= 0 <==> seconds <= i64::MAX),
        reading matches Some(seconds) ==> (now == seconds || now + u64::MAX + 1 == seconds),
{
}

/// The key of a response is the prefix, a colon and the ID.
pub proof fn store_keys_name_the_response(prefix: &str, response_id: &str, key: String)
    requires
        call_ensures(response_store_key, (prefix, response_id), key),
    ensures
        key@ == prefix@.push(':') + response_id@,
{
    reveal_strlit(":");
    assert(prefix@ + ":"@ == prefix@.push(':'));
}

/// The key of a group's cursor is made of the stream's key and the group's name.
pub proof fn cursor_keys_name_the_group(stream_key: &str, consumer_group: &str, key: String)
    requires
        call_ensures(autoclaim_cursor_key, (stream_key, consumer_group), key),
    ensures
        key@ == stream_key@ + ":meta:autoclaim:"@ + consumer_group@,
{
}

/// A response ID is `resp_` followed by the UUID.
pub proof fn response_ids_carry_the_uuid(uuid: &str, id: String)
    requires
        call_ensures(response_id_from_uuid, (uuid,), id),
    ensures
        id@.len() == uuid@.len() + 5,
        id@.take(5) == seq!['r', 'e', 's', 'p', '_'],
        id@.skip(5) == uuid@,
{
    reveal_strlit("resp_");
    assert("resp_"@ == seq!['r', 'e', 's', 'p', '_']);
    assert(id@.take(5) == "resp_"@);
    assert(id@.skip(5) == uuid@);
}

/// A response ID that is made at random is `resp_` with 32 hexadecimal digits of a UUID of
/// version 4.
pub proof fn random_ids_are_response_ids(id: String, at: int)
    requires
        call_ensures(generate_response_id, (), id),
    ensures
        id@.len() == 37,
        id@.take(5) == seq!['r', 'e', 's', 'p', '_'],
        5 <= at < 37 ==> ('0' <= id@[at] <= '9' || 'a' <= id@[at] <= 'f'),
        id@[17] == '4',
        id@[21] == '8' || id@[21] == '9' || id@[21] == 'a' || id@[21] == 'b',
{
    reveal_strlit("resp_");
    assert("resp_"@ == seq!['r', 'e', 's', 'p', '_']);
    let uuid = id@.skip(5);
    assert(id@.take(5) == id@.subrange(0, 5));
    assert(uuid[12] == id@[17]);
    assert(uuid[16] == id@[21]);
    if 5 <= at < 37 {
        assert(uuid[at - 5] == id@[at]);
    }
}

/// Records that hold the same are equal. Records that differ are not, as far as their numbers are
/// whole.
pub proof fn equality_is_told(left: &StoredResponse, right: &StoredResponse, answer: bool)
    requires
        call_ensures(same_record, (left, right), answer),
    ensures
        same(*left, *right) ==> answer,
        answer && is_plain(*left) ==> same(*left, *right),
        left.upstream@ != right.upstream@ ==> !answer,
        left.enqueued_at != right.enqueued_at ==> !answer,
        left.input@.len() != right.input@.len() ==> !answer,
        text_option(left.upstream_authorization) != text_option(right.upstream_authorization)
            ==> !answer,
        left.pending_upstream_request is Some != right.pending_upstream_request is Some ==> !answer,
{
    views_tell_records_apart(*left, *right);
    records_alike_is_reflexive(left@);
    lemma_plain(*left);
    if answer && is_plain(*left) {
        let l = left@;
        let r = right@;
        let depth = MAX_DEPTH as nat;
        assert(records_alike(l, r));
        alike_documents_are_the_same(l.response, r.response, depth);
        assert forall|i: int| 0 <= i < l.input.len() implies l.input[i] == r.input[i] by {
            alike_documents_are_the_same(l.input[i], r.input[i], depth);
        }
        assert(l.input == r.input);
        if let (Some(a), Some(b)) = (l.pending_upstream_request, r.pending_upstream_request) {
            alike_documents_are_the_same(a, b, depth);
        }
        assert(l == r);
    }
    assert(documents_of(left.input@).len() == left.input@.len());
    assert(documents_of(right.input@).len() == right.input@.len());
    assert(document_option(left.pending_upstream_request) is Some
        == left.pending_upstream_request is Some);
}

} // verus!

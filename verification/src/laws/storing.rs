//! Laws on the store: what is written, under which key and for how long, and what a read answers.

use vstd::prelude::*;

use super::documents::{lemma_more_names_differ, marks_deletion};
use super::states::{has_status, has_waited, same, same_request, views_tell_records_apart};
use crate::error::StoreError;
use crate::json::{documents_of, json_of};
use crate::model::{lemma_names_differ, StoredResponse};
use crate::store::{
    opened_client, reconcile_write_ttl, ClaimBackgroundPayload, RecordWrite, Reconciliation,
    ResponseStore,
};
use crate::text::text_option;
use crate::transaction::{record_option, Change, Transaction};

verus! {

/// The key of a response in a store: the prefix, a colon and the ID.
pub open spec fn key_in(store: ResponseStore, response_id: Seq<char>) -> Seq<char> {
    store.key_prefix@.push(':') + response_id
}

/// The library's notion of a key is this one.
pub(crate) proof fn lemma_key_in(store: ResponseStore, response_id: Seq<char>)
    ensures
        store.key_of(response_id) == key_in(store, response_id),
{
    reveal_strlit(":");
    assert(store.key_prefix@ + ":"@ == store.key_prefix@.push(':'));
}

/// Whether there is no response: nothing was loaded, or what was loaded marks a deletion.
pub open spec fn is_missing(loaded: Option<StoredResponse>) -> bool {
    loaded is None || has_status(loaded->0, "deleted"@)
}

/// Whether a transaction is the first try to let a response fail that has waited for
/// `stale_seconds` at the time `now`.
pub open spec fn fails_stale(
    transaction: Transaction,
    store: ResponseStore,
    response_id: Seq<char>,
    now: i64,
    stale_seconds: i64,
) -> bool {
    &&& transaction.key@ == key_in(store, response_id)
    &&& transaction.response_id@ == response_id
    &&& transaction.change == (Change::FailStale { now, stale_seconds })
    &&& transaction.default_ttl_seconds == store.default_ttl_seconds
    &&& transaction.attempt == 0
    &&& transaction.phase is Discarding
}

/// The key under which a response is written, read and deleted names it.
pub proof fn keys_name_the_response(store: &ResponseStore, response_id: &str, key: String)
    requires
        call_ensures(ResponseStore::key, (store, response_id), key) || call_ensures(
            ResponseStore::load,
            (store, response_id),
            key,
        ) || call_ensures(ResponseStore::delete, (store, response_id), key),
    ensures
        key@ == key_in(*store, response_id@),
{
    lemma_key_in(*store, response_id@);
}

/// Whether a write puts this record under the key of the response, with that lifetime.
pub open spec fn writes(
    write: RecordWrite,
    store: ResponseStore,
    response_id: Seq<char>,
    record: StoredResponse,
    ttl_seconds: u64,
) -> bool {
    &&& write.key@ == key_in(store, response_id)
    &&& write.ttl_seconds == ttl_seconds
    &&& same(write.record, record)
}

/// A record is stored as it is, under its own key, with the lifetime that was asked for or else the
/// default one. A lifetime of zero is refused, and nothing else is.
pub proof fn records_are_stored_as_they_are(
    store: &ResponseStore,
    response_id: &str,
    record: &StoredResponse,
    ttl_seconds: Option<u64>,
    write: Result<RecordWrite, StoreError>,
)
    requires
        call_ensures(ResponseStore::store, (store, response_id, record, ttl_seconds), write),
    ensures
        ({
            let lifetime = if ttl_seconds is Some { ttl_seconds->0 } else { store.default_ttl_seconds };
            match write {
                Ok(write) => lifetime > 0 && writes(
                    write,
                    *store,
                    response_id@,
                    *record,
                    lifetime,
                ),
                Err(err) => lifetime == 0 && (err matches StoreError::InvalidArgument(message)
                    && message@ == "ttl_seconds must be greater than 0"@),
            }
        }),
{
    lemma_key_in(*store, response_id@);
    if let Ok(write) = write {
        views_tell_records_apart(write.record, *record);
    }
}

/// A response is replaced only where there is one: what is missing is not found, and else the new
/// record is stored as any other.
pub proof fn only_what_is_there_is_replaced(
    store: &ResponseStore,
    response_id: &str,
    record: &StoredResponse,
    ttl_seconds: Option<u64>,
    existing: &Option<StoredResponse>,
    write: Result<RecordWrite, StoreError>,
)
    requires
        call_ensures(
            ResponseStore::update,
            (store, response_id, record, ttl_seconds, existing),
            write,
        ),
    ensures
        write matches Err(StoreError::NotFound(id)) ==> id@ == response_id@,
        write matches Err(StoreError::NotFound(_)) <==> is_missing(*existing),
        !is_missing(*existing) ==> ({
            let lifetime = if ttl_seconds is Some { ttl_seconds->0 } else { store.default_ttl_seconds };
            match write {
                Ok(write) => lifetime > 0 && writes(
                    write,
                    *store,
                    response_id@,
                    *record,
                    lifetime,
                ),
                Err(err) => lifetime == 0 && (err matches StoreError::InvalidArgument(message)
                    && message@ == "ttl_seconds must be greater than 0"@),
            }
        }),
{
    lemma_key_in(*store, response_id@);
    if let Ok(write) = write {
        views_tell_records_apart(write.record, *record);
    }
}

/// A read finds a response exactly if there is one, whether or not it looks for staleness. What it
/// finds is answered as it is, unless the read looks for staleness and the response is queued and
/// has waited for the store's limit: then it is to fail.
pub proof fn reads_find_what_is_there(
    store: &ResponseStore,
    response_id: &str,
    reconcile_stale: bool,
    loaded: Option<StoredResponse>,
    now: i64,
    found: Result<Reconciliation, StoreError>,
)
    requires
        call_ensures(
            ResponseStore::get_at,
            (store, response_id, reconcile_stale, loaded, now),
            found,
        ),
    ensures
        found is Err <==> is_missing(loaded),
        found matches Err(err) ==> (err matches StoreError::NotFound(id) && id@ == response_id@),
        found matches Ok(Reconciliation::Unchanged(record)) ==> same(record, loaded->0),
        !is_missing(loaded) ==> (found matches Ok(Reconciliation::Stale(_)) <==> reconcile_stale
            && has_status(loaded->0, "queued"@) && has_waited(
            loaded->0.enqueued_at,
            now,
            store.stale_seconds,
        )),
        found matches Ok(Reconciliation::Stale(transaction)) ==> fails_stale(
            transaction,
            *store,
            response_id@,
            now,
            store.stale_seconds,
        ),
{
    lemma_key_in(*store, response_id@);
    lemma_names_differ();
    if let Ok(Reconciliation::Unchanged(record)) = found {
        views_tell_records_apart(record, loaded->0);
    }
}

/// A read by the clock finds a response exactly if there is one. A response that is not queued, or
/// whose start is not known, is answered as it is, and so is every one where the read does not look
/// for staleness.
pub proof fn reads_by_the_clock_find_what_is_there(
    store: &ResponseStore,
    response_id: &str,
    reconcile_stale: bool,
    loaded: Option<StoredResponse>,
    found: Result<Reconciliation, StoreError>,
)
    requires
        call_ensures(ResponseStore::get, (store, response_id, reconcile_stale, loaded), found),
    ensures
        found is Err <==> is_missing(loaded),
        found matches Err(err) ==> (err matches StoreError::NotFound(id) && id@ == response_id@),
        found matches Ok(Reconciliation::Unchanged(record)) ==> same(record, loaded->0),
        found matches Ok(Reconciliation::Stale(transaction)) ==> {
            &&& reconcile_stale
            &&& has_status(loaded->0, "queued"@)
            &&& exists|now: i64|
                has_waited(loaded->0.enqueued_at, now, store.stale_seconds) && #[trigger] fails_stale(
                    transaction,
                    *store,
                    response_id@,
                    now,
                    store.stale_seconds,
                )
        },
{
    lemma_key_in(*store, response_id@);
    lemma_names_differ();
    let now = choose|now: i64|
        crate::store::reconciliation_result(found) == #[trigger] store.looked_up(
            response_id@,
            reconcile_stale,
            record_option(loaded),
            now,
        );
    if let Ok(Reconciliation::Unchanged(record)) = found {
        views_tell_records_apart(record, loaded->0);
    }
    if let Ok(Reconciliation::Stale(transaction)) = found {
        assert(fails_stale(transaction, *store, response_id@, now, store.stale_seconds));
    }
}

/// A response is to fail for staleness exactly if it is queued and has waited for the limit that
/// the caller gives, whatever the store's own limit is; else it stays as it is.
pub proof fn only_the_given_limit_decides(
    store: &ResponseStore,
    response_id: &str,
    stored: StoredResponse,
    stale_seconds: i64,
    now: i64,
    reconciliation: Reconciliation,
)
    requires
        call_ensures(
            ResponseStore::reconcile_stale_response_at,
            (store, response_id, stored, stale_seconds, now),
            reconciliation,
        ),
    ensures
        reconciliation is Stale <==> has_status(stored, "queued"@) && has_waited(
            stored.enqueued_at,
            now,
            stale_seconds,
        ),
        reconciliation matches Reconciliation::Unchanged(record) ==> same(record, stored),
        reconciliation matches Reconciliation::Stale(transaction) ==> fails_stale(
            transaction,
            *store,
            response_id@,
            now,
            stale_seconds,
        ),
{
    lemma_key_in(*store, response_id@);
    if let Reconciliation::Unchanged(record) = reconciliation {
        views_tell_records_apart(record, stored);
    }
}

/// By the clock, too, only a queued response with a known start is to fail for staleness, and by
/// the limit that the caller gives.
pub proof fn only_the_given_limit_decides_by_the_clock(
    store: &ResponseStore,
    response_id: &str,
    stored: StoredResponse,
    stale_seconds: i64,
    reconciliation: Reconciliation,
)
    requires
        call_ensures(
            ResponseStore::reconcile_stale_response,
            (store, response_id, stored, stale_seconds),
            reconciliation,
        ),
    ensures
        reconciliation matches Reconciliation::Unchanged(record) ==> same(record, stored),
        reconciliation matches Reconciliation::Stale(transaction) ==> has_status(stored, "queued"@)
            && exists|now: i64|
            has_waited(stored.enqueued_at, now, stale_seconds) && #[trigger] fails_stale(
                transaction,
                *store,
                response_id@,
                now,
                stale_seconds,
            ),
{
    lemma_key_in(*store, response_id@);
    let now = choose|now: i64|
        reconciliation@ == #[trigger] store.reconciled(response_id@, stored@, stale_seconds, now);
    if let Reconciliation::Unchanged(record) = reconciliation {
        views_tell_records_apart(record, stored);
    }
    if let Reconciliation::Stale(transaction) = reconciliation {
        assert(fails_stale(transaction, *store, response_id@, now, stale_seconds));
    }
}

/// Whether a transaction is the first try of a change of that response.
pub open spec fn starts(
    transaction: Transaction,
    store: ResponseStore,
    response_id: Seq<char>,
) -> bool {
    &&& transaction.key@ == key_in(store, response_id)
    &&& transaction.response_id@ == response_id
    &&& transaction.default_ttl_seconds == store.default_ttl_seconds
    &&& transaction.attempt == 0
    &&& transaction.phase is Discarding
}

/// A worker's claim of a response starts a claim of that response.
pub proof fn claims_start_as_claims(
    store: &ResponseStore,
    response_id: &str,
    transaction: Transaction,
)
    requires
        call_ensures(
            ResponseStore::claim_background_response,
            (store, response_id),
            transaction,
        ),
    ensures
        starts(transaction, *store, response_id@),
        transaction.change is Claim,
{
    lemma_key_in(*store, response_id@);
}

/// A worker's result starts a completion of that response with that result.
pub proof fn completions_start_with_the_result(
    store: &ResponseStore,
    response_id: &str,
    completed_response: serde_json::Value,
    transaction: Transaction,
)
    requires
        call_ensures(
            ResponseStore::complete_background_response,
            (store, response_id, completed_response),
            transaction,
        ),
    ensures
        starts(transaction, *store, response_id@),
        transaction.change matches Change::Complete(response) && json_of(response) == json_of(
            completed_response,
        ),
{
    lemma_key_in(*store, response_id@);
}

/// A worker's failure starts a failure of that response with that message.
pub proof fn failures_start_with_the_message(
    store: &ResponseStore,
    response_id: &str,
    error_message: &str,
    transaction: Transaction,
)
    requires
        call_ensures(
            ResponseStore::fail_background_response,
            (store, response_id, error_message),
            transaction,
        ),
    ensures
        starts(transaction, *store, response_id@),
        transaction.change matches Change::Fail(message) && message@ == error_message@,
{
    lemma_key_in(*store, response_id@);
}

/// What is written in place of a deleted response whose job is in flight marks the deletion under
/// the key of the response, keeps what is known of the request, and holds nothing that a worker
/// could use. It is refused only where the store's lifetime is zero.
pub proof fn deletions_leave_a_mark(
    store: &ResponseStore,
    response_id: &str,
    stored: &StoredResponse,
    write: Result<RecordWrite, StoreError>,
)
    requires
        call_ensures(
            ResponseStore::tombstone_deleted_background,
            (store, response_id, stored),
            write,
        ),
    ensures
        match write {
            Ok(write) => {
                &&& store.default_ttl_seconds > 0
                &&& write.key@ == key_in(*store, response_id@)
                &&& write.ttl_seconds == store.default_ttl_seconds
                &&& marks_deletion(json_of(write.record.response), response_id@)
                &&& write.record.pending_upstream_request is None
                &&& write.record.upstream_authorization is None
                &&& same_request(write.record, *stored)
            },
            Err(err) => store.default_ttl_seconds == 0 && err is InvalidArgument,
        },
{
    lemma_key_in(*store, response_id@);
    lemma_names_differ();
    lemma_more_names_differ();
    if let Ok(write) = write {
        lemma_same_request(write.record, *stored);
    }
}

/// Records whose views agree on the request agree on it.
pub(crate) proof fn lemma_same_request(left: StoredResponse, right: StoredResponse)
    requires
        left@.upstream == right@.upstream,
        left@.input == right@.input,
        left@.enqueued_at == right@.enqueued_at,
    ensures
        same_request(left, right),
{
    let lefts = documents_of(left.input@);
    let rights = documents_of(right.input@);
    assert(lefts.len() == left.input@.len());
    assert(rights.len() == right.input@.len());
    assert forall|i: int| 0 <= i < left.input@.len() implies json_of(#[trigger] left.input@[i])
        == json_of(right.input@[i]) by {
        assert(lefts[i] == rights[i]);
    }
}

/// A record is written back with what is left of its lifetime, with one second where nothing is
/// left, and with the default where it had none.
pub proof fn lifetimes_are_kept(redis_ttl: i64, default_ttl_seconds: u64, ttl: u64)
    requires
        call_ensures(reconcile_write_ttl, (redis_ttl, default_ttl_seconds), ttl),
    ensures
        redis_ttl > 0 ==> ttl == redis_ttl,
        redis_ttl == 0 ==> ttl == 1,
        redis_ttl < 0 ==> ttl == default_ttl_seconds,
{
}

/// A record that is built of parts holds these parts.
pub proof fn parts_are_kept(
    upstream: String,
    response: serde_json::Value,
    input: Vec<serde_json::Value>,
    pending_upstream_request: Option<serde_json::Value>,
    upstream_authorization: Option<String>,
    enqueued_at: Option<i64>,
    record: StoredResponse,
)
    requires
        call_ensures(
            ResponseStore::build_stored_from_parts,
            (
                upstream,
                response,
                input,
                pending_upstream_request,
                upstream_authorization,
                enqueued_at,
            ),
            record,
        ),
    ensures
        record.upstream == upstream,
        record.response == response,
        record.input == input,
        record.pending_upstream_request == pending_upstream_request,
        record.upstream_authorization == upstream_authorization,
        record.enqueued_at == enqueued_at,
{
}

/// A store is made exactly where the Redis client accepts the URL, and keeps what it was given.
pub proof fn stores_keep_their_settings(
    redis_url: &str,
    key_prefix: String,
    default_ttl_seconds: u64,
    stale_seconds: i64,
    store: Result<ResponseStore, StoreError>,
)
    requires
        call_ensures(
            ResponseStore::connect,
            (redis_url, key_prefix, default_ttl_seconds, stale_seconds),
            store,
        ),
    ensures
        store is Ok <==> opened_client(redis_url@) is Ok,
        store matches Ok(store) ==> {
            &&& opened_client(redis_url@)->Ok_0 == store.redis_client
            &&& store.key_prefix == key_prefix
            &&& store.default_ttl_seconds == default_ttl_seconds
            &&& store.stale_seconds == stale_seconds
        },
        store matches Err(err) ==> err is Storage,
{
}

/// A copy of a store keeps its settings, and a copy of a payload what the worker needs.
pub proof fn copied_stores_keep_their_settings(
    store: &ResponseStore,
    copy: ResponseStore,
    payload: &ClaimBackgroundPayload,
    payload_copy: ClaimBackgroundPayload,
)
    requires
        call_ensures(ResponseStore::clone, (store,), copy),
        call_ensures(ClaimBackgroundPayload::clone, (payload,), payload_copy),
    ensures
        copy.redis_client == store.redis_client,
        copy.key_prefix@ == store.key_prefix@,
        copy.default_ttl_seconds == store.default_ttl_seconds,
        copy.stale_seconds == store.stale_seconds,
        payload_copy.upstream@ == payload.upstream@,
        json_of(payload_copy.pending_upstream_request) == json_of(
            payload.pending_upstream_request,
        ),
        text_option(payload_copy.upstream_authorization) == text_option(
            payload.upstream_authorization,
        ),
{
}

} // verus!

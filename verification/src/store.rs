//! The response store: which key and lifetime a record is written with, what a read answers, and
//! how a background response changes its state.

use vstd::prelude::*;

use crate::error::{ErrorView, RedisFailure, StoreError};
use crate::json::{bool_value, json_of, set_field, text_value, Json};
use crate::model::{
    build_deleted_response, build_failed_response, is_claimable_background,
    is_deleted_tombstone, is_in_progress_background, is_stale_enqueued,
    is_terminal_background_status, response_store_key, should_reconcile_stale, unix_seconds_now,
    RecordView, StoredResponse,
};
use crate::model::{
    cancelled_response, deleted_response, failed_response, is_stale, lemma_names_differ, saturated,
    store_key, store_keys_are_distinct,
};
use crate::text::{copy_text_option, text_option};
use crate::transaction::{record_option, Change, ChangeView, PhaseView, Transaction, TransactionView};

verus! {

/// What a worker needs to process a response that it has claimed.
#[derive(Debug, PartialEq)]
pub struct ClaimBackgroundPayload {
    pub upstream: String,
    pub pending_upstream_request: serde_json::Value,
    pub upstream_authorization: Option<String>,
}

/// A claim payload as a mathematical value.
#[verifier::ext_equal]
pub struct PayloadView {
    pub upstream: Seq<char>,
    pub pending_upstream_request: Json,
    pub upstream_authorization: Option<Seq<char>>,
}

impl View for ClaimBackgroundPayload {
    type V = PayloadView;

    open spec fn view(&self) -> PayloadView {
        PayloadView {
            upstream: self.upstream@,
            pending_upstream_request: json_of(self.pending_upstream_request),
            upstream_authorization: text_option(self.upstream_authorization),
        }
    }
}

impl Clone for ClaimBackgroundPayload {
    fn clone(&self) -> (copy: Self)
        ensures
            copy@ == self@,
    {
        ClaimBackgroundPayload {
            upstream: self.upstream.clone(),
            pending_upstream_request: self.pending_upstream_request.clone(),
            upstream_authorization: copy_text_option(&self.upstream_authorization),
        }
    }
}

/// The refusal of an operation on a response: `response`, its ID and the reason.
pub open spec fn refusal(response_id: Seq<char>, reason: Seq<char>) -> ErrorView {
    ErrorView::FailedPrecondition("response "@ + response_id + reason)
}

fn refuse(response_id: &str, reason: &str) -> (err: StoreError)
    ensures
        err@ == refusal(response_id@, reason@),
{
    StoreError::FailedPrecondition("response ".to_owned().concat(response_id).concat(reason))
}

/// A record once a worker has started to process it.
pub open spec fn claimed_record(record: RecordView, response_id: Seq<char>) -> RecordView {
    RecordView {
        response: record.response.with_field("status"@, Json::Str("in_progress"@)).with_field(
            "id"@,
            Json::Str(response_id),
        ).with_field("background"@, Json::Bool(true)),
        ..record
    }
}

/// What claiming a response gives: the record in progress with the worker's payload, or the
/// refusal.
pub open spec fn claim_result(record: RecordView, response_id: Seq<char>) -> Result<
    (RecordView, PayloadView),
    ErrorView,
> {
    if record.is_terminal() {
        Err(refusal(response_id, " is in a terminal state"@))
    } else if record.is_in_progress() {
        Err(refusal(response_id, " is already in progress"@))
    } else if !record.is_claimable() {
        Err(refusal(response_id, " is not claimable"@))
    } else {
        Ok(
            (
                claimed_record(record, response_id),
                PayloadView {
                    upstream: record.upstream,
                    pending_upstream_request: record.pending_upstream_request->0,
                    upstream_authorization: record.upstream_authorization,
                },
            ),
        )
    }
}

/// Lets a worker start to process a queued response. The record keeps its pending request and its
/// authorization, so that another worker can take the job over.
pub fn prepare_claim_background(stored: &StoredResponse, response_id: &str) -> (result: Result<
    (StoredResponse, ClaimBackgroundPayload),
    StoreError,
>)
    ensures
        match result {
            Ok((record, payload)) => claim_result(stored@, response_id@) == Ok::<
                (RecordView, PayloadView),
                ErrorView,
            >((record@, payload@)),
            Err(err) => claim_result(stored@, response_id@) == Err::<
                (RecordView, PayloadView),
                ErrorView,
            >(err@),
        },
{
    if is_terminal_background_status(stored) {
        return Err(refuse(response_id, " is in a terminal state"));
    }
    if is_in_progress_background(stored) {
        return Err(refuse(response_id, " is already in progress"));
    }
    if !is_claimable_background(stored) {
        return Err(refuse(response_id, " is not claimable"));
    }
    let request = match &stored.pending_upstream_request {
        Some(request) => request.clone(),
        None => return Err(refuse(response_id, " is not claimable")),
    };
    let payload = ClaimBackgroundPayload {
        upstream: stored.upstream.clone(),
        pending_upstream_request: request,
        upstream_authorization: copy_text_option(&stored.upstream_authorization),
    };
    let mut updated = stored.clone();
    set_field(&mut updated.response, "status", text_value("in_progress"));
    set_field(&mut updated.response, "id", text_value(response_id));
    set_field(&mut updated.response, "background", bool_value(true));
    Ok((updated, payload))
}

/// A record once its job is done: `response` with the response's ID, the status `completed` and
/// the background marker.
pub open spec fn completed_record(
    record: RecordView,
    response_id: Seq<char>,
    response: Json,
) -> RecordView {
    RecordView {
        response: response.with_field("id"@, Json::Str(response_id)).with_field(
            "status"@,
            Json::Str("completed"@),
        ).with_field("background"@, Json::Bool(true)),
        pending_upstream_request: None,
        upstream_authorization: None,
        ..record
    }
}

/// What completing a response gives: the completed record, or the refusal.
pub open spec fn complete_result(
    record: RecordView,
    response_id: Seq<char>,
    response: Json,
) -> Result<RecordView, ErrorView> {
    if record.is_terminal() {
        Err(refusal(response_id, " is in a terminal state"@))
    } else if !record.is_in_progress() {
        Err(refusal(response_id, " is not in progress"@))
    } else if !(response is Object) {
        Err(
            ErrorView::InvalidArgument(
                "completed response for "@ + response_id + " must be a JSON object"@,
            ),
        )
    } else {
        Ok(completed_record(record, response_id, response))
    }
}

/// Stores what a worker got for a response in progress.
pub fn prepare_complete_background(
    stored: &StoredResponse,
    response_id: &str,
    completed_response: &serde_json::Value,
) -> (result: Result<(StoredResponse, ()), StoreError>)
    ensures
        match result {
            Ok((record, _)) => complete_result(stored@, response_id@, json_of(*completed_response))
                == Ok::<RecordView, ErrorView>(record@),
            Err(err) => complete_result(stored@, response_id@, json_of(*completed_response))
                == Err::<RecordView, ErrorView>(err@),
        },
{
    if is_terminal_background_status(stored) {
        return Err(refuse(response_id, " is in a terminal state"));
    }
    if !is_in_progress_background(stored) {
        return Err(refuse(response_id, " is not in progress"));
    }
    if !completed_response.is_object() {
        return Err(
            StoreError::InvalidArgument(
                "completed response for ".to_owned().concat(response_id).concat(
                    " must be a JSON object",
                ),
            ),
        );
    }
    let mut updated = stored.clone();
    updated.response = completed_response.clone();
    set_field(&mut updated.response, "id", text_value(response_id));
    set_field(&mut updated.response, "status", text_value("completed"));
    set_field(&mut updated.response, "background", bool_value(true));
    updated.pending_upstream_request = None;
    updated.upstream_authorization = None;
    Ok((updated, ()))
}

/// A record once its job has failed.
pub open spec fn failed_record(
    record: RecordView,
    response_id: Seq<char>,
    error_message: Seq<char>,
) -> RecordView {
    RecordView {
        response: failed_response(response_id, error_message),
        pending_upstream_request: None,
        upstream_authorization: None,
        ..record
    }
}

/// What failing a response gives: the failed record, or the refusal.
pub open spec fn fail_result(
    record: RecordView,
    response_id: Seq<char>,
    error_message: Seq<char>,
) -> Result<RecordView, ErrorView> {
    if record.is_terminal() {
        Err(refusal(response_id, " is in a terminal state"@))
    } else if !record.is_claimable() && !record.is_in_progress() {
        Err(refusal(response_id, " is not in progress"@))
    } else {
        Ok(failed_record(record, response_id, error_message))
    }
}

/// Records that the job of a queued response, or of one in progress, has failed.
pub fn prepare_fail_background(
    stored: &StoredResponse,
    response_id: &str,
    error_message: &str,
) -> (result: Result<(StoredResponse, ()), StoreError>)
    ensures
        match result {
            Ok((record, _)) => fail_result(stored@, response_id@, error_message@) == Ok::<
                RecordView,
                ErrorView,
            >(record@),
            Err(err) => fail_result(stored@, response_id@, error_message@) == Err::<
                RecordView,
                ErrorView,
            >(err@),
        },
{
    if is_terminal_background_status(stored) {
        return Err(refuse(response_id, " is in a terminal state"));
    }
    let claimable = is_claimable_background(stored);
    let in_progress = is_in_progress_background(stored);
    if !claimable && !in_progress {
        return Err(refuse(response_id, " is not in progress"));
    }
    let mut updated = stored.clone();
    updated.response = build_failed_response(response_id, error_message);
    updated.pending_upstream_request = None;
    updated.upstream_authorization = None;
    Ok((updated, ()))
}

/// The record of a response that has waited too long in the queue.
pub open spec fn stale_record(record: RecordView, response_id: Seq<char>) -> RecordView {
    failed_record(record, response_id, "background response stale"@)
}

/// Makes a response fail because it has waited too long in the queue.
pub fn apply_stale_failure(stored: &mut StoredResponse, response_id: &str)
    ensures
        final(stored)@ == stale_record(old(stored)@, response_id@),
{
    stored.response = build_failed_response(response_id, "background response stale");
    stored.pending_upstream_request = None;
    stored.upstream_authorization = None;
}

/// The lifetime with which a record is written back, by the lifetime that Redis reports: what is
/// left of it, a second where nothing is left, and the default for a record without a lifetime.
pub open spec fn rewrite_ttl(redis_ttl: i64, default_ttl_seconds: u64) -> u64 {
    if redis_ttl == 0 {
        1
    } else if redis_ttl > 0 {
        redis_ttl as u64
    } else {
        default_ttl_seconds
    }
}

/// The lifetime with which a record is written back, by the lifetime that Redis reports.
pub fn reconcile_write_ttl(redis_ttl: i64, default_ttl_seconds: u64) -> (ttl: u64)
    ensures
        ttl == rewrite_ttl(redis_ttl, default_ttl_seconds),
{
    if redis_ttl == 0 {
        1
    } else if redis_ttl > 0 {
        redis_ttl as u64
    } else {
        default_ttl_seconds
    }
}

/// `redis::Client`, which knows how to reach a Redis server.
#[verifier::external_type_specification]
#[verifier::external_body]
pub struct ExClient(redis::Client);

/// What the Redis client makes of a URL: a client, or the error with which it refuses it.
pub uninterp spec fn opened_client(url: Seq<char>) -> Result<redis::Client, redis::RedisError>;

/// `redis::Client::open` on a text checks the URL and makes a client for it, without connecting;
/// its result depends on the URL alone.
#[verifier::external_body]
pub(crate) fn open_client(url: &str) -> (client: Result<redis::Client, redis::RedisError>)
    ensures
        client == opened_client(url@),
{
    redis::Client::open(url)
}

/// `redis::Client::clone` gives a client for the same server, with the same settings.
pub assume_specification[ <redis::Client as Clone>::clone ](client: &redis::Client) -> (copy:
    redis::Client)
    ensures
        copy == *client,
;

/// A record that is to be written, with its key and its lifetime.
#[derive(Debug)]
pub struct RecordWrite {
    pub key: String,
    pub ttl_seconds: u64,
    pub record: StoredResponse,
}

/// A write as a mathematical value.
#[verifier::ext_equal]
pub struct WriteView {
    pub key: Seq<char>,
    pub ttl_seconds: u64,
    pub record: RecordView,
}

impl View for RecordWrite {
    type V = WriteView;

    open spec fn view(&self) -> WriteView {
        WriteView { key: self.key@, ttl_seconds: self.ttl_seconds, record: self.record@ }
    }
}

/// The result of an operation that may write a record.
pub open spec fn write_result(result: Result<RecordWrite, StoreError>) -> Result<
    WriteView,
    ErrorView,
> {
    match result {
        Ok(write) => Ok(write@),
        Err(err) => Err(err@),
    }
}

/// What a look at a stored response comes to.
#[derive(Debug)]
pub enum Reconciliation {
    /// The response as it stands.
    Unchanged(StoredResponse),
    /// The response has waited too long: it is to fail by this transaction.
    Stale(Transaction),
}

/// A reconciliation as a mathematical value.
pub enum ReconciliationView {
    Unchanged(RecordView),
    Stale(TransactionView),
}

impl View for Reconciliation {
    type V = ReconciliationView;

    open spec fn view(&self) -> ReconciliationView {
        match *self {
            Reconciliation::Unchanged(record) => ReconciliationView::Unchanged(record@),
            Reconciliation::Stale(transaction) => ReconciliationView::Stale(transaction@),
        }
    }
}

/// Where responses are stored, and for how long.
pub struct ResponseStore {
    pub redis_client: redis::Client,
    pub key_prefix: String,
    pub default_ttl_seconds: u64,
    pub stale_seconds: i64,
}

impl Clone for ResponseStore {
    fn clone(&self) -> (copy: Self)
        ensures
            copy == *self,
    {
        ResponseStore {
            redis_client: self.redis_client.clone(),
            key_prefix: self.key_prefix.clone(),
            default_ttl_seconds: self.default_ttl_seconds,
            stale_seconds: self.stale_seconds,
        }
    }
}

impl ResponseStore {
    /// The key of a response.
    pub open spec fn key_of(self, response_id: Seq<char>) -> Seq<char> {
        store_key(self.key_prefix@, response_id)
    }

    /// What storing a record comes to: it is written with the given lifetime, or else the
    /// default one, which must not be zero.
    pub open spec fn stored(
        self,
        response_id: Seq<char>,
        record: RecordView,
        ttl_seconds: Option<u64>,
    ) -> Result<WriteView, ErrorView> {
        let ttl = match ttl_seconds {
            Some(ttl) => ttl,
            None => self.default_ttl_seconds,
        };
        if ttl == 0 {
            Err(ErrorView::InvalidArgument("ttl_seconds must be greater than 0"@))
        } else {
            Ok(WriteView { key: self.key_of(response_id), ttl_seconds: ttl, record })
        }
    }

    /// The first step of a change of a response.
    pub open spec fn changing(self, response_id: Seq<char>, change: ChangeView) -> TransactionView {
        TransactionView {
            key: self.key_of(response_id),
            response_id,
            change,
            default_ttl_seconds: self.default_ttl_seconds,
            attempt: 0,
            phase: PhaseView::Discarding,
        }
    }

    /// What a look at a record comes to at the time `now`.
    pub open spec fn reconciled(
        self,
        response_id: Seq<char>,
        record: RecordView,
        stale_seconds: i64,
        now: i64,
    ) -> ReconciliationView {
        if record.may_go_stale() && is_stale(record.enqueued_at, now, stale_seconds) {
            ReconciliationView::Stale(
                self.changing(response_id, ChangeView::FailStale { now, stale_seconds }),
            )
        } else {
            ReconciliationView::Unchanged(record)
        }
    }

    /// What reading a response comes to at the time `now`. A response that does not exist, or was
    /// deleted, is not found.
    pub open spec fn looked_up(
        self,
        response_id: Seq<char>,
        reconcile_stale: bool,
        loaded: Option<RecordView>,
        now: i64,
    ) -> Result<ReconciliationView, ErrorView> {
        match loaded {
            Some(record) => if record.is_deleted() {
                Err(ErrorView::NotFound(response_id))
            } else if reconcile_stale {
                Ok(self.reconciled(response_id, record, self.stale_seconds, now))
            } else {
                Ok(ReconciliationView::Unchanged(record))
            },
            None => Err(ErrorView::NotFound(response_id)),
        }
    }

    /// Prepares a store at a Redis server, without connecting to it.
    pub fn connect(
        redis_url: &str,
        key_prefix: String,
        default_ttl_seconds: u64,
        stale_seconds: i64,
    ) -> (store: Result<ResponseStore, StoreError>)
        ensures
            match opened_client(redis_url@) {
                Ok(client) => store == Ok::<ResponseStore, StoreError>(
                    ResponseStore {
                        redis_client: client,
                        key_prefix,
                        default_ttl_seconds,
                        stale_seconds,
                    },
                ),
                Err(err) => store matches Err(StoreError::Storage(failure))
                    && failure@.stands_for(err),
            },
    {
        match open_client(redis_url) {
            Ok(redis_client) => Ok(
                ResponseStore { redis_client, key_prefix, default_ttl_seconds, stale_seconds },
            ),
            Err(err) => Err(StoreError::Storage(RedisFailure::of(&err))),
        }
    }

    /// The key of a response.
    pub fn key(&self, response_id: &str) -> (key: String)
        ensures
            key@ == self.key_of(response_id@),
    {
        response_store_key(self.key_prefix.as_str(), response_id)
    }

    /// Stores a response: tells what is to be written.
    pub fn store(
        &self,
        response_id: &str,
        response: &StoredResponse,
        ttl_seconds: Option<u64>,
    ) -> (write: Result<RecordWrite, StoreError>)
        ensures
            write_result(write) == self.stored(response_id@, response@, ttl_seconds),
    {
        let ttl = match ttl_seconds {
            Some(ttl) => ttl,
            None => self.default_ttl_seconds,
        };
        if ttl == 0 {
            return Err(
                StoreError::InvalidArgument("ttl_seconds must be greater than 0".to_owned()),
            );
        }
        Ok(
            RecordWrite {
                key: self.key(response_id),
                ttl_seconds: ttl,
                record: response.clone(),
            },
        )
    }

    /// Loads a response: tells which key is to be read.
    pub fn load(&self, response_id: &str) -> (key: String)
        ensures
            key@ == self.key_of(response_id@),
    {
        self.key(response_id)
    }

    /// Answers a read of a response, given what was loaded and the time.
    pub fn get_at(
        &self,
        response_id: &str,
        reconcile_stale: bool,
        loaded: Option<StoredResponse>,
        now: i64,
    ) -> (found: Result<Reconciliation, StoreError>)
        ensures
            reconciliation_result(found) == self.looked_up(
                response_id@,
                reconcile_stale,
                record_option(loaded),
                now,
            ),
            found matches Ok(Reconciliation::Stale(transaction)) ==> transaction@.is_valid(),
    {
        let Some(stored) = loaded else {
            return Err(StoreError::NotFound(response_id.to_owned()));
        };
        if is_deleted_tombstone(&stored) {
            return Err(StoreError::NotFound(response_id.to_owned()));
        }
        if reconcile_stale {
            return Ok(
                self.reconcile_stale_response_at(response_id, stored, self.stale_seconds, now),
            );
        }
        Ok(Reconciliation::Unchanged(stored))
    }

    /// Answers a read of a response, given what was loaded. A queued response that has waited
    /// too long is to fail first, where `reconcile_stale` asks for it.
    pub fn get(&self, response_id: &str, reconcile_stale: bool, loaded: Option<StoredResponse>) -> (found:
        Result<Reconciliation, StoreError>)
        ensures
            exists|now: i64|
                reconciliation_result(found) == #[trigger] self.looked_up(
                    response_id@,
                    reconcile_stale,
                    record_option(loaded),
                    now,
                ),
            found matches Ok(Reconciliation::Stale(transaction)) ==> transaction@.is_valid(),
    {
        let now = unix_seconds_now();
        self.get_at(response_id, reconcile_stale, loaded, now)
    }

    /// Replaces a response, given the one that was loaded: tells what is to be written. A
    /// response that does not exist, or was deleted, is not found.
    pub fn update(
        &self,
        response_id: &str,
        response: &StoredResponse,
        ttl_seconds: Option<u64>,
        existing: &Option<StoredResponse>,
    ) -> (write: Result<RecordWrite, StoreError>)
        ensures
            write_result(write) == if existing is None || existing->0@.is_deleted() {
                Err::<WriteView, ErrorView>(ErrorView::NotFound(response_id@))
            } else {
                self.stored(response_id@, response@, ttl_seconds)
            },
    {
        let Some(existing) = existing else {
            return Err(StoreError::NotFound(response_id.to_owned()));
        };
        if is_deleted_tombstone(existing) {
            return Err(StoreError::NotFound(response_id.to_owned()));
        }
        self.store(response_id, response, ttl_seconds)
    }

    /// Deletes a response: tells which key is to be removed.
    pub fn delete(&self, response_id: &str) -> (key: String)
        ensures
            key@ == self.key_of(response_id@),
    {
        self.key(response_id)
    }

    /// Lets a response that has waited too long fail, given the time.
    pub fn reconcile_stale_response_at(
        &self,
        response_id: &str,
        stored: StoredResponse,
        stale_seconds: i64,
        now: i64,
    ) -> (reconciliation: Reconciliation)
        ensures
            reconciliation@ == self.reconciled(response_id@, stored@, stale_seconds, now),
            reconciliation matches Reconciliation::Stale(transaction) ==> transaction@.is_valid(),
    {
        if !should_reconcile_stale(&stored) {
            return Reconciliation::Unchanged(stored);
        }
        if !is_stale_enqueued(stored.enqueued_at, now, stale_seconds) {
            return Reconciliation::Unchanged(stored);
        }
        Reconciliation::Stale(
            self.transition(response_id, Change::FailStale { now, stale_seconds }),
        )
    }

    /// Lets a response that has waited too long fail.
    pub fn reconcile_stale_response(
        &self,
        response_id: &str,
        stored: StoredResponse,
        stale_seconds: i64,
    ) -> (reconciliation: Reconciliation)
        ensures
            exists|now: i64|
                reconciliation@ == #[trigger] self.reconciled(
                    response_id@,
                    stored@,
                    stale_seconds,
                    now,
                ),
            reconciliation matches Reconciliation::Stale(transaction) ==> transaction@.is_valid(),
    {
        let now = unix_seconds_now();
        self.reconcile_stale_response_at(response_id, stored, stale_seconds, now)
    }

    fn transition(&self, response_id: &str, change: Change) -> (start: Transaction)
        ensures
            start@ == self.changing(response_id@, change@),
            start@.is_valid(),
    {
        Transaction::new(
            self.key(response_id),
            response_id.to_owned(),
            change,
            self.default_ttl_seconds,
        )
    }

    /// Starts the change by which a worker claims a response.
    pub fn claim_background_response(&self, response_id: &str) -> (start: Transaction)
        ensures
            start@ == self.changing(response_id@, ChangeView::Claim),
            start@.is_valid(),
    {
        self.transition(response_id, Change::Claim)
    }

    /// Starts the change that stores what a worker got for a response.
    pub fn complete_background_response(
        &self,
        response_id: &str,
        completed_response: serde_json::Value,
    ) -> (start: Transaction)
        ensures
            start@ == self.changing(
                response_id@,
                ChangeView::Complete(json_of(completed_response)),
            ),
            start@.is_valid(),
    {
        self.transition(response_id, Change::Complete(completed_response))
    }

    /// Starts the change that records that a job has failed.
    pub fn fail_background_response(&self, response_id: &str, error_message: &str) -> (start:
        Transaction)
        ensures
            start@ == self.changing(response_id@, ChangeView::Fail(error_message@)),
            start@.is_valid(),
    {
        self.transition(response_id, Change::Fail(error_message.to_owned()))
    }

    /// Deletes a response whose job is in flight: tells what is to be written in its place.
    pub fn tombstone_deleted_background(&self, response_id: &str, stored: &StoredResponse) -> (write:
        Result<RecordWrite, StoreError>)
        ensures
            write_result(write) == self.stored(
                response_id@,
                tombstone(stored@, response_id@),
                None,
            ),
    {
        let mut tombstone = stored.clone();
        tombstone.response = build_deleted_response(response_id);
        tombstone.pending_upstream_request = None;
        tombstone.upstream_authorization = None;
        self.store(response_id, &tombstone, None)
    }

    /// Builds a record out of its parts.
    pub fn build_stored_from_parts(
        upstream: String,
        response: serde_json::Value,
        input: Vec<serde_json::Value>,
        pending_upstream_request: Option<serde_json::Value>,
        upstream_authorization: Option<String>,
        enqueued_at: Option<i64>,
    ) -> (record: StoredResponse)
        ensures
            record == (StoredResponse {
                upstream,
                response,
                input,
                pending_upstream_request,
                upstream_authorization,
                enqueued_at,
            }),
    {
        StoredResponse {
            upstream,
            response,
            input,
            pending_upstream_request,
            upstream_authorization,
            enqueued_at,
        }
    }
}

/// The record that stands for a deleted one.
pub open spec fn tombstone(record: RecordView, response_id: Seq<char>) -> RecordView {
    RecordView {
        response: deleted_response(response_id),
        pending_upstream_request: None,
        upstream_authorization: None,
        ..record
    }
}

/// The result of a read.
pub open spec fn reconciliation_result(found: Result<Reconciliation, StoreError>) -> Result<
    ReconciliationView,
    ErrorView,
> {
    match found {
        Ok(reconciliation) => Ok(reconciliation@),
        Err(err) => Err(err@),
    }
}

/// A response that has reached a final state does not leave it: no worker can claim, complete or
/// fail it, and it does not go stale.
pub proof fn final_states_are_final(
    record: RecordView,
    response_id: Seq<char>,
    response: Json,
    error_message: Seq<char>,
)
    requires
        record.is_terminal(),
    ensures
        claim_result(record, response_id) == Err::<(RecordView, PayloadView), ErrorView>(
            refusal(response_id, " is in a terminal state"@),
        ),
        complete_result(record, response_id, response) == Err::<RecordView, ErrorView>(
            refusal(response_id, " is in a terminal state"@),
        ),
        fail_result(record, response_id, error_message) == Err::<RecordView, ErrorView>(
            refusal(response_id, " is in a terminal state"@),
        ),
        !record.may_go_stale(),
{
    lemma_names_differ();
}

/// Exactly the claimable responses can be claimed. A claim puts the response in progress, hands
/// the worker what it needs and keeps it in the record.
pub proof fn claim_puts_in_progress(record: RecordView, response_id: Seq<char>)
    ensures
        claim_result(record, response_id) is Ok <==> record.is_claimable(),
        claim_result(record, response_id) matches Ok((claimed, payload)) ==> {
            &&& claimed.is_in_progress()
            &&& claimed.is_in_flight()
            &&& !claimed.is_terminal()
            &&& claimed.response.text_field("id"@) == Some(response_id)
            &&& claimed.response.field("background"@) == Some(Json::Bool(true))
            &&& claimed.pending_upstream_request == record.pending_upstream_request
            &&& claimed.upstream_authorization == record.upstream_authorization
            &&& payload.upstream == record.upstream
            &&& record.pending_upstream_request == Some(payload.pending_upstream_request)
            &&& payload.upstream_authorization == record.upstream_authorization
        },
{
    lemma_names_differ();
}

/// A response is claimed once: the second claim is refused.
pub proof fn second_claim_is_refused(record: RecordView, response_id: Seq<char>)
    requires
        claim_result(record, response_id) is Ok,
    ensures
        claim_result(claim_result(record, response_id)->Ok_0.0, response_id) == Err::<
            (RecordView, PayloadView),
            ErrorView,
        >(refusal(response_id, " is already in progress"@)),
{
    lemma_names_differ();
}

/// A claimed response can be completed with every JSON object, and fails with every message.
pub proof fn claimed_response_can_end(
    record: RecordView,
    response_id: Seq<char>,
    response: Json,
    error_message: Seq<char>,
)
    requires
        claim_result(record, response_id) is Ok,
    ensures
        complete_result(claim_result(record, response_id)->Ok_0.0, response_id, response) is Ok
            <==> response is Object,
        fail_result(claim_result(record, response_id)->Ok_0.0, response_id, error_message) is Ok,
{
    lemma_names_differ();
}

/// A completed response carries its ID, the background marker and the status `completed`, whatever
/// status the worker got; it agrees with what the worker got on everything else, and what the
/// worker needed is gone.
pub proof fn completion_is_final(record: RecordView, response_id: Seq<char>, response: Json)
    requires
        complete_result(record, response_id, response) is Ok,
    ensures
        ({
            let completed = complete_result(record, response_id, response)->Ok_0;
            &&& completed.status() == Some("completed"@)
            &&& completed.is_terminal()
            &&& !completed.is_in_flight()
            &&& completed.response.text_field("id"@) == Some(response_id)
            &&& completed.response.field("background"@) == Some(Json::Bool(true))
            &&& forall|key: Seq<char>|
                key != "id"@ && key != "status"@ && key != "background"@
                    ==> #[trigger] completed.response.field(key) == response.field(key)
            &&& completed.pending_upstream_request is None
            &&& completed.upstream_authorization is None
        }),
{
    lemma_names_differ();
}

/// Exactly the responses that wait or are in progress can fail. A failed response has the status
/// `failed` and carries its ID and the message; what the worker needed is gone.
pub proof fn failure_is_final(
    record: RecordView,
    response_id: Seq<char>,
    error_message: Seq<char>,
)
    ensures
        fail_result(record, response_id, error_message) is Ok <==> record.is_claimable()
            || record.is_in_progress(),
        ({
            let failed = failed_record(record, response_id, error_message);
            &&& failed.status() == Some("failed"@)
            &&& failed.is_terminal()
            &&& !failed.is_in_flight()
            &&& failed.response.text_field("id"@) == Some(response_id)
            &&& failed.response.field("error"@) matches Some(error)
                && error.text_field("message"@) == Some(error_message)
            &&& failed.pending_upstream_request is None
            &&& failed.upstream_authorization is None
        }),
{
    lemma_names_differ();
    reveal_strlit("message");
    reveal_strlit("type");
    assert("message"@.len() != "type"@.len());
}

/// A response that was failed for staleness is left alone from then on.
pub proof fn staleness_is_final(
    store: ResponseStore,
    record: RecordView,
    response_id: Seq<char>,
    stale_seconds: i64,
    now: i64,
)
    ensures
        stale_record(record, response_id).status() == Some("failed"@),
        store.reconciled(response_id, stale_record(record, response_id), stale_seconds, now)
            == ReconciliationView::Unchanged(stale_record(record, response_id)),
{
    lemma_names_differ();
}

/// Only a queued response can go stale, only once its time has come, and one without a known time
/// never does.
pub proof fn only_waiting_responses_go_stale(
    store: ResponseStore,
    record: RecordView,
    response_id: Seq<char>,
    stale_seconds: i64,
    now: i64,
)
    ensures
        store.reconciled(response_id, record, stale_seconds, now) is Stale <==> (record.status()
            == Some("queued"@) && (record.enqueued_at matches Some(enqueued_at) && saturated(
            now - enqueued_at,
        ) >= stale_seconds)),
{
}

/// A response that has gone stale stays stale as time passes, by the same limit and by every lower
/// one.
pub proof fn staleness_lasts(
    enqueued_at: Option<i64>,
    now: i64,
    later: i64,
    stale_seconds: i64,
    lower: i64,
)
    requires
        now <= later,
        lower <= stale_seconds,
        is_stale(enqueued_at, now, stale_seconds),
    ensures
        is_stale(enqueued_at, later, lower),
{
}

/// A deleted response whose job was in flight is not found any more, neither by a read nor by an
/// update, and no worker gets it.
pub proof fn deleted_responses_are_not_found(
    store: ResponseStore,
    record: RecordView,
    response_id: Seq<char>,
    reconcile_stale: bool,
    now: i64,
)
    ensures
        tombstone(record, response_id).is_deleted(),
        tombstone(record, response_id).is_terminal(),
        !tombstone(record, response_id).is_in_flight(),
        store.looked_up(response_id, reconcile_stale, Some(tombstone(record, response_id)), now)
            == Err::<ReconciliationView, ErrorView>(ErrorView::NotFound(response_id)),
        claim_result(tombstone(record, response_id), response_id) is Err,
{
    lemma_names_differ();
}

/// A cancelled response has reached a final state.
pub proof fn cancellation_is_final(record: RecordView, response: Json, response_id: Seq<char>)
    requires
        record.response == cancelled_response(response, response_id),
    ensures
        record.status() == Some("cancelled"@),
        record.is_terminal(),
        !record.is_in_progress(),
        record.response.text_field("id"@) == Some(response_id),
{
    lemma_names_differ();
}

/// What was stored is what a read of the same response finds: it looks under the key of the write,
/// and answers with the record as it is, unless it marks a deletion.
pub proof fn reads_find_writes(
    store: ResponseStore,
    response_id: Seq<char>,
    record: RecordView,
    ttl_seconds: Option<u64>,
    now: i64,
)
    requires
        !record.is_deleted(),
    ensures
        store.stored(response_id, record, ttl_seconds) matches Ok(write) ==> write.key
            == store.key_of(response_id) && store.looked_up(
            response_id,
            false,
            Some(write.record),
            now,
        ) == Ok::<ReconciliationView, ErrorView>(ReconciliationView::Unchanged(record)),
{
}

/// Writes to different responses never meet.
pub proof fn keys_are_distinct(store: ResponseStore, left: Seq<char>, right: Seq<char>)
    ensures
        store.key_of(left) == store.key_of(right) <==> left == right,
{
    store_keys_are_distinct(store.key_prefix@, left, right);
}

/// A record is never written with a lifetime of zero, as long as the default is not zero; and what
/// is left of a lifetime is never extended.
pub proof fn rewriting_keeps_the_lifetime(redis_ttl: i64, default_ttl_seconds: u64)
    ensures
        default_ttl_seconds > 0 ==> rewrite_ttl(redis_ttl, default_ttl_seconds) > 0,
        redis_ttl > 0 ==> rewrite_ttl(redis_ttl, default_ttl_seconds) == redis_ttl,
        redis_ttl < 0 ==> rewrite_ttl(redis_ttl, default_ttl_seconds) == default_ttl_seconds,
{
}

} // verus!

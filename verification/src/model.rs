//! Stored responses, background jobs, and the rules on what a response's status allows.

use vstd::prelude::*;

use crate::json::{alike, document_option, documents_of, json_of, Json};
use crate::json::{
    bool_value, empty_array, empty_object, get_field, remove_field, same_value, set_field,
    text_value,
};
use crate::text::{begins_with, copy_text_option, same_text};
use crate::text::{has_prefix, text_option};

verus! {

/// A response as the store keeps it.
#[derive(Debug, PartialEq)]
pub struct StoredResponse {
    pub upstream: String,
    pub response: serde_json::Value,
    pub input: Vec<serde_json::Value>,
    pub pending_upstream_request: Option<serde_json::Value>,
    pub upstream_authorization: Option<String>,
    pub enqueued_at: Option<i64>,
}

/// A stored response as a mathematical value.
#[verifier::ext_equal]
pub struct RecordView {
    pub upstream: Seq<char>,
    pub response: Json,
    pub input: Seq<Json>,
    pub pending_upstream_request: Option<Json>,
    pub upstream_authorization: Option<Seq<char>>,
    pub enqueued_at: Option<i64>,
}

impl View for StoredResponse {
    type V = RecordView;

    open spec fn view(&self) -> RecordView {
        RecordView {
            upstream: self.upstream@,
            response: json_of(self.response),
            input: documents_of(self.input@),
            pending_upstream_request: document_option(self.pending_upstream_request),
            upstream_authorization: text_option(self.upstream_authorization),
            enqueued_at: self.enqueued_at,
        }
    }
}

/// Copies a list of JSON values.
pub fn copy_values(values: &Vec<serde_json::Value>) -> (copies: Vec<serde_json::Value>)
    ensures
        documents_of(copies@) == documents_of(values@),
{
    let mut copies: Vec<serde_json::Value> = Vec::new();
    for i in 0..values.len()
        invariant
            copies@.len() == i,
            forall|j: int| 0 <= j < i ==> json_of(#[trigger] copies@[j]) == json_of(values@[j]),
    {
        copies.push(values[i].clone());
    }
    copies
}

/// Copies a JSON value that may be absent.
pub fn copy_value_option(value: &Option<serde_json::Value>) -> (copy: Option<serde_json::Value>)
    ensures
        document_option(copy) == document_option(*value),
{
    match value {
        Some(value) => Some(value.clone()),
        None => None,
    }
}

impl Clone for StoredResponse {
    fn clone(&self) -> (copy: Self)
        ensures
            copy@ == self@,
    {
        StoredResponse {
            upstream: self.upstream.clone(),
            response: self.response.clone(),
            input: copy_values(&self.input),
            pending_upstream_request: copy_value_option(&self.pending_upstream_request),
            upstream_authorization: copy_text_option(&self.upstream_authorization),
            enqueued_at: self.enqueued_at,
        }
    }
}

/// A job that a worker has claimed, with the response that it belongs to.
#[derive(Debug, PartialEq)]
pub struct BackgroundJob {
    pub stream_id: String,
    pub response_id: String,
    pub record: StoredResponse,
    pub autoclaimed: bool,
    pub idle_ms: Option<u64>,
}

/// A claimed job as a mathematical value.
#[verifier::ext_equal]
pub struct JobView {
    pub stream_id: Seq<char>,
    pub response_id: Seq<char>,
    pub record: RecordView,
    pub autoclaimed: bool,
    pub idle_ms: Option<u64>,
}

impl View for BackgroundJob {
    type V = JobView;

    open spec fn view(&self) -> JobView {
        JobView {
            stream_id: self.stream_id@,
            response_id: self.response_id@,
            record: self.record@,
            autoclaimed: self.autoclaimed,
            idle_ms: self.idle_ms,
        }
    }
}

impl Clone for BackgroundJob {
    fn clone(&self) -> (copy: Self)
        ensures
            copy@ == self@,
    {
        BackgroundJob {
            stream_id: self.stream_id.clone(),
            response_id: self.response_id.clone(),
            record: self.record.clone(),
            autoclaimed: self.autoclaimed,
            idle_ms: self.idle_ms,
        }
    }
}

/// A job that a worker has claimed but whose response could not be loaded yet.
#[derive(Debug, PartialEq, Eq)]
pub struct PendingBackgroundJob {
    pub stream_id: String,
    pub response_id: String,
    pub autoclaimed: bool,
    pub idle_ms: Option<u64>,
}

/// A pending job as a mathematical value.
#[verifier::ext_equal]
pub struct PendingJobView {
    pub stream_id: Seq<char>,
    pub response_id: Seq<char>,
    pub autoclaimed: bool,
    pub idle_ms: Option<u64>,
}

impl View for PendingBackgroundJob {
    type V = PendingJobView;

    open spec fn view(&self) -> PendingJobView {
        PendingJobView {
            stream_id: self.stream_id@,
            response_id: self.response_id@,
            autoclaimed: self.autoclaimed,
            idle_ms: self.idle_ms,
        }
    }
}

impl Clone for PendingBackgroundJob {
    fn clone(&self) -> (copy: Self)
        ensures
            copy@ == self@,
    {
        PendingBackgroundJob {
            stream_id: self.stream_id.clone(),
            response_id: self.response_id.clone(),
            autoclaimed: self.autoclaimed,
            idle_ms: self.idle_ms,
        }
    }
}

/// The key under which a response is stored.
pub open spec fn store_key(prefix: Seq<char>, response_id: Seq<char>) -> Seq<char> {
    prefix + ":"@ + response_id
}

/// The key under which a response is stored.
pub fn response_store_key(prefix: &str, response_id: &str) -> (key: String)
    ensures
        key@ == store_key(prefix@, response_id@),
{
    prefix.to_owned().concat(":").concat(response_id)
}

/// The key under which a consumer group's autoclaim cursor is stored.
pub open spec fn cursor_key(stream_key: Seq<char>, consumer_group: Seq<char>) -> Seq<char> {
    stream_key + ":meta:autoclaim:"@ + consumer_group
}

/// The key under which a consumer group's autoclaim cursor is stored.
pub fn autoclaim_cursor_key(stream_key: &str, consumer_group: &str) -> (key: String)
    ensures
        key@ == cursor_key(stream_key@, consumer_group@),
{
    stream_key.to_owned().concat(":meta:autoclaim:").concat(consumer_group)
}

/// The field `id` of a document, where it is a response ID: a text that begins with `resp_`.
pub open spec fn own_response_id(document: Json) -> Option<Seq<char>> {
    match document.text_field("id"@) {
        Some(id) => if has_prefix(id, "resp_"@) {
            Some(id)
        } else {
            None
        },
        None => None,
    }
}

/// The response ID of a document: its own, or else that of the document in its field `response`.
pub open spec fn response_id_in(document: Json) -> Option<Seq<char>> {
    match own_response_id(document) {
        Some(id) => Some(id),
        None => match document.field("response"@) {
            Some(response) => own_response_id(response),
            None => None,
        },
    }
}

fn own_id(value: &serde_json::Value) -> (id: Option<String>)
    ensures
        text_option(id) == own_response_id(json_of(*value)),
{
    match get_field(value, "id") {
        Some(field) => match field.as_str() {
            Some(id) => if begins_with(id, "resp_") {
                Some(id.to_owned())
            } else {
                None
            },
            None => None,
        },
        None => None,
    }
}

/// Finds the response ID in a document.
pub fn response_id_from_value(value: &serde_json::Value) -> (id: Option<String>)
    ensures
        text_option(id) == response_id_in(json_of(*value)),
{
    match own_id(value) {
        Some(id) => Some(id),
        None => match get_field(value, "response") {
            Some(response) => own_id(response),
            None => None,
        },
    }
}

impl RecordView {
    /// The status of the response, where it has one.
    pub open spec fn status(self) -> Option<Seq<char>> {
        self.response.text_field("status"@)
    }

    /// Whether the response was deleted while a job for it was in flight.
    pub open spec fn is_deleted(self) -> bool {
        self.status() == Some("deleted"@)
    }

    /// Whether a job for the response is queued or running.
    pub open spec fn is_in_flight(self) -> bool {
        self.pending_upstream_request is Some || self.status() == Some("queued"@) || self.status()
            == Some("in_progress"@)
    }

    /// Whether a worker is processing the response.
    pub open spec fn is_in_progress(self) -> bool {
        self.status() == Some("in_progress"@)
    }

    /// Whether a worker may start processing the response.
    pub open spec fn is_claimable(self) -> bool {
        self.status() == Some("queued"@) && self.pending_upstream_request is Some
    }

    /// Whether the response has reached a state that it does not leave.
    pub open spec fn is_terminal(self) -> bool {
        self.status() == Some("completed"@) || self.status() == Some("failed"@) || self.status()
            == Some("cancelled"@) || self.status() == Some("deleted"@)
    }

    /// Whether the response fails once it has waited too long.
    pub open spec fn may_go_stale(self) -> bool {
        self.is_in_flight() && self.status() == Some("queued"@)
    }
}

/// The status of a stored response, where it has one.
pub fn stored_response_status(stored: &StoredResponse) -> (status: Option<&str>)
    ensures
        match status {
            Some(status) => stored@.status() == Some(status@),
            None => stored@.status() is None,
        },
{
    match get_field(&stored.response, "status") {
        Some(status) => status.as_str(),
        None => None,
    }
}

fn has_status(stored: &StoredResponse, wanted: &str) -> (answer: bool)
    ensures
        answer == (stored@.status() == Some(wanted@)),
{
    match stored_response_status(stored) {
        Some(status) => same_text(status, wanted),
        None => false,
    }
}

/// Whether the response was deleted while a job for it was in flight.
pub fn is_deleted_tombstone(stored: &StoredResponse) -> (answer: bool)
    ensures
        answer == stored@.is_deleted(),
{
    has_status(stored, "deleted")
}

/// Whether a job for the response is queued or running.
pub fn is_in_flight_background(stored: &StoredResponse) -> (answer: bool)
    ensures
        answer == stored@.is_in_flight(),
{
    stored.pending_upstream_request.is_some() || has_status(stored, "queued") || has_status(
        stored,
        "in_progress",
    )
}

/// Whether a worker is processing the response.
pub fn is_in_progress_background(stored: &StoredResponse) -> (answer: bool)
    ensures
        answer == stored@.is_in_progress(),
{
    has_status(stored, "in_progress")
}

/// Whether a worker may start processing the response.
pub fn is_claimable_background(stored: &StoredResponse) -> (answer: bool)
    ensures
        answer == stored@.is_claimable(),
{
    stored.pending_upstream_request.is_some() && has_status(stored, "queued")
}

/// Whether the response has reached a state that it does not leave.
pub fn is_terminal_background_status(stored: &StoredResponse) -> (answer: bool)
    ensures
        answer == stored@.is_terminal(),
{
    has_status(stored, "completed") || has_status(stored, "failed") || has_status(
        stored,
        "cancelled",
    ) || has_status(stored, "deleted")
}

/// Whether the response fails once it has waited too long.
pub fn should_reconcile_stale(stored: &StoredResponse) -> (answer: bool)
    ensures
        answer == stored@.may_go_stale(),
{
    is_in_flight_background(stored) && has_status(stored, "queued")
}

/// Whether a character is a lower-case hexadecimal digit.
pub open spec fn is_hex(c: char) -> bool {
    '0' <= c <= '9' || 'a' <= c <= 'f'
}

/// A random UUID as 32 lower-case hexadecimal digits: version 4, RFC variant.
pub open spec fn is_random_uuid(text: Seq<char>) -> bool {
    &&& text.len() == 32
    &&& forall|i: int| 0 <= i < 32 ==> is_hex(#[trigger] text[i])
    &&& text[12] == '4'
    &&& text[16] == '8' || text[16] == '9' || text[16] == 'a' || text[16] == 'b'
}

/// `uuid::Uuid::new_v4`, written by `Uuid::simple`, gives a random UUID without hyphens. Which
/// one is left to chance.
#[verifier::external_body]
fn random_uuid() -> (text: String)
    ensures
        is_random_uuid(text@),
{
    uuid::Uuid::new_v4().simple().to_string()
}

/// The response ID made of a UUID.
pub fn response_id_from_uuid(uuid: &str) -> (id: String)
    ensures
        id@ == "resp_"@ + uuid@,
{
    "resp_".to_owned().concat(uuid)
}

/// Makes a response ID at random.
pub fn generate_response_id() -> (id: String)
    ensures
        has_prefix(id@, "resp_"@),
        is_random_uuid(id@.skip("resp_"@.len() as int)),
{
    let uuid = random_uuid();
    let id = response_id_from_uuid(uuid.as_str());
    assert(id@.subrange(0, "resp_"@.len() as int) == "resp_"@);
    assert(id@.skip("resp_"@.len() as int) == uuid@);
    id
}

/// The response of a request that waits in the queue.
pub open spec fn queued_response(response_id: Seq<char>, model: Seq<char>, request: Json) -> Json {
    let response = Json::Object(
        map![
            "id"@ => Json::Str(response_id),
            "object"@ => Json::Str("response"@),
            "status"@ => Json::Str("queued"@),
            "model"@ => Json::Str(model),
            "background"@ => Json::Bool(true),
            "output"@ => Json::Array(Seq::empty()),
        ],
    );
    match request.field("input"@) {
        Some(input) => response.with_field("input"@, input),
        None => response,
    }
}

/// Builds the response of a request that waits in the queue.
pub fn build_queued_response(
    response_id: &str,
    model: &str,
    request: &serde_json::Value,
) -> (response: serde_json::Value)
    ensures
        json_of(response) == queued_response(response_id@, model@, json_of(*request)),
{
    let mut response = empty_object();
    set_field(&mut response, "id", text_value(response_id));
    set_field(&mut response, "object", text_value("response"));
    set_field(&mut response, "status", text_value("queued"));
    set_field(&mut response, "model", text_value(model));
    set_field(&mut response, "background", bool_value(true));
    set_field(&mut response, "output", empty_array());
    if let Some(input) = get_field(request, "input") {
        set_field(&mut response, "input", input.clone());
    }
    response
}

/// The request that is sent upstream for a client's request: one that is neither stored nor run
/// in the background, nor follows another response.
pub open spec fn upstream_request(request: Json) -> Json {
    match request {
        Json::Object(fields) => Json::Object(
            fields.remove("background"@).remove("previous_response_id"@).insert(
                "store"@,
                Json::Bool(false),
            ),
        ),
        other => other,
    }
}

/// Builds the request that is sent upstream for a client's request.
pub fn build_upstream_request(request: &serde_json::Value) -> (upstream: serde_json::Value)
    ensures
        json_of(upstream) == upstream_request(json_of(*request)),
{
    let mut upstream = request.clone();
    if upstream.is_object() {
        remove_field(&mut upstream, "background");
        remove_field(&mut upstream, "previous_response_id");
        set_field(&mut upstream, "store", bool_value(false));
    }
    upstream
}

/// A response after its cancellation.
pub open spec fn cancelled_response(response: Json, response_id: Seq<char>) -> Json {
    response.with_field("id"@, Json::Str(response_id)).with_field(
        "status"@,
        Json::Str("cancelled"@),
    ).with_field("background"@, Json::Bool(true))
}

/// Builds the response that a stored response becomes when it is cancelled.
pub fn build_cancelled_response(stored: &StoredResponse, response_id: &str) -> (response:
    serde_json::Value)
    requires
        stored@.response.takes_fields(),
    ensures
        json_of(response) == cancelled_response(stored@.response, response_id@),
{
    let mut response = stored.response.clone();
    set_field(&mut response, "id", text_value(response_id));
    set_field(&mut response, "status", text_value("cancelled"));
    set_field(&mut response, "background", bool_value(true));
    response
}

/// The response of a job that failed.
pub open spec fn failed_response(response_id: Seq<char>, error_message: Seq<char>) -> Json {
    Json::Object(
        map![
            "id"@ => Json::Str(response_id),
            "object"@ => Json::Str("response"@),
            "status"@ => Json::Str("failed"@),
            "background"@ => Json::Bool(true),
            "error"@ => Json::Object(
                map![
                    "message"@ => Json::Str(error_message),
                    "type"@ => Json::Str("server_error"@),
                ],
            ),
        ],
    )
}

/// Builds the response of a job that failed.
pub fn build_failed_response(response_id: &str, error_message: &str) -> (response:
    serde_json::Value)
    ensures
        json_of(response) == failed_response(response_id@, error_message@),
{
    let mut error = empty_object();
    set_field(&mut error, "message", text_value(error_message));
    set_field(&mut error, "type", text_value("server_error"));
    let mut response = empty_object();
    set_field(&mut response, "id", text_value(response_id));
    set_field(&mut response, "object", text_value("response"));
    set_field(&mut response, "status", text_value("failed"));
    set_field(&mut response, "background", bool_value(true));
    set_field(&mut response, "error", error);
    response
}

/// The response that stands for a deleted one.
pub open spec fn deleted_response(response_id: Seq<char>) -> Json {
    Json::Object(
        map![
            "id"@ => Json::Str(response_id),
            "object"@ => Json::Str("response"@),
            "status"@ => Json::Str("deleted"@),
            "background"@ => Json::Bool(true),
            "deleted"@ => Json::Bool(true),
        ],
    )
}

/// Builds the response that stands for a deleted one.
pub fn build_deleted_response(response_id: &str) -> (response: serde_json::Value)
    ensures
        json_of(response) == deleted_response(response_id@),
{
    let mut response = empty_object();
    set_field(&mut response, "id", text_value(response_id));
    set_field(&mut response, "object", text_value("response"));
    set_field(&mut response, "status", text_value("deleted"));
    set_field(&mut response, "background", bool_value(true));
    set_field(&mut response, "deleted", bool_value(true));
    response
}

/// `std::time::SystemTime::elapsed`, on `UNIX_EPOCH`, gives the time since then, or nothing for a
/// clock that is set before it. What the clock shows is left open.
#[verifier::external_body]
fn time_since_epoch() -> (elapsed: Option<std::time::Duration>) {
    std::time::UNIX_EPOCH.elapsed().ok()
}

/// The whole seconds of a duration.
pub uninterp spec fn whole_seconds(duration: std::time::Duration) -> u64;

/// `std::time::Duration::as_secs` depends on the duration alone.
pub assume_specification[ std::time::Duration::as_secs ](duration: &std::time::Duration) -> (seconds:
    u64)
    ensures
        seconds == whole_seconds(*duration),
;

/// A reading of the clock as signed seconds: in two's complement, and zero before the epoch.
pub open spec fn signed_seconds(reading: Option<u64>) -> int {
    match reading {
        Some(seconds) => if seconds <= i64::MAX {
            seconds as int
        } else {
            seconds - 0x1_0000_0000_0000_0000
        },
        None => 0,
    }
}

/// A reading of the clock as signed seconds.
pub fn unix_seconds(reading: Option<u64>) -> (now: i64)
    ensures
        now == signed_seconds(reading),
{
    match reading {
        Some(seconds) => {
            let now = #[verifier::truncate] (seconds as i64);
            assert(seconds <= 0x7fff_ffff_ffff_ffff ==> (seconds as i64) == seconds) by (bit_vector);
            assert(seconds > 0x7fff_ffff_ffff_ffff ==> (seconds as i64) == seconds
                - 0x1_0000_0000_0000_0000) by (bit_vector);
            now
        },
        None => 0,
    }
}

/// The current time in seconds since the Unix epoch: what `unix_seconds` makes of the clock's
/// reading. Nothing is promised of the reading, so nothing is of the time.
pub fn unix_seconds_now() -> (now: i64) {
    let reading = match time_since_epoch() {
        Some(elapsed) => Some(elapsed.as_secs()),
        None => None,
    };
    unix_seconds(reading)
}

/// A number kept within the range of 64 signed bits.
pub open spec fn saturated(number: int) -> int {
    if number > i64::MAX {
        i64::MAX as int
    } else if number < i64::MIN {
        i64::MIN as int
    } else {
        number
    }
}

/// Whether a response that was enqueued at a known time has waited for `stale_seconds`.
pub open spec fn is_stale(enqueued_at: Option<i64>, now: i64, stale_seconds: i64) -> bool {
    match enqueued_at {
        Some(enqueued_at) => saturated(now - enqueued_at) >= stale_seconds,
        None => false,
    }
}

/// Whether a response that was enqueued at a known time has waited for `stale_seconds`.
pub fn is_stale_enqueued(enqueued_at: Option<i64>, now: i64, stale_seconds: i64) -> (answer: bool)
    ensures
        answer == is_stale(enqueued_at, now, stale_seconds),
{
    match enqueued_at {
        Some(enqueued_at) => {
            let waited: i128 = now as i128 - enqueued_at as i128;
            let waited: i64 = if waited > i64::MAX as i128 {
                i64::MAX
            } else if waited < i64::MIN as i128 {
                i64::MIN
            } else {
                waited as i64
            };
            waited >= stale_seconds
        },
        None => false,
    }
}

/// Whether two lists of documents are equal to `serde_json`.
pub open spec fn all_alike(left: Seq<Json>, right: Seq<Json>) -> bool {
    left.len() == right.len() && forall|i: int|
        0 <= i < left.len() ==> alike(#[trigger] left[i], right[i])
}

/// Whether two documents that may be absent are equal to `serde_json`.
pub open spec fn options_alike(left: Option<Json>, right: Option<Json>) -> bool {
    match (left, right) {
        (Some(left), Some(right)) => alike(left, right),
        (None, None) => true,
        _ => false,
    }
}

/// Whether two records are equal, their documents as `serde_json` compares them.
pub open spec fn records_alike(left: RecordView, right: RecordView) -> bool {
    &&& left.upstream == right.upstream
    &&& alike(left.response, right.response)
    &&& all_alike(left.input, right.input)
    &&& options_alike(left.pending_upstream_request, right.pending_upstream_request)
    &&& left.upstream_authorization == right.upstream_authorization
    &&& left.enqueued_at == right.enqueued_at
}

fn same_values(left: &Vec<serde_json::Value>, right: &Vec<serde_json::Value>) -> (same: bool)
    ensures
        same == all_alike(documents_of(left@), documents_of(right@)),
{
    let ghost lefts = documents_of(left@);
    let ghost rights = documents_of(right@);
    if left.len() != right.len() {
        return false;
    }
    for i in 0..left.len()
        invariant
            left.len() == right.len(),
            lefts == documents_of(left@),
            rights == documents_of(right@),
            forall|j: int| 0 <= j < i ==> alike(#[trigger] lefts[j], rights[j]),
    {
        if !same_value(&left[i], &right[i]) {
            assert(!alike(lefts[i as int], rights[i as int]));
            return false;
        }
    }
    true
}

/// Whether two records are equal.
pub fn same_record(left: &StoredResponse, right: &StoredResponse) -> (same: bool)
    ensures
        same == records_alike(left@, right@),
{
    let same_pending = match (&left.pending_upstream_request, &right.pending_upstream_request) {
        (Some(left), Some(right)) => same_value(left, right),
        (None, None) => true,
        _ => false,
    };
    let same_authorization = match (&left.upstream_authorization, &right.upstream_authorization) {
        (Some(left), Some(right)) => *left == *right,
        (None, None) => true,
        _ => false,
    };
    let same_time = match (left.enqueued_at, right.enqueued_at) {
        (Some(left), Some(right)) => left == right,
        (None, None) => true,
        _ => false,
    };
    left.upstream == right.upstream && same_value(&left.response, &right.response) && same_values(
        &left.input,
        &right.input,
    ) && same_pending && same_authorization && same_time
}

/// The names of fields and of states differ from each other.
pub(crate) proof fn lemma_names_differ()
    ensures
        "id"@ != "status"@,
        "id"@ != "background"@,
        "status"@ != "background"@,
        "object"@ != "id"@,
        "object"@ != "status"@,
        "object"@ != "background"@,
        "model"@ != "status"@,
        "model"@ != "id"@,
        "output"@ != "status"@,
        "output"@ != "id"@,
        "input"@ != "status"@,
        "input"@ != "id"@,
        "error"@ != "status"@,
        "error"@ != "id"@,
        "deleted"@ != "status"@,
        "deleted"@ != "id"@,
        "store"@ != "background"@,
        "store"@ != "previous_response_id"@,
        "queued"@ != "in_progress"@,
        "queued"@ != "completed"@,
        "queued"@ != "failed"@,
        "queued"@ != "cancelled"@,
        "queued"@ != "deleted"@,
        "in_progress"@ != "completed"@,
        "in_progress"@ != "failed"@,
        "in_progress"@ != "cancelled"@,
        "in_progress"@ != "deleted"@,
{
    reveal_strlit("id");
    reveal_strlit("status");
    reveal_strlit("background");
    reveal_strlit("object");
    reveal_strlit("model");
    reveal_strlit("output");
    reveal_strlit("input");
    reveal_strlit("error");
    reveal_strlit("deleted");
    reveal_strlit("store");
    reveal_strlit("previous_response_id");
    reveal_strlit("queued");
    reveal_strlit("in_progress");
    reveal_strlit("completed");
    reveal_strlit("failed");
    reveal_strlit("cancelled");
    assert("id"@.len() == 2);
    assert("status"@.len() == 6);
    assert("background"@.len() == 10);
    assert("object"@.len() == 6);
    assert("model"@.len() == 5);
    assert("output"@.len() == 6);
    assert("input"@.len() == 5);
    assert("error"@.len() == 5);
    assert("deleted"@.len() == 7);
    assert("store"@.len() == 5);
    assert("previous_response_id"@.len() == 20);
    assert("queued"@.len() == 6);
    assert("in_progress"@.len() == 11);
    assert("completed"@.len() == 9);
    assert("failed"@.len() == 6);
    assert("cancelled"@.len() == 9);
    assert("object"@[0] != "status"@[0]);
    assert("output"@[0] != "status"@[0]);
    assert("queued"@[0] != "failed"@[0]);
}

/// Different responses have different keys.
pub proof fn store_keys_are_distinct(prefix: Seq<char>, left: Seq<char>, right: Seq<char>)
    ensures
        store_key(prefix, left) == store_key(prefix, right) <==> left == right,
{
    let start = (prefix + ":"@).len() as int;
    assert(store_key(prefix, left).skip(start) == left);
    assert(store_key(prefix, right).skip(start) == right);
}

/// Different consumer groups have different autoclaim cursors.
pub proof fn cursor_keys_are_distinct(stream_key: Seq<char>, left: Seq<char>, right: Seq<char>)
    ensures
        cursor_key(stream_key, left) == cursor_key(stream_key, right) <==> left == right,
{
    let start = (stream_key + ":meta:autoclaim:"@).len() as int;
    assert(cursor_key(stream_key, left).skip(start) == left);
    assert(cursor_key(stream_key, right).skip(start) == right);
}

/// The ID that a queued response is built with is found in it, if it begins as a response ID
/// does.
pub proof fn queued_response_has_its_id(response_id: Seq<char>, model: Seq<char>, request: Json)
    ensures
        has_prefix(response_id, "resp_"@) ==> response_id_in(
            queued_response(response_id, model, request),
        ) == Some(response_id),
{
    lemma_names_differ();
}

/// A response ID that is made of a UUID is recognised as one.
pub proof fn made_ids_are_response_ids(uuid: Seq<char>)
    ensures
        has_prefix("resp_"@ + uuid, "resp_"@),
{
    assert(("resp_"@ + uuid).subrange(0, "resp_"@.len() as int) == "resp_"@);
}

/// A record with a queued response is in flight, may go stale and has not reached a final state;
/// a worker may claim it where the request for it is there.
pub proof fn queued_records_wait(
    record: RecordView,
    response_id: Seq<char>,
    model: Seq<char>,
    request: Json,
)
    requires
        record.response == queued_response(response_id, model, request),
    ensures
        record.is_in_flight(),
        record.may_go_stale(),
        !record.is_terminal(),
        !record.is_in_progress(),
        record.is_claimable() <==> record.pending_upstream_request is Some,
{
    lemma_names_differ();
}

/// No response is in two of the states at once, and one that is claimable or in progress is in
/// flight.
pub proof fn states_exclude_each_other(record: RecordView)
    ensures
        !(record.is_terminal() && record.is_claimable()),
        !(record.is_terminal() && record.is_in_progress()),
        !(record.is_claimable() && record.is_in_progress()),
        record.is_claimable() || record.is_in_progress() ==> record.is_in_flight(),
        record.is_deleted() ==> record.is_terminal(),
{
    lemma_names_differ();
}

/// The upstream request asks neither for background processing nor for an earlier response, is not
/// stored, and agrees with the client's request on everything else.
pub proof fn upstream_request_is_synchronous(request: Json)
    requires
        request is Object,
    ensures
        upstream_request(request).field("background"@) is None,
        upstream_request(request).field("previous_response_id"@) is None,
        upstream_request(request).field("store"@) == Some(Json::Bool(false)),
        forall|key: Seq<char>|
            key != "background"@ && key != "previous_response_id"@ && key != "store"@
                ==> #[trigger] upstream_request(request).field(key) == request.field(key),
{
    lemma_names_differ();
}

/// Building the upstream request of an upstream request changes nothing.
pub proof fn upstream_request_is_idempotent(request: Json)
    ensures
        upstream_request(upstream_request(request)) == upstream_request(request),
{
    lemma_names_differ();
    if let Json::Object(fields) = request {
        let once = upstream_request(request)->Object_0;
        let twice = upstream_request(upstream_request(request))->Object_0;
        assert(once == twice);
    }
}

/// A document is equal to itself.
pub proof fn alike_is_reflexive(document: Json)
    ensures
        alike(document, document),
    decreases document,
{
    match document {
        Json::Array(items) => {
            assert forall|i: int| 0 <= i < items.len() implies alike(
                #[trigger] items[i],
                items[i],
            ) by {
                alike_is_reflexive(items[i]);
            }
        },
        Json::Object(fields) => {
            assert forall|key: Seq<char>| fields.contains_key(key) implies alike(
                #[trigger] fields[key],
                fields[key],
            ) by {
                alike_is_reflexive(fields[key]);
            }
        },
        _ => {},
    }
}

/// A record is equal to itself.
pub proof fn records_alike_is_reflexive(record: RecordView)
    ensures
        records_alike(record, record),
{
    alike_is_reflexive(record.response);
    assert forall|i: int| 0 <= i < record.input.len() implies alike(
        #[trigger] record.input[i],
        record.input[i],
    ) by {
        alike_is_reflexive(record.input[i]);
    }
    if let Some(request) = record.pending_upstream_request {
        alike_is_reflexive(request);
    }
}

} // verus!

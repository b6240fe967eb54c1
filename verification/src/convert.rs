//! Conversion between stored responses and their messages, and from store errors to statuses.

use vstd::prelude::*;

use crate::client::{received_job, ClientErrorView};
use crate::error::{ErrorView, StoreError};
use crate::json::{json_of, json_text, parse_json, parsed_json, write_json, Json, MAX_DEPTH};
use crate::json::documents_of;
use crate::model::{
    BackgroundJob, JobView, PendingBackgroundJob, PendingJobView, RecordView, StoredResponse,
};
use crate::proto::{JobMessage, PendingJobMessage, StoredMessage};
use crate::status::{Code, Status, StatusView};
use crate::text::{contains_text, copy_text_option, is_empty_text};
use crate::text::occurs_in;

verus! {

/// What the JSON reader makes of a text: a value, or its message.
pub type Parsed = Result<serde_json::Value, String>;

/// A reading as a mathematical value.
pub open spec fn reading(parsed: Parsed) -> Result<Json, Seq<char>> {
    match parsed {
        Ok(value) => Ok(json_of(value)),
        Err(message) => Err(message@),
    }
}

/// The readings of a list.
pub open spec fn readings(parsed: Seq<Parsed>) -> Seq<Result<Json, Seq<char>>> {
    parsed.map_values(|parsed: Parsed| reading(parsed))
}

/// The reading of a text that may be absent.
pub open spec fn reading_option(parsed: Option<Parsed>) -> Option<Result<Json, Seq<char>>> {
    match parsed {
        Some(parsed) => Some(reading(parsed)),
        None => None,
    }
}

/// The documents of a list of readings, or the message of the first that failed.
pub open spec fn collected(readings: Seq<Result<Json, Seq<char>>>) -> Result<Seq<Json>, Seq<char>>
    decreases readings.len(),
{
    if readings.len() == 0 {
        Ok(Seq::empty())
    } else {
        match (collected(readings.drop_last()), readings.last()) {
            (Err(message), _) => Err(message),
            (Ok(_), Err(message)) => Err(message),
            (Ok(documents), Ok(document)) => Ok(documents.push(document)),
        }
    }
}

/// Collects the values of a list of readings.
pub fn collect_values(parsed: &Vec<Parsed>) -> (values: Result<Vec<serde_json::Value>, String>)
    ensures
        match values {
            Ok(values) => collected(readings(parsed@)) == Ok::<Seq<Json>, Seq<char>>(
                documents_of(values@),
            ),
            Err(message) => collected(readings(parsed@)) == Err::<Seq<Json>, Seq<char>>(message@),
        },
{
    let ghost all = readings(parsed@);
    let mut values: Vec<serde_json::Value> = Vec::new();
    assert(documents_of(values@) == Seq::<Json>::empty());
    for i in 0..parsed.len()
        invariant
            all == readings(parsed@),
            collected(all.take(i as int)) == Ok::<Seq<Json>, Seq<char>>(documents_of(values@)),
    {
        proof {
            assert(all.take(i + 1).drop_last() == all.take(i as int));
            assert(all.take(i + 1).last() == reading(parsed@[i as int]));
        }
        match &parsed[i] {
            Ok(value) => {
                let ghost before = values@;
                let copy = value.clone();
                values.push(copy);
                assert(documents_of(values@) == documents_of(before).push(json_of(copy)));
            },
            Err(message) => {
                proof {
                    lemma_first_failure_decides(all, i as int);
                }
                return Err(message.clone());
            },
        }
    }
    assert(all.take(all.len() as int) == all);
    Ok(values)
}

/// The first reading that failed decides, whatever follows it.
proof fn lemma_first_failure_decides(all: Seq<Result<Json, Seq<char>>>, at: int)
    requires
        0 <= at < all.len(),
        collected(all.take(at)) is Ok,
        all[at] is Err,
    ensures
        collected(all) == Err::<Seq<Json>, Seq<char>>(all[at]->Err_0),
    decreases all.len(),
{
    if at == all.len() - 1 {
        assert(all.drop_last() == all.take(at));
    } else {
        assert(all.drop_last().take(at) == all.take(at));
        lemma_first_failure_decides(all.drop_last(), at);
    }
}

/// Which part of a record could not be read or written as JSON, and why, as a mathematical value.
pub enum FaultView {
    Response(Seq<char>),
    Input(Seq<char>),
    PendingRequest(Seq<char>),
}

/// The record that a message and the readings of its texts make, or the first that failed.
pub open spec fn assembled(
    message: StoredMessage,
    response: Result<Json, Seq<char>>,
    input: Seq<Result<Json, Seq<char>>>,
    pending: Option<Result<Json, Seq<char>>>,
) -> Result<RecordView, FaultView> {
    match (response, collected(input), pending) {
        (Err(err), _, _) => Err(FaultView::Response(err)),
        (Ok(_), Err(err), _) => Err(FaultView::Input(err)),
        (Ok(_), Ok(_), Some(Err(err))) => Err(FaultView::PendingRequest(err)),
        (Ok(response), Ok(input), pending) => Ok(
            RecordView {
                upstream: message.upstream,
                response,
                input,
                pending_upstream_request: match pending {
                    Some(Ok(request)) => Some(request),
                    _ => None,
                },
                upstream_authorization: message.upstream_authorization,
                enqueued_at: message.enqueued_at,
            },
        ),
    }
}

/// Which part of a record could not be read or written as JSON, and why.
#[derive(Debug, PartialEq, Eq)]
pub enum JsonFault {
    /// The response.
    Response(String),
    /// An item of the input.
    Input(String),
    /// The pending request.
    PendingRequest(String),
}

impl View for JsonFault {
    type V = FaultView;

    open spec fn view(&self) -> FaultView {
        match *self {
            JsonFault::Response(message) => FaultView::Response(message@),
            JsonFault::Input(message) => FaultView::Input(message@),
            JsonFault::PendingRequest(message) => FaultView::PendingRequest(message@),
        }
    }
}

/// Makes a record of a message and the readings of its texts.
pub fn assemble_record(
    record: &crate::proto::StoredResponse,
    response: Parsed,
    input: Vec<Parsed>,
    pending: Option<Parsed>,
) -> (result: Result<StoredResponse, JsonFault>)
    ensures
        match result {
            Ok(core) => assembled(
                record@,
                reading(response),
                readings(input@),
                reading_option(pending),
            ) == Ok::<RecordView, FaultView>(core@),
            Err(err) => assembled(
                record@,
                reading(response),
                readings(input@),
                reading_option(pending),
            ) == Err::<RecordView, FaultView>(err@),
        },
{
    let response = match response {
        Ok(response) => response,
        Err(message) => return Err(JsonFault::Response(message)),
    };
    let input = match collect_values(&input) {
        Ok(input) => input,
        Err(message) => return Err(JsonFault::Input(message)),
    };
    let pending_upstream_request = match pending {
        Some(Ok(request)) => Some(request),
        Some(Err(message)) => return Err(JsonFault::PendingRequest(message)),
        None => None,
    };
    Ok(
        StoredResponse {
            upstream: record.upstream.clone(),
            response,
            input,
            pending_upstream_request,
            upstream_authorization: copy_text_option(&record.upstream_authorization),
            enqueued_at: record.enqueued_at,
        },
    )
}

/// The reading of a pending request: an empty text counts as absent.
pub open spec fn pending_reading(text: Option<Seq<char>>) -> Option<Result<Json, Seq<char>>> {
    match text {
        Some(text) => if text.len() > 0 {
            Some(parsed_json(text))
        } else {
            None
        },
        None => None,
    }
}

/// The record that a message stands for, or which of its texts cannot be read.
pub open spec fn decoded(message: StoredMessage) -> Result<RecordView, FaultView> {
    assembled(
        message,
        parsed_json(message.response_json),
        message.input_json.map_values(|text: Seq<char>| parsed_json(text)),
        pending_reading(message.pending_upstream_request_json),
    )
}

/// Reads a message as a record.
pub fn decode_record(record: &crate::proto::StoredResponse) -> (result: Result<
    StoredResponse,
    JsonFault,
>)
    ensures
        match result {
            Ok(core) => decoded(record@) == Ok::<RecordView, FaultView>(core@),
            Err(err) => decoded(record@) == Err::<RecordView, FaultView>(err@),
        },
{
    let response = parse_json(record.response_json.as_str());
    let mut input: Vec<Parsed> = Vec::new();
    for i in 0..record.input_json.len()
        invariant
            input@.len() == i,
            forall|j: int|
                0 <= j < i ==> reading(#[trigger] input@[j]) == parsed_json(
                    record.input_json@[j]@,
                ),
    {
        input.push(parse_json(record.input_json[i].as_str()));
    }
    let pending = match &record.pending_upstream_request_json {
        Some(text) => if is_empty_text(text.as_str()) {
            None
        } else {
            Some(parse_json(text.as_str()))
        },
        None => None,
    };
    assert(readings(input@) == record@.input_json.map_values(
        |text: Seq<char>| parsed_json(text),
    ));
    assemble_record(record, response, input, pending)
}

impl RecordView {
    /// Whether reading gives back every JSON document of the record once it was written.
    pub open spec fn is_plain(self) -> bool {
        &&& self.response.is_plain(MAX_DEPTH as nat)
        &&& forall|i: int|
            0 <= i < self.input.len() ==> (#[trigger] self.input[i]).is_plain(MAX_DEPTH as nat)
        &&& self.pending_upstream_request matches Some(request) ==> request.is_plain(
            MAX_DEPTH as nat,
        )
    }
}

/// The message that stands for a record.
pub open spec fn encoded(response_id: Seq<char>, record: RecordView) -> StoredMessage {
    StoredMessage {
        response_id,
        upstream: record.upstream,
        response_json: json_text(record.response),
        input_json: record.input.map_values(|document: Json| json_text(document)),
        pending_upstream_request_json: match record.pending_upstream_request {
            Some(request) => Some(json_text(request)),
            None => None,
        },
        upstream_authorization: record.upstream_authorization,
        enqueued_at: record.enqueued_at,
    }
}

/// Readings that succeed give their documents.
proof fn lemma_collected(documents: Seq<Json>)
    ensures
        collected(
            documents.map_values(|document: Json| Ok::<Json, Seq<char>>(document)),
        ) == Ok::<Seq<Json>, Seq<char>>(documents),
    decreases documents.len(),
{
    let all = documents.map_values(|document: Json| Ok::<Json, Seq<char>>(document));
    if documents.len() > 0 {
        lemma_collected(documents.drop_last());
        assert(all.drop_last() == documents.drop_last().map_values(
            |document: Json| Ok::<Json, Seq<char>>(document),
        ));
        assert(documents.drop_last().push(documents.last()) == documents);
    } else {
        assert(documents == Seq::<Json>::empty());
    }
}

/// Writes a record as a message. Reading the message gives the record back where it is plain: its
/// documents hold no number but whole ones, are not nested too deeply, and no object begins with
/// the field name that `serde_json` reserves.
pub fn encode_record(response_id: &str, record: &StoredResponse) -> (result: Result<
    crate::proto::StoredResponse,
    JsonFault,
>)
    ensures
        match result {
            Ok(message) => {
                &&& message@ == encoded(response_id@, record@)
                &&& record@.is_plain() ==> decoded(message@) == Ok::<RecordView, FaultView>(record@)
            },
            Err(_) => false,
        },
{
    let response_json = match write_json(&record.response) {
        Ok(text) => text,
        Err(message) => return Err(JsonFault::Response(message)),
    };
    let ghost documents = record@.input;
    let mut input_json: Vec<String> = Vec::new();
    for i in 0..record.input.len()
        invariant
            documents == documents_of(record.input@),
            input_json@.len() == i,
            forall|j: int|
                0 <= j < i ==> (#[trigger] input_json@[j])@ == json_text(documents[j]) && (
                documents[j].is_plain(MAX_DEPTH as nat) ==> parsed_json(input_json@[j]@) == Ok::<
                    Json,
                    Seq<char>,
                >(documents[j])),
    {
        match write_json(&record.input[i]) {
            Ok(text) => input_json.push(text),
            Err(message) => return Err(JsonFault::Input(message)),
        }
    }
    let pending_upstream_request_json = match &record.pending_upstream_request {
        Some(request) => match write_json(request) {
            Ok(text) => Some(text),
            Err(message) => return Err(JsonFault::PendingRequest(message)),
        },
        None => None,
    };
    let message = crate::proto::StoredResponse {
        response_id: response_id.to_owned(),
        upstream: record.upstream.clone(),
        response_json,
        input_json,
        pending_upstream_request_json,
        upstream_authorization: copy_text_option(&record.upstream_authorization),
        enqueued_at: record.enqueued_at,
    };
    proof {
        assert(message@.input_json == encoded(response_id@, record@).input_json);
        if record@.is_plain() {
            lemma_collected(documents);
            assert(message@.input_json.map_values(|text: Seq<char>| parsed_json(text))
                == documents.map_values(|document: Json| Ok::<Json, Seq<char>>(document)));
        }
    }
    Ok(message)
}

/// The status for a message that cannot be read.
pub open spec fn read_fault_status(response_id: Seq<char>, why: FaultView) -> StatusView {
    StatusView {
        code: Code::InvalidArgument,
        message: match why {
            FaultView::Response(message) => "invalid response_json for "@ + response_id + ": "@
                + message,
            FaultView::Input(message) => "invalid input_json entry for "@ + response_id + ": "@
                + message,
            FaultView::PendingRequest(message) => "invalid pending_upstream_request_json for "@
                + response_id + ": "@ + message,
        },
    }
}

/// The status for a message that cannot be read.
pub fn status_of_read_fault(response_id: &str, why: JsonFault) -> (status: Status)
    ensures
        status@ == read_fault_status(response_id@, why@),
{
    match why {
        JsonFault::Response(message) => Status::invalid_argument(
            "invalid response_json for ".to_owned().concat(response_id).concat(": ").concat(
                message.as_str(),
            ),
        ),
        JsonFault::Input(message) => Status::invalid_argument(
            "invalid input_json entry for ".to_owned().concat(response_id).concat(": ").concat(
                message.as_str(),
            ),
        ),
        JsonFault::PendingRequest(message) => Status::invalid_argument(
            "invalid pending_upstream_request_json for ".to_owned().concat(response_id).concat(
                ": ",
            ).concat(message.as_str()),
        ),
    }
}

/// The status for a record that cannot be written.
pub open spec fn write_fault_status(response_id: Seq<char>, why: FaultView) -> StatusView {
    StatusView {
        code: Code::Internal,
        message: match why {
            FaultView::Response(message) => "failed to serialize response for "@ + response_id
                + ": "@ + message,
            FaultView::Input(message) => "failed to serialize input for "@ + response_id + ": "@
                + message,
            FaultView::PendingRequest(message) =>
                "failed to serialize pending_upstream_request for "@ + response_id + ": "@ + message,
        },
    }
}

/// The status for a record that cannot be written.
pub fn status_of_write_fault(response_id: &str, why: JsonFault) -> (status: Status)
    ensures
        status@ == write_fault_status(response_id@, why@),
{
    match why {
        JsonFault::Response(message) => Status::internal(
            "failed to serialize response for ".to_owned().concat(response_id).concat(": ").concat(
                message.as_str(),
            ),
        ),
        JsonFault::Input(message) => Status::internal(
            "failed to serialize input for ".to_owned().concat(response_id).concat(": ").concat(
                message.as_str(),
            ),
        ),
        JsonFault::PendingRequest(message) => Status::internal(
            "failed to serialize pending_upstream_request for ".to_owned().concat(
                response_id,
            ).concat(": ").concat(message.as_str()),
        ),
    }
}

/// Reads a client's message as a record.
pub fn proto_to_core(record: &crate::proto::StoredResponse) -> (result: Result<
    StoredResponse,
    Status,
>)
    ensures
        match result {
            Ok(core) => decoded(record@) == Ok::<RecordView, FaultView>(core@),
            Err(status) => decoded(record@) matches Err(why) && status@ == read_fault_status(
                record@.response_id,
                why,
            ),
        },
{
    match decode_record(record) {
        Ok(core) => Ok(core),
        Err(why) => Err(status_of_read_fault(record.response_id.as_str(), why)),
    }
}

/// Writes a record as a message for a client. Reading the message gives the record back where it
/// is plain: its documents hold no number but whole ones, are not nested too deeply, and no object
/// begins with the field name that `serde_json` reserves.
pub fn core_to_proto(response_id: &str, record: &StoredResponse) -> (result: Result<
    crate::proto::StoredResponse,
    Status,
>)
    ensures
        match result {
            Ok(message) => {
                &&& message@ == encoded(response_id@, record@)
                &&& record@.is_plain() ==> decoded(message@) == Ok::<RecordView, FaultView>(record@)
            },
            Err(_) => false,
        },
{
    match encode_record(response_id, record) {
        Ok(message) => Ok(message),
        Err(why) => Err(status_of_write_fault(response_id, why)),
    }
}

/// The message that stands for a job.
pub open spec fn encoded_job(job: JobView) -> JobMessage {
    JobMessage {
        stream_id: job.stream_id,
        response_id: job.response_id,
        record: Some(encoded(job.response_id, job.record)),
        autoclaimed: job.autoclaimed,
        idle_ms: job.idle_ms,
    }
}

/// Writes a job as a message for a worker. The worker receives the job as it is where
/// its record is plain (see `core_to_proto`).
pub fn core_job_to_proto(job: &BackgroundJob) -> (result: Result<
    crate::proto::BackgroundJob,
    Status,
>)
    ensures
        match result {
            Ok(message) => {
                &&& message@ == encoded_job(job@)
                &&& job@.record.is_plain() ==> received_job(message@) == Ok::<
                    JobView,
                    ClientErrorView,
                >(job@)
            },
            Err(_) => false,
        },
{
    let record = match core_to_proto(job.response_id.as_str(), &job.record) {
        Ok(record) => record,
        Err(status) => return Err(status),
    };
    Ok(
        crate::proto::BackgroundJob {
            stream_id: job.stream_id.clone(),
            response_id: job.response_id.clone(),
            record: Some(record),
            autoclaimed: job.autoclaimed,
            idle_ms: job.idle_ms,
        },
    )
}

/// The message that stands for a pending job.
pub open spec fn encoded_pending_job(job: PendingJobView) -> PendingJobMessage {
    PendingJobMessage {
        stream_id: job.stream_id,
        response_id: job.response_id,
        autoclaimed: job.autoclaimed,
        idle_ms: job.idle_ms,
    }
}

/// Writes a pending job as a message for a worker.
pub fn pending_job_to_proto(job: &PendingBackgroundJob) -> (message:
    crate::proto::PendingBackgroundJob)
    ensures
        message@ == encoded_pending_job(job@),
{
    crate::proto::PendingBackgroundJob {
        stream_id: job.stream_id.clone(),
        response_id: job.response_id.clone(),
        autoclaimed: job.autoclaimed,
        idle_ms: job.idle_ms,
    }
}

/// The status for an error of the store.
pub open spec fn error_status(err: ErrorView) -> StatusView {
    match err {
        ErrorView::NotFound(id) => StatusView {
            code: Code::NotFound,
            message: if occurs_in(id, "consumer group"@) {
                id
            } else {
                "response not found: "@ + id
            },
        },
        ErrorView::InvalidArgument(message) => StatusView { code: Code::InvalidArgument, message },
        ErrorView::Unavailable(message) => StatusView { code: Code::Unavailable, message },
        ErrorView::FailedPrecondition(message) => StatusView {
            code: Code::FailedPrecondition,
            message,
        },
        ErrorView::Storage(err) => StatusView {
            code: Code::Unavailable,
            message: "storage unavailable ("@ + err.kind() + "): "@ + err.message,
        },
        ErrorView::Serialization(message) => StatusView { code: Code::Internal, message },
    }
}

/// The status for an error of the store.
pub fn store_error_to_status(err: StoreError) -> (status: Status)
    ensures
        status@ == error_status(err@),
{
    match err {
        StoreError::NotFound(id) => if contains_text(id.as_str(), "consumer group") {
            Status::not_found(id)
        } else {
            Status::not_found("response not found: ".to_owned().concat(id.as_str()))
        },
        StoreError::InvalidArgument(message) => Status::invalid_argument(message),
        StoreError::Unavailable(message) => Status::unavailable(message),
        StoreError::FailedPrecondition(message) => Status::failed_precondition(message),
        StoreError::Storage(err) => Status::unavailable(
            "storage unavailable (".to_owned().concat(err.kind()).concat("): ").concat(
                err.message.as_str(),
            ),
        ),
        StoreError::Serialization(message) => Status::internal(message),
    }
}

/// Different errors of the store are told apart by their codes: a missing response, a bad request,
/// a state that forbids the request and a corrupted record.
pub proof fn codes_tell_errors_apart(err: ErrorView)
    ensures
        error_status(err).code == Code::NotFound <==> err is NotFound,
        error_status(err).code == Code::InvalidArgument <==> err is InvalidArgument,
        error_status(err).code == Code::FailedPrecondition <==> err is FailedPrecondition,
        error_status(err).code == Code::Internal <==> err is Serialization,
        error_status(err).code == Code::Unavailable <==> err is Unavailable || err is Storage,
{
}

} // verus!

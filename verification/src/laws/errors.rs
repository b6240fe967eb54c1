//! Laws on errors: what each one says to people, to clients and over HTTP.

use vstd::prelude::*;

use crate::convert::store_error_to_status;
use crate::error::{
    classify_error, is_busygroup, is_missing_stream, redis_error_kind, RedisFailure, StoreError,
};
use crate::error::{redis_io, redis_refusal, redis_text, redis_timeout};
use crate::metrics::{HttpStatus, StatsQueryError};
use crate::status::{Code, Status};

verus! {

/// Whether `part` stands somewhere in `text`.
pub open spec fn contains(text: Seq<char>, part: Seq<char>) -> bool {
    exists|at: int|
        0 <= at && at + part.len() <= text.len() && #[trigger] text.subrange(at, at + part.len())
            == part
}

/// The library's notion of occurrence is this one.
pub(crate) proof fn lemma_contains(text: Seq<char>, part: Seq<char>)
    ensures
        crate::text::occurs_in(text, part) <==> contains(text, part),
{
    if contains(text, part) {
        let at = choose|at: int|
            0 <= at && at + part.len() <= text.len() && #[trigger] text.subrange(
                at,
                at + part.len(),
            ) == part;
        assert(crate::text::stands_at(text, part, at));
    }
    if crate::text::occurs_in(text, part) {
        let at = choose|at: int| crate::text::stands_at(text, part, at);
        assert(text.subrange(at, at + part.len()) == part);
    }
}

/// Whether two failures are the same.
pub open spec fn same_failure(left: RedisFailure, right: RedisFailure) -> bool {
    &&& left.timeout == right.timeout
    &&& left.refusal == right.refusal
    &&& left.io == right.io
    &&& left.message@ == right.message@
}

/// Whether two errors are the same.
pub open spec fn same_error(left: StoreError, right: StoreError) -> bool {
    match (left, right) {
        (StoreError::NotFound(left), StoreError::NotFound(right)) => left@ == right@,
        (StoreError::InvalidArgument(left), StoreError::InvalidArgument(right)) => left@ == right@,
        (StoreError::Unavailable(left), StoreError::Unavailable(right)) => left@ == right@,
        (StoreError::FailedPrecondition(left), StoreError::FailedPrecondition(right)) => left@
            == right@,
        (StoreError::Storage(left), StoreError::Storage(right)) => same_failure(left, right),
        (StoreError::Serialization(left), StoreError::Serialization(right)) => left@ == right@,
        _ => false,
    }
}

/// A failure's view tells all that is known of the failure.
pub proof fn views_tell_failures_apart(left: RedisFailure, right: RedisFailure)
    ensures
        left@ == right@ <==> same_failure(left, right),
{
}

/// An error's view tells all that is known of the error.
pub proof fn views_tell_errors_apart(left: StoreError, right: StoreError)
    ensures
        left@ == right@ <==> same_error(left, right),
{
}

/// A status's view tells its code and its message.
pub proof fn views_tell_statuses_apart(left: Status, right: Status)
    ensures
        left@ == right@ <==> left.code == right.code && left.message@ == right.message@,
{
}

/// A copy of a failure is the same failure.
pub proof fn copied_failures_are_the_same(failure: &RedisFailure, copy: RedisFailure)
    requires
        call_ensures(RedisFailure::clone, (failure,), copy),
    ensures
        same_failure(*failure, copy),
{
}

/// A timeout is reported as such before anything else, then a refused connection, and then a busy
/// server by its message; everything else is another error.
pub proof fn error_kinds_are_told(
    timeout: bool,
    refusal: bool,
    message: &str,
    kind: &'static str,
)
    requires
        call_ensures(classify_error, (timeout, refusal, message), kind),
    ensures
        timeout ==> kind@ == "timeout"@,
        !timeout && refusal ==> kind@ == "connection_refused"@,
        !timeout && !refusal && contains(message@, "BUSY"@) ==> kind@ == "busy"@,
        !timeout && !refusal && !contains(message@, "BUSY"@) ==> kind@ == "other"@,
{
    lemma_contains(message@, "BUSY"@);
}

/// The kind of a failure is told by what is known of it.
pub proof fn failure_kinds_are_told(failure: &RedisFailure, kind: &'static str)
    requires
        call_ensures(RedisFailure::kind, (failure,), kind),
    ensures
        failure.timeout ==> kind@ == "timeout"@,
        !failure.timeout && failure.refusal ==> kind@ == "connection_refused"@,
        !failure.timeout && !failure.refusal && contains(failure.message@, "BUSY"@) ==> kind@
            == "busy"@,
        !failure.timeout && !failure.refusal && !contains(failure.message@, "BUSY"@) ==> kind@
            == "other"@,
{
    lemma_contains(failure.message@, "BUSY"@);
}

/// The kind of a Redis error is told by the error: a timeout and a refused connection in any case,
/// a busy server by the message as far as that is the error's own.
pub proof fn redis_error_kinds_are_told(err: &redis::RedisError, kind: &'static str)
    requires
        call_ensures(redis_error_kind, (err,), kind),
    ensures
        redis_timeout(*err) ==> kind@ == "timeout"@,
        !redis_timeout(*err) && redis_refusal(*err) ==> kind@ == "connection_refused"@,
        !redis_timeout(*err) && !redis_refusal(*err) ==> kind@ == "busy"@ || kind@ == "other"@,
        !redis_timeout(*err) && !redis_refusal(*err) && !redis_io(*err) ==> (kind@ == "busy"@
            <==> contains(redis_text(*err), "BUSY"@)),
{
    lemma_contains(redis_text(*err), "BUSY"@);
    reveal_strlit("busy");
    reveal_strlit("other");
    assert("busy"@.len() != "other"@.len());
}

/// What is known of a Redis error is what the error says; only the message of an I/O error is left
/// open.
pub proof fn failures_stand_for_their_errors(err: &redis::RedisError, failure: RedisFailure)
    requires
        call_ensures(RedisFailure::of, (err,), failure),
    ensures
        failure.timeout == redis_timeout(*err),
        failure.refusal == redis_refusal(*err),
        failure.io == redis_io(*err),
        !redis_io(*err) ==> failure.message@ == redis_text(*err),
{
}

/// A failure reports an existing consumer group exactly if its message holds `BUSYGROUP`.
pub proof fn existing_groups_are_told(err: &RedisFailure, answer: bool)
    requires
        call_ensures(is_busygroup, (err,), answer),
    ensures
        answer <==> contains(err.message@, "BUSYGROUP"@),
{
    lemma_contains(err.message@, "BUSYGROUP"@);
}

/// A failure reports a missing stream exactly if its message holds `no such key`.
pub proof fn missing_streams_are_told(err: &RedisFailure, answer: bool)
    requires
        call_ensures(is_missing_stream, (err,), answer),
    ensures
        answer <==> contains(err.message@, "no such key"@),
{
    lemma_contains(err.message@, "no such key"@);
}

/// An error's sentence says what kind of error it is and ends with its message.
pub proof fn sentences_carry_the_message(err: &StoreError, text: String)
    requires
        call_ensures(StoreError::message, (err,), text),
    ensures
        match *err {
            StoreError::NotFound(message) => text@ == "response not found: "@ + message@,
            StoreError::InvalidArgument(message) => text@ == "invalid request: "@ + message@,
            StoreError::Unavailable(message) => text@ == "storage unavailable: "@ + message@,
            StoreError::FailedPrecondition(message) => text@ == "failed precondition: "@ + message@,
            StoreError::Storage(failure) => text@ == "storage error: "@ + failure.message@,
            StoreError::Serialization(message) => text@ == "serialization error: "@ + message@,
        },
{
}

/// A client learns of each error by its own code, with the error's message; a missing response is
/// named as such, and a failure of Redis with its kind.
pub proof fn statuses_report_the_error(err: StoreError, status: Status)
    requires
        call_ensures(store_error_to_status, (err,), status),
    ensures
        match err {
            StoreError::NotFound(id) => status.code == Code::NotFound && (contains(
                id@,
                "consumer group"@,
            ) ==> status.message@ == id@) && (!contains(id@, "consumer group"@)
                ==> status.message@ == "response not found: "@ + id@),
            StoreError::InvalidArgument(message) => status.code == Code::InvalidArgument
                && status.message@ == message@,
            StoreError::Unavailable(message) => status.code == Code::Unavailable && status.message@
                == message@,
            StoreError::FailedPrecondition(message) => status.code == Code::FailedPrecondition
                && status.message@ == message@,
            StoreError::Serialization(message) => status.code == Code::Internal && status.message@
                == message@,
            StoreError::Storage(failure) => {
                &&& status.code == Code::Unavailable
                &&& failure.timeout ==> status.message@ == "storage unavailable ("@ + "timeout"@
                    + "): "@ + failure.message@
                &&& !failure.timeout && failure.refusal ==> status.message@
                    == "storage unavailable ("@ + "connection_refused"@ + "): "@ + failure.message@
                &&& !failure.timeout && !failure.refusal && contains(failure.message@, "BUSY"@)
                    ==> status.message@ == "storage unavailable ("@ + "busy"@ + "): "@
                    + failure.message@
                &&& !failure.timeout && !failure.refusal && !contains(failure.message@, "BUSY"@)
                    ==> status.message@ == "storage unavailable ("@ + "other"@ + "): "@
                    + failure.message@
            },
        },
{
    match err {
        StoreError::NotFound(id) => lemma_contains(id@, "consumer group"@),
        StoreError::Storage(failure) => lemma_contains(failure.message@, "BUSY"@),
        _ => {},
    }
}

/// A failure of Redis becomes an error of the store.
pub proof fn failures_become_errors(failure: RedisFailure, err: StoreError)
    requires
        call_ensures(StoreError::from, (failure,), err),
    ensures
        err matches StoreError::Storage(kept) && same_failure(kept, failure),
{
}

/// A status has the code and the message that it is made with.
pub proof fn statuses_are_made(
    code: Code,
    message: String,
    made: Status,
    invalid: Status,
    missing: Status,
    forbidden: Status,
    unavailable: Status,
    internal: Status,
)
    requires
        call_ensures(Status::new, (code, message), made),
        call_ensures(Status::invalid_argument, (message,), invalid),
        call_ensures(Status::not_found, (message,), missing),
        call_ensures(Status::failed_precondition, (message,), forbidden),
        call_ensures(Status::unavailable, (message,), unavailable),
        call_ensures(Status::internal, (message,), internal),
    ensures
        made.code == code && made.message@ == message@,
        invalid.code == Code::InvalidArgument && invalid.message@ == message@,
        missing.code == Code::NotFound && missing.message@ == message@,
        forbidden.code == Code::FailedPrecondition && forbidden.message@ == message@,
        unavailable.code == Code::Unavailable && unavailable.message@ == message@,
        internal.code == Code::Internal && internal.message@ == message@,
{
}

/// An error of a query has the status and the message that it is made with.
pub proof fn query_errors_are_made(status: HttpStatus, message: String, made: StatsQueryError)
    requires
        call_ensures(StatsQueryError::new, (status, message), made),
    ensures
        made.status == status,
        made.message@ == message@,
{
}

/// The number of an HTTP status is that of its name.
pub proof fn http_statuses_have_their_numbers(status: &HttpStatus, code: u16)
    requires
        call_ensures(HttpStatus::code, (status,), code),
    ensures
        *status == HttpStatus::BadRequest ==> code == 400,
        *status == HttpStatus::NotFound ==> code == 404,
        *status == HttpStatus::Conflict ==> code == 409,
        *status == HttpStatus::InternalServerError ==> code == 500,
        *status == HttpStatus::ServiceUnavailable ==> code == 503,
{
}

/// A query over HTTP learns of each error by a status, with the error's message.
pub proof fn queries_report_the_error(err: StoreError, mapped: StatsQueryError)
    requires
        call_ensures(StatsQueryError::from_store, (err,), mapped),
    ensures
        match err {
            StoreError::NotFound(message) => mapped.status == HttpStatus::NotFound
                && mapped.message@ == message@,
            StoreError::InvalidArgument(message) => mapped.status == HttpStatus::BadRequest
                && mapped.message@ == message@,
            StoreError::Unavailable(message) => mapped.status == HttpStatus::ServiceUnavailable
                && mapped.message@ == message@,
            StoreError::FailedPrecondition(message) => mapped.status == HttpStatus::Conflict
                && mapped.message@ == message@,
            StoreError::Serialization(message) => mapped.status == HttpStatus::InternalServerError
                && mapped.message@ == message@,
            StoreError::Storage(failure) => mapped.status == HttpStatus::ServiceUnavailable
                && mapped.message@ == "storage unavailable: "@ + failure.message@,
        },
{
}

} // verus!

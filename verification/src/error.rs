//! Errors of the store and of its queue.

use vstd::prelude::*;

use crate::text::{contains_text, occurs_in};

verus! {

/// `redis::RedisError`, the errors of the Redis client.
#[verifier::external_type_specification]
#[verifier::external_body]
pub struct ExRedisError(redis::RedisError);

/// Whether a Redis error was caused by an I/O timeout.
pub uninterp spec fn redis_timeout(err: redis::RedisError) -> bool;

/// Whether a Redis error was caused by a refused connection.
pub uninterp spec fn redis_refusal(err: redis::RedisError) -> bool;

/// Whether a Redis error comes from input or output.
pub uninterp spec fn redis_io(err: redis::RedisError) -> bool;

/// The message of a Redis error that does not come from input or output.
pub uninterp spec fn redis_text(err: redis::RedisError) -> Seq<char>;

/// `redis::RedisError::is_timeout` depends on the error alone.
pub assume_specification[ redis::RedisError::is_timeout ](err: &redis::RedisError) -> (answer: bool)
    ensures
        answer == redis_timeout(*err),
;

/// `redis::RedisError::is_connection_refusal` depends on the error alone.
pub assume_specification[ redis::RedisError::is_connection_refusal ](err: &redis::RedisError) -> (answer:
    bool)
    ensures
        answer == redis_refusal(*err),
;

/// `redis::RedisError::is_io_error` depends on the error alone.
pub assume_specification[ redis::RedisError::is_io_error ](err: &redis::RedisError) -> (answer: bool)
    ensures
        answer == redis_io(*err),
;

/// The `Display` form of `redis::RedisError` depends on the error alone, unless it is an I/O error:
/// then the operating system may word it, and nothing is promised.
#[verifier::external_body]
fn redis_error_text(err: &redis::RedisError) -> (text: String)
    ensures
        !redis_io(*err) ==> text@ == redis_text(*err),
{
    err.to_string()
}

/// The kind of an error with these properties, for logging and status messages.
pub open spec fn error_kind(timeout: bool, refusal: bool, message: Seq<char>) -> Seq<char> {
    if timeout {
        "timeout"@
    } else if refusal {
        "connection_refused"@
    } else if occurs_in(message, "BUSY"@) {
        "busy"@
    } else {
        "other"@
    }
}

/// Classifies an error by its properties, for logging and status messages.
pub fn classify_error(timeout: bool, refusal: bool, message: &str) -> (kind: &'static str)
    ensures
        kind@ == error_kind(timeout, refusal, message@),
{
    if timeout {
        "timeout"
    } else if refusal {
        "connection_refused"
    } else if contains_text(message, "BUSY") {
        "busy"
    } else {
        "other"
    }
}

/// Classifies a Redis error for logging and status messages. Whether it timed out or was refused
/// decides first, else its message does; of an I/O error's message nothing is promised.
pub fn redis_error_kind(err: &redis::RedisError) -> (kind: &'static str)
    ensures
        exists|message: Seq<char>|
            kind@ == #[trigger] error_kind(redis_timeout(*err), redis_refusal(*err), message),
        !redis_io(*err) ==> kind@ == error_kind(
            redis_timeout(*err),
            redis_refusal(*err),
            redis_text(*err),
        ),
{
    RedisFailure::of(err).kind()
}

/// What the rules know of a failure of Redis.
#[derive(Debug, PartialEq, Eq)]
pub struct RedisFailure {
    /// Whether the operation timed out.
    pub timeout: bool,
    /// Whether the connection was refused.
    pub refusal: bool,
    /// Whether it is an I/O error, whose message the operating system may word.
    pub io: bool,
    /// The error's message.
    pub message: String,
}

/// A failure as a mathematical value.
#[verifier::ext_equal]
pub struct FailureView {
    pub timeout: bool,
    pub refusal: bool,
    pub io: bool,
    pub message: Seq<char>,
}

impl View for RedisFailure {
    type V = FailureView;

    open spec fn view(&self) -> FailureView {
        FailureView {
            timeout: self.timeout,
            refusal: self.refusal,
            io: self.io,
            message: self.message@,
        }
    }
}

impl Clone for RedisFailure {
    fn clone(&self) -> (copy: Self)
        ensures
            copy@ == self@,
    {
        RedisFailure {
            timeout: self.timeout,
            refusal: self.refusal,
            io: self.io,
            message: self.message.clone(),
        }
    }
}

impl FailureView {
    /// The kind of the failure.
    pub open spec fn kind(self) -> Seq<char> {
        error_kind(self.timeout, self.refusal, self.message)
    }

    /// Whether the failure reports that the consumer group exists already.
    pub open spec fn is_busygroup(self) -> bool {
        occurs_in(self.message, "BUSYGROUP"@)
    }

    /// Whether the failure reports that the stream does not exist.
    pub open spec fn is_missing_stream(self) -> bool {
        occurs_in(self.message, "no such key"@)
    }

    /// Whether this is a failure by that error. The message is that of the error; only of an I/O
    /// error it is left open.
    pub open spec fn stands_for(self, err: redis::RedisError) -> bool {
        &&& self.timeout == redis_timeout(err)
        &&& self.refusal == redis_refusal(err)
        &&& self.io == redis_io(err)
        &&& !redis_io(err) ==> self.message == redis_text(err)
    }
}

impl RedisFailure {
    /// What the rules know of a Redis error. Of an I/O error's message nothing is promised.
    pub fn of(err: &redis::RedisError) -> (failure: RedisFailure)
        ensures
            failure@.stands_for(*err),
    {
        RedisFailure {
            timeout: err.is_timeout(),
            refusal: err.is_connection_refusal(),
            io: err.is_io_error(),
            message: redis_error_text(err),
        }
    }

    /// Classifies the failure for logging and status messages.
    pub fn kind(&self) -> (kind: &'static str)
        ensures
            kind@ == self@.kind(),
    {
        classify_error(self.timeout, self.refusal, self.message.as_str())
    }
}

/// Whether a failure reports that the consumer group exists already.
pub fn is_busygroup(err: &RedisFailure) -> (answer: bool)
    ensures
        answer == err@.is_busygroup(),
{
    contains_text(err.message.as_str(), "BUSYGROUP")
}

/// Whether a failure reports that the stream does not exist.
pub fn is_missing_stream(err: &RedisFailure) -> (answer: bool)
    ensures
        answer == err@.is_missing_stream(),
{
    contains_text(err.message.as_str(), "no such key")
}

/// A reply of Redis, its failure as a mathematical value.
pub open spec fn reply_of<T>(reply: Result<T, RedisFailure>) -> Result<T, FailureView> {
    match reply {
        Ok(value) => Ok(value),
        Err(err) => Err(err@),
    }
}

/// Why a store operation failed.
#[derive(Debug)]
pub enum StoreError {
    /// The response, or the consumer group, does not exist.
    NotFound(String),
    /// The request cannot be served as it stands.
    InvalidArgument(String),
    /// The store cannot serve the request for now.
    Unavailable(String),
    /// The stored response is not in a state that allows the operation.
    FailedPrecondition(String),
    /// Redis failed.
    Storage(RedisFailure),
    /// A record could not be written as text or read from it.
    Serialization(String),
}

impl From<RedisFailure> for StoreError {
    fn from(err: RedisFailure) -> (wrapped: StoreError) {
        StoreError::Storage(err)
    }
}

impl vstd::std_specs::convert::FromSpecImpl<RedisFailure> for StoreError {
    open spec fn obeys_from_spec() -> bool {
        true
    }

    open spec fn from_spec(err: RedisFailure) -> StoreError {
        StoreError::Storage(err)
    }
}

/// A store error as a mathematical value.
pub enum ErrorView {
    NotFound(Seq<char>),
    InvalidArgument(Seq<char>),
    Unavailable(Seq<char>),
    FailedPrecondition(Seq<char>),
    Storage(FailureView),
    Serialization(Seq<char>),
}

impl View for StoreError {
    type V = ErrorView;

    open spec fn view(&self) -> ErrorView {
        match *self {
            StoreError::NotFound(message) => ErrorView::NotFound(message@),
            StoreError::InvalidArgument(message) => ErrorView::InvalidArgument(message@),
            StoreError::Unavailable(message) => ErrorView::Unavailable(message@),
            StoreError::FailedPrecondition(message) => ErrorView::FailedPrecondition(message@),
            StoreError::Storage(err) => ErrorView::Storage(err@),
            StoreError::Serialization(message) => ErrorView::Serialization(message@),
        }
    }
}

impl ErrorView {
    /// The error as a sentence.
    pub open spec fn sentence(self) -> Seq<char> {
        match self {
            ErrorView::NotFound(message) => "response not found: "@ + message,
            ErrorView::InvalidArgument(message) => "invalid request: "@ + message,
            ErrorView::Unavailable(message) => "storage unavailable: "@ + message,
            ErrorView::FailedPrecondition(message) => "failed precondition: "@ + message,
            ErrorView::Storage(err) => "storage error: "@ + err.message,
            ErrorView::Serialization(message) => "serialization error: "@ + message,
        }
    }
}

impl StoreError {
    /// The error as a sentence.
    pub fn message(&self) -> (text: String)
        ensures
            text@ == self@.sentence(),
    {
        match self {
            StoreError::NotFound(message) => "response not found: ".to_owned().concat(
                message.as_str(),
            ),
            StoreError::InvalidArgument(message) => "invalid request: ".to_owned().concat(
                message.as_str(),
            ),
            StoreError::Unavailable(message) => "storage unavailable: ".to_owned().concat(
                message.as_str(),
            ),
            StoreError::FailedPrecondition(message) => "failed precondition: ".to_owned().concat(
                message.as_str(),
            ),
            StoreError::Storage(err) => "storage error: ".to_owned().concat(
                err.message.as_str(),
            ),
            StoreError::Serialization(message) => "serialization error: ".to_owned().concat(
                message.as_str(),
            ),
        }
    }
}

} // verus!

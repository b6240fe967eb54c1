//! The messages that clients and the server exchange, as plain values. JSON travels as text.

use vstd::prelude::*;

use crate::text::{text_option, texts_of};

verus! {

/// A stored response.
#[derive(Debug, PartialEq, Eq)]
pub struct StoredResponse {
    pub response_id: String,
    pub upstream: String,
    pub response_json: String,
    pub input_json: Vec<String>,
    pub pending_upstream_request_json: Option<String>,
    pub upstream_authorization: Option<String>,
    pub enqueued_at: Option<i64>,
}

/// A stored response message as a mathematical value.
#[verifier::ext_equal]
pub struct StoredMessage {
    pub response_id: Seq<char>,
    pub upstream: Seq<char>,
    pub response_json: Seq<char>,
    pub input_json: Seq<Seq<char>>,
    pub pending_upstream_request_json: Option<Seq<char>>,
    pub upstream_authorization: Option<Seq<char>>,
    pub enqueued_at: Option<i64>,
}

impl View for StoredResponse {
    type V = StoredMessage;

    open spec fn view(&self) -> StoredMessage {
        StoredMessage {
            response_id: self.response_id@,
            upstream: self.upstream@,
            response_json: self.response_json@,
            input_json: texts_of(self.input_json@),
            pending_upstream_request_json: text_option(self.pending_upstream_request_json),
            upstream_authorization: text_option(self.upstream_authorization),
            enqueued_at: self.enqueued_at,
        }
    }
}

/// A stored response message that may be absent.
pub open spec fn message_option(record: Option<StoredResponse>) -> Option<StoredMessage> {
    match record {
        Some(record) => Some(record@),
        None => None,
    }
}

/// A claimed job.
#[derive(Debug, PartialEq, Eq)]
pub struct BackgroundJob {
    pub stream_id: String,
    pub response_id: String,
    pub record: Option<StoredResponse>,
    pub autoclaimed: bool,
    pub idle_ms: Option<u64>,
}

/// A job message as a mathematical value.
#[verifier::ext_equal]
pub struct JobMessage {
    pub stream_id: Seq<char>,
    pub response_id: Seq<char>,
    pub record: Option<StoredMessage>,
    pub autoclaimed: bool,
    pub idle_ms: Option<u64>,
}

impl View for BackgroundJob {
    type V = JobMessage;

    open spec fn view(&self) -> JobMessage {
        JobMessage {
            stream_id: self.stream_id@,
            response_id: self.response_id@,
            record: message_option(self.record),
            autoclaimed: self.autoclaimed,
            idle_ms: self.idle_ms,
        }
    }
}

/// A claimed job whose response could not be loaded yet.
#[derive(Debug, PartialEq, Eq)]
pub struct PendingBackgroundJob {
    pub stream_id: String,
    pub response_id: String,
    pub autoclaimed: bool,
    pub idle_ms: Option<u64>,
}

/// A pending job message as a mathematical value.
#[verifier::ext_equal]
pub struct PendingJobMessage {
    pub stream_id: Seq<char>,
    pub response_id: Seq<char>,
    pub autoclaimed: bool,
    pub idle_ms: Option<u64>,
}

impl View for PendingBackgroundJob {
    type V = PendingJobMessage;

    open spec fn view(&self) -> PendingJobMessage {
        PendingJobMessage {
            stream_id: self.stream_id@,
            response_id: self.response_id@,
            autoclaimed: self.autoclaimed,
            idle_ms: self.idle_ms,
        }
    }
}

/// Asks to store a response. A lifetime of zero stands for the default.
#[derive(Debug, PartialEq, Eq)]
pub struct StoreResponseRequest {
    pub record: Option<StoredResponse>,
    pub ttl_seconds: u64,
}

/// Asks for a response.
#[derive(Debug, PartialEq, Eq)]
pub struct GetResponseRequest {
    pub response_id: String,
    pub reconcile_stale: bool,
}

/// Asks to replace a response. A lifetime of zero stands for the default.
#[derive(Debug, PartialEq, Eq)]
pub struct UpdateResponseRequest {
    pub record: Option<StoredResponse>,
    pub ttl_seconds: u64,
}

/// Asks to delete a response.
#[derive(Debug, PartialEq, Eq)]
pub struct DeleteResponseRequest {
    pub response_id: String,
}

/// Asks to store a response and to enqueue a job for it.
#[derive(Debug, PartialEq, Eq)]
pub struct EnqueueBackgroundJobRequest {
    pub record: Option<StoredResponse>,
}

/// Asks for jobs.
#[derive(Debug, PartialEq, Eq)]
pub struct ClaimBackgroundJobsRequest {
    pub consumer_group: String,
    pub consumer_name: String,
    pub count: u32,
    pub block_ms: u32,
    pub autoclaim_min_idle_ms: u32,
}

/// The jobs that a worker gets.
#[derive(Debug, PartialEq, Eq)]
pub struct ClaimBackgroundJobsResponse {
    pub jobs: Vec<BackgroundJob>,
    pub pending_stream_ids: Vec<String>,
    pub pending_jobs: Vec<PendingBackgroundJob>,
}

/// The answer to a claim as a mathematical value.
#[verifier::ext_equal]
pub struct ClaimMessage {
    pub jobs: Seq<JobMessage>,
    pub pending_stream_ids: Seq<Seq<char>>,
    pub pending_jobs: Seq<PendingJobMessage>,
}

/// The job messages of a list.
pub open spec fn job_messages(jobs: Seq<BackgroundJob>) -> Seq<JobMessage> {
    jobs.map_values(|job: BackgroundJob| job@)
}

/// The pending job messages of a list.
pub open spec fn pending_job_messages(jobs: Seq<PendingBackgroundJob>) -> Seq<PendingJobMessage> {
    jobs.map_values(|job: PendingBackgroundJob| job@)
}

impl View for ClaimBackgroundJobsResponse {
    type V = ClaimMessage;

    open spec fn view(&self) -> ClaimMessage {
        ClaimMessage {
            jobs: job_messages(self.jobs@),
            pending_stream_ids: texts_of(self.pending_stream_ids@),
            pending_jobs: pending_job_messages(self.pending_jobs@),
        }
    }
}

/// Asks to acknowledge a job.
#[derive(Debug, PartialEq, Eq)]
pub struct AcknowledgeBackgroundJobRequest {
    pub stream_id: String,
    pub consumer_group: String,
}

/// Asks to create a consumer group.
#[derive(Debug, PartialEq, Eq)]
pub struct EnsureConsumerGroupRequest {
    pub consumer_group: String,
    pub start_id: String,
}

/// Asks for the statistics of a consumer group.
#[derive(Debug, PartialEq, Eq)]
pub struct GetBackgroundQueueStatsRequest {
    pub consumer_group: String,
}

/// The statistics of a consumer group.
#[derive(Debug, PartialEq, Eq)]
pub struct GetBackgroundQueueStatsResponse {
    pub pending: u64,
    pub in_progress: u64,
    pub workload: u64,
}

/// Asks to let a response fail that has waited too long. A number of seconds that is not positive
/// stands for the default.
#[derive(Debug, PartialEq, Eq)]
pub struct ReconcileStaleResponseRequest {
    pub response_id: String,
    pub stale_seconds: i64,
}

/// The response after a reconciliation, and whether it has changed.
#[derive(Debug, PartialEq, Eq)]
pub struct ReconcileStaleResponseResponse {
    pub record: Option<StoredResponse>,
    pub reconciled: bool,
}

/// Whether the server works.
#[derive(Debug, PartialEq, Eq)]
pub struct HealthResponse {
    pub redis_ok: bool,
    pub version: String,
}

} // verus!

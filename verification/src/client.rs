//! The client: the requests that it sends and what it makes of the replies.

use vstd::prelude::*;

use crate::claim::{jobs_of, pending_jobs_of, BatchView};
use crate::config::{
    grpc_max_message_bytes_from_env, max_message_setting, ConfigErrorView,
    DEFAULT_GRPC_MAX_MESSAGE_BYTES,
};
use crate::convert::{decode_record, encode_record, JsonFault};
use crate::convert::{decoded, encoded, error_status, FaultView};
use crate::error::ErrorView;
use crate::model::{
    BackgroundJob, JobView, PendingBackgroundJob, PendingJobView, RecordView, StoredResponse,
};
use crate::proto::{
    job_messages, message_option, ClaimMessage, JobMessage, PendingJobMessage, StoredMessage,
};
use crate::proto::{
    AcknowledgeBackgroundJobRequest, ClaimBackgroundJobsResponse, DeleteResponseRequest,
    EnqueueBackgroundJobRequest, EnsureConsumerGroupRequest, GetBackgroundQueueStatsRequest,
    GetBackgroundQueueStatsResponse, GetResponseRequest, ReconcileStaleResponseRequest,
    ReconcileStaleResponseResponse, StoreResponseRequest, UpdateResponseRequest,
};
use crate::queue::BackgroundQueueStats;
use crate::service::required_core;
use crate::status::{Code, Status, StatusView};
use crate::text::{text_option, texts_of};

verus! {

/// Why a call failed.
#[derive(Debug)]
pub enum ClientError {
    /// The server could not be reached.
    Transport(String),
    /// The server refused the call.
    Rpc(Status),
    /// A record could not be written as JSON or read from it.
    Serialization(String),
    /// The call succeeded but its reply holds no record.
    NotFound(String),
    /// The client's configuration is wrong.
    Configuration(String),
}

/// A client error as a mathematical value.
pub enum ClientErrorView {
    Transport(Seq<char>),
    Rpc(StatusView),
    Serialization(Seq<char>),
    NotFound(Seq<char>),
    Configuration(Seq<char>),
}

impl View for ClientError {
    type V = ClientErrorView;

    open spec fn view(&self) -> ClientErrorView {
        match *self {
            ClientError::Transport(message) => ClientErrorView::Transport(message@),
            ClientError::Rpc(status) => ClientErrorView::Rpc(status@),
            ClientError::Serialization(message) => ClientErrorView::Serialization(message@),
            ClientError::NotFound(response_id) => ClientErrorView::NotFound(response_id@),
            ClientError::Configuration(message) => ClientErrorView::Configuration(message@),
        }
    }
}

impl From<Status> for ClientError {
    fn from(status: Status) -> (err: ClientError) {
        ClientError::Rpc(status)
    }
}

impl vstd::std_specs::convert::FromSpecImpl<Status> for ClientError {
    open spec fn obeys_from_spec() -> bool {
        true
    }

    open spec fn from_spec(status: Status) -> ClientError {
        ClientError::Rpc(status)
    }
}

impl ClientErrorView {
    /// Whether the response does not exist or was deleted.
    pub open spec fn is_missing(self) -> bool {
        match self {
            ClientErrorView::NotFound(_) => true,
            ClientErrorView::Rpc(status) => status.code == Code::NotFound,
            _ => false,
        }
    }

    /// Whether the state of the response does not allow the call.
    pub open spec fn is_precondition(self) -> bool {
        self matches ClientErrorView::Rpc(status) && status.code == Code::FailedPrecondition
    }
}

/// Whether a call failed because the state of the response does not allow it.
pub fn is_failed_precondition(err: &ClientError) -> (answer: bool)
    ensures
        answer == err@.is_precondition(),
{
    match err {
        ClientError::Rpc(status) => status.code == Code::FailedPrecondition,
        _ => false,
    }
}

/// Whether a call failed because the response does not exist or was deleted.
///
/// Reads and deletions report a missing response by the status `NotFound`. The variant
/// `ClientError::NotFound` is reserved for calls that succeed with an empty record.
pub fn is_not_found(err: &ClientError) -> (answer: bool)
    ensures
        answer == err@.is_missing(),
{
    match err {
        ClientError::NotFound(_) => true,
        ClientError::Rpc(status) => status.code == Code::NotFound,
        _ => false,
    }
}

impl FaultView {
    /// Why the part could not be read or written.
    pub open spec fn reason(self) -> Seq<char> {
        match self {
            FaultView::Response(message) => message,
            FaultView::Input(message) => message,
            FaultView::PendingRequest(message) => message,
        }
    }
}

fn fault_error(why: JsonFault) -> (err: ClientError)
    ensures
        err@ == ClientErrorView::Serialization(why@.reason()),
{
    match why {
        JsonFault::Response(message) => ClientError::Serialization(message),
        JsonFault::Input(message) => ClientError::Serialization(message),
        JsonFault::PendingRequest(message) => ClientError::Serialization(message),
    }
}

/// The record of a reply.
pub open spec fn received(record: Option<StoredMessage>, response_id: Seq<char>) -> Result<
    RecordView,
    ClientErrorView,
> {
    match record {
        Some(message) => match decoded(message) {
            Ok(core) => Ok(core),
            Err(why) => Err(ClientErrorView::Serialization(why.reason())),
        },
        None => Err(ClientErrorView::NotFound(response_id)),
    }
}

/// Writes a record for a request. The server reads it back as it is where it is plain: its
/// documents hold no number but whole ones, are not nested too deeply, and no object begins with
/// the field name that `serde_json` reserves.
pub fn to_proto_record(response_id: &str, record: &StoredResponse) -> (result: Result<
    crate::proto::StoredResponse,
    ClientError,
>)
    ensures
        match result {
            Ok(message) => {
                &&& message@ == encoded(response_id@, record@)
                &&& record@.is_plain() ==> decoded(message@) == Ok::<RecordView, FaultView>(record@)
            },
            Err(_) => false,
        },
{
    match encode_record(response_id, record) {
        Ok(message) => Ok(message),
        Err(why) => Err(fault_error(why)),
    }
}

/// Reads the record of a reply.
pub fn from_proto_record(record: Option<&crate::proto::StoredResponse>, response_id: &str) -> (result:
    Result<StoredResponse, ClientError>)
    ensures
        ({
            let expected = received(
                match record {
                    Some(record) => Some(record@),
                    None => None,
                },
                response_id@,
            );
            match result {
                Ok(core) => expected == Ok::<RecordView, ClientErrorView>(core@),
                Err(err) => expected == Err::<RecordView, ClientErrorView>(err@),
            }
        }),
{
    match record {
        Some(record) => match decode_record(record) {
            Ok(core) => Ok(core),
            Err(why) => Err(fault_error(why)),
        },
        None => Err(ClientError::NotFound(response_id.to_owned())),
    }
}

/// The jobs that a worker gets.
#[derive(Debug, PartialEq)]
pub struct ClaimBackgroundJobsResult {
    pub jobs: Vec<BackgroundJob>,
    pub pending_stream_ids: Vec<String>,
    pub pending_jobs: Vec<PendingBackgroundJob>,
}

impl View for ClaimBackgroundJobsResult {
    type V = BatchView;

    open spec fn view(&self) -> BatchView {
        BatchView {
            jobs: jobs_of(self.jobs@),
            pending_stream_ids: texts_of(self.pending_stream_ids@),
            pending_jobs: pending_jobs_of(self.pending_jobs@),
        }
    }
}

impl Clone for ClaimBackgroundJobsResult {
    fn clone(&self) -> (copy: Self)
        ensures
            copy@ == self@,
    {
        let copy = ClaimBackgroundJobsResult {
            jobs: self.jobs.clone(),
            pending_stream_ids: self.pending_stream_ids.clone(),
            pending_jobs: self.pending_jobs.clone(),
        };
        assert(copy@ == self@);
        copy
    }
}

impl Default for ClaimBackgroundJobsResult {
    fn default() -> (result: Self)
        ensures
            result@ == BatchView::empty(),
    {
        ClaimBackgroundJobsResult {
            jobs: Vec::new(),
            pending_stream_ids: Vec::new(),
            pending_jobs: Vec::new(),
        }
    }
}

/// A job of a reply.
pub open spec fn received_job(job: JobMessage) -> Result<JobView, ClientErrorView> {
    match received(job.record, job.response_id) {
        Ok(record) => Ok(
            JobView {
                stream_id: job.stream_id,
                response_id: job.response_id,
                record,
                autoclaimed: job.autoclaimed,
                idle_ms: job.idle_ms,
            },
        ),
        Err(err) => Err(err),
    }
}

/// The jobs of a reply, or the error of the first that cannot be read.
pub open spec fn received_jobs(jobs: Seq<JobMessage>) -> Result<Seq<JobView>, ClientErrorView>
    decreases jobs.len(),
{
    if jobs.len() == 0 {
        Ok(Seq::empty())
    } else {
        match (received_jobs(jobs.drop_last()), received_job(jobs.last())) {
            (Err(err), _) => Err(err),
            (Ok(_), Err(err)) => Err(err),
            (Ok(before), Ok(job)) => Ok(before.push(job)),
        }
    }
}

/// A pending job of a reply.
pub open spec fn received_pending_job(job: PendingJobMessage) -> PendingJobView {
    PendingJobView {
        stream_id: job.stream_id,
        response_id: job.response_id,
        autoclaimed: job.autoclaimed,
        idle_ms: job.idle_ms,
    }
}

/// What a worker gets by a reply.
pub open spec fn received_batch(message: ClaimMessage) -> Result<BatchView, ClientErrorView> {
    match received_jobs(message.jobs) {
        Ok(jobs) => Ok(
            BatchView {
                jobs,
                pending_stream_ids: message.pending_stream_ids,
                pending_jobs: message.pending_jobs.map_values(
                    |job: PendingJobMessage| received_pending_job(job),
                ),
            },
        ),
        Err(err) => Err(err),
    }
}

/// The first job that cannot be read decides, whatever follows it.
proof fn lemma_first_error_decides(jobs: Seq<JobMessage>, at: int)
    requires
        0 <= at < jobs.len(),
        received_jobs(jobs.take(at)) is Ok,
        received_job(jobs[at]) is Err,
    ensures
        received_jobs(jobs) == Err::<Seq<JobView>, ClientErrorView>(
            received_job(jobs[at])->Err_0,
        ),
    decreases jobs.len(),
{
    if at == jobs.len() - 1 {
        assert(jobs.drop_last() == jobs.take(at));
    } else {
        assert(jobs.drop_last().take(at) == jobs.take(at));
        lemma_first_error_decides(jobs.drop_last(), at);
    }
}

/// Jobs that can be read are all received.
pub(crate) proof fn lemma_received_jobs(messages: Seq<JobMessage>, jobs: Seq<JobView>)
    requires
        messages.len() == jobs.len(),
        forall|i: int|
            0 <= i < jobs.len() ==> received_job(#[trigger] messages[i]) == Ok::<
                JobView,
                ClientErrorView,
            >(jobs[i]),
    ensures
        received_jobs(messages) == Ok::<Seq<JobView>, ClientErrorView>(jobs),
    decreases jobs.len(),
{
    if jobs.len() > 0 {
        lemma_received_jobs(messages.drop_last(), jobs.drop_last());
        assert(messages.last() == messages[messages.len() - 1]);
        assert(jobs.drop_last().push(jobs.last()) == jobs);
    } else {
        assert(jobs == Seq::<JobView>::empty());
    }
}

fn read_jobs(jobs: &Vec<crate::proto::BackgroundJob>) -> (result: Result<
    Vec<BackgroundJob>,
    ClientError,
>)
    ensures
        match result {
            Ok(read) => received_jobs(job_messages(jobs@)) == Ok::<Seq<JobView>, ClientErrorView>(
                jobs_of(read@),
            ),
            Err(err) => received_jobs(job_messages(jobs@)) == Err::<Seq<JobView>, ClientErrorView>(
                err@,
            ),
        },
{
    let ghost all = job_messages(jobs@);
    let mut read: Vec<BackgroundJob> = Vec::new();
    assert(jobs_of(read@) == Seq::<JobView>::empty());
    for i in 0..jobs.len()
        invariant
            all == job_messages(jobs@),
            received_jobs(all.take(i as int)) == Ok::<Seq<JobView>, ClientErrorView>(
                jobs_of(read@),
            ),
    {
        proof {
            assert(all.take(i + 1).drop_last() == all.take(i as int));
            assert(all.take(i + 1).last() == jobs@[i as int]@);
        }
        let record = match &jobs[i].record {
            Some(record) => from_proto_record(Some(record), jobs[i].response_id.as_str()),
            None => from_proto_record(None, jobs[i].response_id.as_str()),
        };
        match record {
            Ok(record) => {
                let ghost before = read@;
                let job = BackgroundJob {
                    stream_id: jobs[i].stream_id.clone(),
                    response_id: jobs[i].response_id.clone(),
                    record,
                    autoclaimed: jobs[i].autoclaimed,
                    idle_ms: jobs[i].idle_ms,
                };
                read.push(job);
                assert(jobs_of(read@) == jobs_of(before).push(job@));
            },
            Err(err) => {
                proof {
                    lemma_first_error_decides(all, i as int);
                }
                return Err(err);
            },
        }
    }
    assert(all.take(all.len() as int) == all);
    Ok(read)
}

/// Reads the reply to a request for jobs.
pub fn claim_reply(response: ClaimBackgroundJobsResponse) -> (result: Result<
    ClaimBackgroundJobsResult,
    ClientError,
>)
    ensures
        match result {
            Ok(batch) => received_batch(response@) == Ok::<BatchView, ClientErrorView>(batch@),
            Err(err) => received_batch(response@) == Err::<BatchView, ClientErrorView>(err@),
        },
{
    let ghost message = response@;
    let jobs = match read_jobs(&response.jobs) {
        Ok(jobs) => jobs,
        Err(err) => return Err(err),
    };
    let mut pending_jobs: Vec<PendingBackgroundJob> = Vec::new();
    for i in 0..response.pending_jobs.len()
        invariant
            pending_jobs@.len() == i,
            forall|j: int|
                0 <= j < i ==> (#[trigger] pending_jobs@[j])@ == received_pending_job(
                    response.pending_jobs@[j]@,
                ),
    {
        pending_jobs.push(
            PendingBackgroundJob {
                stream_id: response.pending_jobs[i].stream_id.clone(),
                response_id: response.pending_jobs[i].response_id.clone(),
                autoclaimed: response.pending_jobs[i].autoclaimed,
                idle_ms: response.pending_jobs[i].idle_ms,
            },
        );
    }
    assert(pending_jobs_of(pending_jobs@) == message.pending_jobs.map_values(
        |job: PendingJobMessage| received_pending_job(job),
    ));
    Ok(
        ClaimBackgroundJobsResult {
            jobs,
            pending_stream_ids: response.pending_stream_ids,
            pending_jobs,
        },
    )
}

/// The client: the limit on the size of its messages. The caller holds the channel.
#[derive(Debug)]
pub struct StoreClient {
    pub max_message_bytes: usize,
}

impl StoreClient {
    /// Prepares a client, by `GRPC_MAX_MESSAGE_BYTES`. A wrong value is an error.
    pub fn connect(max_message_bytes: Option<String>) -> (client: Result<StoreClient, ClientError>)
        ensures
            match client {
                Ok(client) => max_message_setting(text_option(max_message_bytes)) == Ok::<
                    nat,
                    ConfigErrorView,
                >(client.max_message_bytes as nat),
                Err(err) => max_message_setting(text_option(max_message_bytes)) matches Err(cause)
                    && err@ == ClientErrorView::Configuration(cause.sentence()),
            },
    {
        match grpc_max_message_bytes_from_env(max_message_bytes) {
            Ok(max_message_bytes) => Ok(StoreClient::from_channel_with_limit(max_message_bytes)),
            Err(err) => Err(ClientError::Configuration(err.message())),
        }
    }

    /// Prepares a client for a channel that is there, by `GRPC_MAX_MESSAGE_BYTES`. The default
    /// takes the place of a wrong value.
    pub fn from_channel(max_message_bytes: Option<String>) -> (client: StoreClient)
        ensures
            client.max_message_bytes == match max_message_setting(text_option(max_message_bytes)) {
                Ok(bytes) => bytes,
                Err(_) => DEFAULT_GRPC_MAX_MESSAGE_BYTES as nat,
            },
    {
        match grpc_max_message_bytes_from_env(max_message_bytes) {
            Ok(max_message_bytes) => StoreClient::from_channel_with_limit(max_message_bytes),
            Err(_) => StoreClient::from_channel_with_limit(DEFAULT_GRPC_MAX_MESSAGE_BYTES),
        }
    }

    /// Prepares a client for a channel that is there, with that limit.
    pub fn from_channel_with_limit(max_message_bytes: usize) -> (client: StoreClient)
        ensures
            client == (StoreClient { max_message_bytes }),
    {
        StoreClient { max_message_bytes }
    }

    /// The request to store a response. Without a lifetime the server's default holds. The server
    /// finds the record as it is where it is plain (see `to_proto_record`).
    pub fn store_response(
        &self,
        response_id: &str,
        record: &StoredResponse,
        ttl_seconds: Option<u64>,
    ) -> (request: Result<StoreResponseRequest, ClientError>)
        ensures
            match request {
                Ok(request) => {
                    &&& message_option(request.record) == Some(encoded(response_id@, record@))
                    &&& request.ttl_seconds == match ttl_seconds {
                        Some(ttl) => ttl,
                        None => 0,
                    }
                    &&& record@.is_plain() && response_id@.len() > 0 ==> required_core(
                        message_option(request.record),
                    ) == Ok::<(Seq<char>, RecordView), StatusView>((response_id@, record@))
                },
                Err(_) => false,
            },
    {
        let message = match to_proto_record(response_id, record) {
            Ok(message) => message,
            Err(err) => return Err(err),
        };
        Ok(StoreResponseRequest { record: Some(message), ttl_seconds: ttl_seconds.unwrap_or(0) })
    }

    /// The request for a response. `from_proto_record` reads the reply.
    pub fn get_response(&self, response_id: &str, reconcile_stale: bool) -> (request:
        GetResponseRequest)
        ensures
            request.response_id@ == response_id@,
            request.reconcile_stale == reconcile_stale,
    {
        GetResponseRequest { response_id: response_id.to_owned(), reconcile_stale }
    }

    /// The request to replace a response. Without a lifetime the server's default holds. The server
    /// finds the record as it is where it is plain (see `to_proto_record`).
    pub fn update_response(
        &self,
        response_id: &str,
        record: &StoredResponse,
        ttl_seconds: Option<u64>,
    ) -> (request: Result<UpdateResponseRequest, ClientError>)
        ensures
            match request {
                Ok(request) => {
                    &&& message_option(request.record) == Some(encoded(response_id@, record@))
                    &&& request.ttl_seconds == match ttl_seconds {
                        Some(ttl) => ttl,
                        None => 0,
                    }
                    &&& record@.is_plain() && response_id@.len() > 0 ==> required_core(
                        message_option(request.record),
                    ) == Ok::<(Seq<char>, RecordView), StatusView>((response_id@, record@))
                },
                Err(_) => false,
            },
    {
        let message = match to_proto_record(response_id, record) {
            Ok(message) => message,
            Err(err) => return Err(err),
        };
        Ok(UpdateResponseRequest { record: Some(message), ttl_seconds: ttl_seconds.unwrap_or(0) })
    }

    /// The request to delete a response.
    pub fn delete_response(&self, response_id: &str) -> (request: DeleteResponseRequest)
        ensures
            request.response_id@ == response_id@,
    {
        DeleteResponseRequest { response_id: response_id.to_owned() }
    }

    /// The request to store a response and to enqueue a job for it. The server finds the record as
    /// it is where it is plain (see `to_proto_record`).
    pub fn enqueue_background_job(&self, response_id: &str, record: &StoredResponse) -> (request:
        Result<EnqueueBackgroundJobRequest, ClientError>)
        ensures
            match request {
                Ok(request) => {
                    &&& message_option(request.record) == Some(encoded(response_id@, record@))
                    &&& record@.is_plain() && response_id@.len() > 0 ==> required_core(
                        message_option(request.record),
                    ) == Ok::<(Seq<char>, RecordView), StatusView>((response_id@, record@))
                },
                Err(_) => false,
            },
    {
        match to_proto_record(response_id, record) {
            Ok(message) => Ok(EnqueueBackgroundJobRequest { record: Some(message) }),
            Err(err) => Err(err),
        }
    }

    /// Reads the reply to a request for jobs.
    pub fn claim_background_jobs(&self, response: ClaimBackgroundJobsResponse) -> (result: Result<
        ClaimBackgroundJobsResult,
        ClientError,
    >)
        ensures
            match result {
                Ok(batch) => received_batch(response@) == Ok::<BatchView, ClientErrorView>(batch@),
                Err(err) => received_batch(response@) == Err::<BatchView, ClientErrorView>(err@),
            },
    {
        claim_reply(response)
    }

    /// The request to acknowledge a job.
    pub fn acknowledge_background_job(&self, consumer_group: &str, stream_id: &str) -> (request:
        AcknowledgeBackgroundJobRequest)
        ensures
            request.stream_id@ == stream_id@,
            request.consumer_group@ == consumer_group@,
    {
        AcknowledgeBackgroundJobRequest {
            stream_id: stream_id.to_owned(),
            consumer_group: consumer_group.to_owned(),
        }
    }

    /// The request to create a consumer group.
    pub fn ensure_consumer_group(&self, consumer_group: &str, start_id: &str) -> (request:
        EnsureConsumerGroupRequest)
        ensures
            request.consumer_group@ == consumer_group@,
            request.start_id@ == start_id@,
    {
        EnsureConsumerGroupRequest {
            consumer_group: consumer_group.to_owned(),
            start_id: start_id.to_owned(),
        }
    }

    /// The request for the statistics of a consumer group. `stats_reply` reads the reply.
    pub fn get_background_queue_stats(&self, consumer_group: &str) -> (request:
        GetBackgroundQueueStatsRequest)
        ensures
            request.consumer_group@ == consumer_group@,
    {
        GetBackgroundQueueStatsRequest { consumer_group: consumer_group.to_owned() }
    }

    /// The request to let a response fail that has waited too long. Without a time the server's
    /// default holds. `reconcile_reply` reads the reply.
    pub fn reconcile_stale_response(&self, response_id: &str, stale_seconds: Option<i64>) -> (request:
        ReconcileStaleResponseRequest)
        ensures
            request.response_id@ == response_id@,
            request.stale_seconds == match stale_seconds {
                Some(seconds) => seconds,
                None => 0,
            },
    {
        ReconcileStaleResponseRequest {
            response_id: response_id.to_owned(),
            stale_seconds: stale_seconds.unwrap_or(0),
        }
    }
}

/// Reads the reply to a request for statistics.
pub fn stats_reply(response: GetBackgroundQueueStatsResponse) -> (stats: BackgroundQueueStats)
    ensures
        stats.pending == response.pending,
        stats.in_progress == response.in_progress,
        stats.workload == response.workload,
{
    BackgroundQueueStats {
        pending: response.pending,
        in_progress: response.in_progress,
        workload: response.workload,
    }
}

/// Reads the reply to a request for a reconciliation: the response, and whether it has changed.
pub fn reconcile_reply(response: ReconcileStaleResponseResponse, response_id: &str) -> (result:
    Result<(StoredResponse, bool), ClientError>)
    ensures
        match result {
            Ok((record, reconciled)) => received(message_option(response.record), response_id@)
                == Ok::<RecordView, ClientErrorView>(record@) && reconciled
                == response.reconciled,
            Err(err) => received(message_option(response.record), response_id@) == Err::<
                RecordView,
                ClientErrorView,
            >(err@),
        },
{
    let record = match &response.record {
        Some(record) => from_proto_record(Some(record), response_id),
        None => from_proto_record(None, response_id),
    };
    match record {
        Ok(record) => Ok((record, response.reconciled)),
        Err(err) => Err(err),
    }
}

/// A failed call is missing the response or is at odds with its state, but never both.
pub proof fn failures_are_told_apart(err: ClientErrorView)
    ensures
        !(err.is_missing() && err.is_precondition()),
{
}

/// A client sees the store's answer: a missing response as missing, and a state that forbids the
/// call as such.
pub proof fn clients_see_the_store_error(err: ErrorView)
    ensures
        ClientErrorView::Rpc(error_status(err)).is_missing() <==> err is NotFound,
        ClientErrorView::Rpc(error_status(err)).is_precondition()
            <==> err is FailedPrecondition,
{
}

} // verus!

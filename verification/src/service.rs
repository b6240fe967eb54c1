//! The service: which requests are served, what each one asks of the store and of the queue, and
//! what is answered.

use vstd::prelude::*;

use crate::claim::{
    ClaimAction, ClaimActionView, ClaimBatchResult, ClaimEvent, ClaimEventView, ClaimOptions,
    ClaimRun, ClaimView,
};
use crate::claim::{claim_ends, BatchView, ClaimPhaseView, OptionsView, BLOCKING_READ_TIMEOUT_SLACK_MS};
use crate::client::{
    lemma_received_jobs, received, received_batch, received_job, received_pending_job,
    ClientErrorView,
};
use crate::config::StoreConfig;
use crate::convert::{
    core_job_to_proto, core_to_proto, pending_job_to_proto, proto_to_core, store_error_to_status,
};
use crate::convert::{
    decoded, encoded, encoded_job, encoded_pending_job, error_status, read_fault_status,
};
use crate::error::{reply_of, ErrorView, FailureView, RedisFailure, StoreError};
use crate::model::{
    cursor_key, is_in_flight_background, records_alike, same_record, JobView, PendingJobView,
    RecordView, StoredResponse,
};
use crate::proto::{message_option, ClaimMessage, PendingJobMessage, StoredMessage};
use crate::proto::{
    AcknowledgeBackgroundJobRequest, ClaimBackgroundJobsRequest, ClaimBackgroundJobsResponse,
    DeleteResponseRequest, EnqueueBackgroundJobRequest, EnsureConsumerGroupRequest,
    GetResponseRequest, HealthResponse, ReconcileStaleResponseRequest,
    ReconcileStaleResponseResponse, StoreResponseRequest, UpdateResponseRequest,
};
use crate::queue::{
    stored_cursor, Acknowledgement, BackgroundQueue, CursorUpdate, GroupCreate, StreamAppend,
    AUTOCLAIM_CURSOR_SCRIPT, STREAM_START,
};
use crate::status::{Code, Status, StatusView};
use crate::store::{
    deleted_responses_are_not_found, opened_client, tombstone, ReconciliationView, WriteView,
};
use crate::store::{RecordWrite, Reconciliation, ResponseStore};
use crate::text::is_empty_text;
use crate::text::text_option;
use crate::transaction::{load_result, Outcome, OutcomeView, Transaction, TransactionView};

verus! {

/// How many jobs a worker gets at the most.
pub const MAX_CLAIM_COUNT: usize = 100;

/// The service: a store, a queue and the time after which a response is stale.
pub struct ResponsesApiStoreService {
    pub store: ResponseStore,
    pub queue: BackgroundQueue,
    pub default_stale_seconds: i64,
}

/// A status for a request that lacks something.
pub open spec fn bad_request(message: Seq<char>) -> StatusView {
    StatusView { code: Code::InvalidArgument, message }
}

/// The record of a request, which must be there and carry an ID.
pub open spec fn required_record(record: Option<StoredMessage>) -> Result<
    StoredMessage,
    StatusView,
> {
    match record {
        Some(record) => if record.response_id.len() > 0 {
            Ok(record)
        } else {
            Err(bad_request("record.response_id is required"@))
        },
        None => Err(bad_request("record.response_id is required"@)),
    }
}

/// The record of a request, as the store keeps it, with its ID.
pub open spec fn required_core(record: Option<StoredMessage>) -> Result<
    (Seq<char>, RecordView),
    StatusView,
> {
    match required_record(record) {
        Ok(message) => match decoded(message) {
            Ok(core) => Ok((message.response_id, core)),
            Err(why) => Err(read_fault_status(message.response_id, why)),
        },
        Err(status) => Err(status),
    }
}

/// The lifetime that a request asks for; zero stands for the default.
pub open spec fn requested_ttl(ttl_seconds: u64) -> Option<u64> {
    if ttl_seconds == 0 {
        None
    } else {
        Some(ttl_seconds)
    }
}

/// A result of the store, with the status in place of the error.
pub open spec fn answered<T>(result: Result<T, ErrorView>) -> Result<T, StatusView> {
    match result {
        Ok(value) => Ok(value),
        Err(err) => Err(error_status(err)),
    }
}

/// The write that a request comes to.
pub open spec fn write_answer(write: Result<RecordWrite, Status>) -> Result<WriteView, StatusView> {
    match write {
        Ok(write) => Ok(write@),
        Err(status) => Err(status@),
    }
}

/// A text that a request comes to.
pub open spec fn text_answer(text: Result<String, Status>) -> Result<Seq<char>, StatusView> {
    match text {
        Ok(text) => Ok(text@),
        Err(status) => Err(status@),
    }
}

/// What follows the loading of a response for a read.
#[derive(Debug)]
pub enum ReadStep {
    /// The answer.
    Answer(crate::proto::StoredResponse),
    /// The response has waited too long: this transaction comes first.
    Reconcile(Transaction),
}

/// A step of a read as a mathematical value.
pub enum ReadStepView {
    Answer(StoredMessage),
    Reconcile(TransactionView),
}

/// The result of a step of a read.
pub open spec fn read_step(result: Result<ReadStep, Status>) -> Result<ReadStepView, StatusView> {
    match result {
        Ok(ReadStep::Answer(message)) => Ok(ReadStepView::Answer(message@)),
        Ok(ReadStep::Reconcile(transaction)) => Ok(ReadStepView::Reconcile(transaction@)),
        Err(status) => Err(status@),
    }
}

/// What follows the loading of a response that is to be deleted.
#[derive(Debug)]
pub enum Deletion {
    /// Its job is in flight: a mark is written in its place, for the worker to see.
    Mark(RecordWrite),
    /// It is removed.
    Remove { key: String },
}

/// A deletion as a mathematical value.
pub enum DeletionView {
    Mark(WriteView),
    Remove { key: Seq<char> },
}

/// The result of a deletion.
pub open spec fn deletion_answer(result: Result<Deletion, Status>) -> Result<
    DeletionView,
    StatusView,
> {
    match result {
        Ok(Deletion::Mark(write)) => Ok(DeletionView::Mark(write@)),
        Ok(Deletion::Remove { key }) => Ok(DeletionView::Remove { key: key@ }),
        Err(status) => Err(status@),
    }
}

/// What follows the loading of a response that is to be reconciled.
#[derive(Debug)]
pub enum ReconcileStep {
    /// The answer.
    Answer(ReconcileStaleResponseResponse),
    /// The response has waited too long: this transaction comes first.
    Reconcile { before: StoredResponse, transaction: Transaction },
}

/// A step of a reconciliation as a mathematical value.
pub enum ReconcileStepView {
    Answer { record: Option<StoredMessage>, reconciled: bool },
    Reconcile { before: RecordView, transaction: TransactionView },
}

/// The result of a step of a reconciliation.
pub open spec fn reconcile_step(result: Result<ReconcileStep, Status>) -> Result<
    ReconcileStepView,
    StatusView,
> {
    match result {
        Ok(ReconcileStep::Answer(response)) => Ok(
            ReconcileStepView::Answer {
                record: message_option(response.record),
                reconciled: response.reconciled,
            },
        ),
        Ok(ReconcileStep::Reconcile { before, transaction }) => Ok(
            ReconcileStepView::Reconcile { before: before@, transaction: transaction@ },
        ),
        Err(status) => Err(status@),
    }
}

/// The result of a transaction.
pub open spec fn outcome_result(result: Result<Outcome, StoreError>) -> Result<
    OutcomeView,
    ErrorView,
> {
    match result {
        Ok(outcome) => Ok(outcome@),
        Err(err) => Err(err@),
    }
}

impl ResponsesApiStoreService {
    /// What follows the loading of a response for a read, at the time `now`.
    pub open spec fn read(
        self,
        response_id: Seq<char>,
        reconcile_stale: bool,
        loaded: Result<Option<RecordView>, ErrorView>,
        now: i64,
    ) -> Result<ReadStepView, StatusView> {
        match loaded {
            Err(err) => Err(error_status(err)),
            Ok(loaded) => match self.store.looked_up(response_id, reconcile_stale, loaded, now) {
                Err(err) => Err(error_status(err)),
                Ok(ReconciliationView::Unchanged(record)) => Ok(
                    ReadStepView::Answer(encoded(response_id, record)),
                ),
                Ok(ReconciliationView::Stale(transaction)) => Ok(
                    ReadStepView::Reconcile(transaction),
                ),
            },
        }
    }

    /// What follows the loading of a response that is to be deleted. A response that does not exist
    /// or was deleted before is not found; one that cannot be loaded is removed all the same.
    pub open spec fn deletion(
        self,
        response_id: Seq<char>,
        loaded: Result<Option<RecordView>, ErrorView>,
    ) -> Result<DeletionView, StatusView> {
        let remove = Ok(DeletionView::Remove { key: self.store.key_of(response_id) });
        match loaded {
            Ok(None) => Err(error_status(ErrorView::NotFound(response_id))),
            Ok(Some(record)) => if record.is_deleted() {
                Err(error_status(ErrorView::NotFound(response_id)))
            } else if record.is_in_flight() {
                match self.store.stored(response_id, tombstone(record, response_id), None) {
                    Ok(write) => Ok(DeletionView::Mark(write)),
                    Err(err) => Err(error_status(err)),
                }
            } else {
                remove
            },
            Err(_) => remove,
        }
    }

    /// The time after which a response is stale for a request.
    pub open spec fn requested_stale_seconds(self, stale_seconds: i64) -> i64 {
        if stale_seconds > 0 {
            stale_seconds
        } else {
            self.default_stale_seconds
        }
    }

    /// What follows the loading of a response that is to be reconciled, at the time `now`.
    pub open spec fn reconciliation(
        self,
        response_id: Seq<char>,
        stale_seconds: i64,
        loaded: Result<Option<RecordView>, ErrorView>,
        now: i64,
    ) -> Result<ReconcileStepView, StatusView> {
        match loaded {
            Err(err) => Err(error_status(err)),
            Ok(None) => Err(error_status(ErrorView::NotFound(response_id))),
            Ok(Some(record)) => if record.is_deleted() {
                Err(error_status(ErrorView::NotFound(response_id)))
            } else {
                match self.store.reconciled(
                    response_id,
                    record,
                    self.requested_stale_seconds(stale_seconds),
                    now,
                ) {
                    ReconciliationView::Unchanged(record) => Ok(
                        ReconcileStepView::Answer {
                            record: Some(encoded(response_id, record)),
                            reconciled: false,
                        },
                    ),
                    ReconciliationView::Stale(transaction) => Ok(
                        ReconcileStepView::Reconcile { before: record, transaction },
                    ),
                }
            },
        }
    }

    /// Prepares the service, without connecting to Redis.
    pub fn new(config: StoreConfig) -> (service: Result<ResponsesApiStoreService, StoreError>)
        ensures
            match opened_client(config@.redis_url) {
                Ok(client) => {
                    &&& service matches Ok(service)
                    &&& service.store.redis_client == client
                    &&& service.store.key_prefix@ == config@.key_prefix
                    &&& service.store.default_ttl_seconds == config@.ttl_seconds
                    &&& service.store.stale_seconds == config@.stale_seconds
                    &&& service.queue.client == client
                    &&& service.queue.stream_key@ == config@.stream_key
                    &&& service.queue.stream_maxlen == config@.stream_maxlen
                    &&& service.default_stale_seconds == config@.stale_seconds
                },
                Err(err) => service matches Err(StoreError::Storage(failure))
                    && failure@.stands_for(err),
            },
    {
        let store = match ResponseStore::connect(
            config.redis_url.as_str(),
            config.key_prefix,
            config.ttl_seconds,
            config.stale_seconds,
        ) {
            Ok(store) => store,
            Err(err) => return Err(err),
        };
        let queue = match BackgroundQueue::connect(
            config.redis_url.as_str(),
            config.stream_key,
            config.stream_maxlen,
        ) {
            Ok(queue) => queue,
            Err(err) => return Err(err),
        };
        Ok(ResponsesApiStoreService { store, queue, default_stale_seconds: config.stale_seconds })
    }

    /// The lifetime that a request asks for; zero stands for the default.
    pub fn ttl_from_request(&self, ttl_seconds: u64) -> (ttl: Option<u64>)
        ensures
            ttl == requested_ttl(ttl_seconds),
    {
        if ttl_seconds == 0 {
            None
        } else {
            Some(ttl_seconds)
        }
    }

    /// The record of a request, which must be there and carry an ID.
    pub fn require_record(record: &Option<crate::proto::StoredResponse>) -> (required: Result<
        &crate::proto::StoredResponse,
        Status,
    >)
        ensures
            match required {
                Ok(found) => required_record(message_option(*record)) == Ok::<
                    StoredMessage,
                    StatusView,
                >(found@),
                Err(status) => required_record(message_option(*record)) == Err::<
                    StoredMessage,
                    StatusView,
                >(status@),
            },
    {
        if let Some(found) = record {
            if !is_empty_text(found.response_id.as_str()) {
                return Ok(found);
            }
        }
        Err(Status::invalid_argument("record.response_id is required".to_owned()))
    }

    fn require_core(record: &Option<crate::proto::StoredResponse>) -> (required: Result<
        (String, StoredResponse),
        Status,
    >)
        ensures
            match required {
                Ok((response_id, core)) => required_core(message_option(*record)) == Ok::<
                    (Seq<char>, RecordView),
                    StatusView,
                >((response_id@, core@)),
                Err(status) => required_core(message_option(*record)) == Err::<
                    (Seq<char>, RecordView),
                    StatusView,
                >(status@),
            },
    {
        let found = match Self::require_record(record) {
            Ok(found) => found,
            Err(status) => return Err(status),
        };
        match proto_to_core(found) {
            Ok(core) => Ok((found.response_id.clone(), core)),
            Err(status) => Err(status),
        }
    }

    /// Serves a request to store a response: tells what is to be written.
    pub fn store_response(&self, request: &StoreResponseRequest) -> (write: Result<
        RecordWrite,
        Status,
    >)
        ensures
            write_answer(write) == match required_core(message_option(request.record)) {
                Ok((response_id, core)) => answered(
                    self.store.stored(response_id, core, requested_ttl(request.ttl_seconds)),
                ),
                Err(status) => Err(status),
            },
    {
        let (response_id, core) = match Self::require_core(&request.record) {
            Ok(required) => required,
            Err(status) => return Err(status),
        };
        match self.store.store(
            response_id.as_str(),
            &core,
            self.ttl_from_request(request.ttl_seconds),
        ) {
            Ok(write) => Ok(write),
            Err(err) => Err(store_error_to_status(err)),
        }
    }

    /// Serves a request for a response: tells which key is to be read.
    pub fn get_response(&self, request: &GetResponseRequest) -> (key: Result<String, Status>)
        ensures
            text_answer(key) == if request.response_id@.len() == 0 {
                Err::<Seq<char>, StatusView>(bad_request("response_id is required"@))
            } else {
                Ok(self.store.key_of(request.response_id@))
            },
    {
        if is_empty_text(request.response_id.as_str()) {
            return Err(Status::invalid_argument("response_id is required".to_owned()));
        }
        Ok(self.store.load(request.response_id.as_str()))
    }

    /// Goes on with a request for a response once it was loaded. The client receives the record as
    /// it is stored where it is plain (see `core_to_proto`).
    pub fn get_response_loaded(
        &self,
        request: &GetResponseRequest,
        loaded: Result<Option<StoredResponse>, StoreError>,
        now: i64,
    ) -> (step: Result<ReadStep, Status>)
        ensures
            read_step(step) == self.read(
                request.response_id@,
                request.reconcile_stale,
                load_result(loaded),
                now,
            ),
            step matches Ok(ReadStep::Reconcile(transaction)) ==> transaction@.is_valid(),
            match (step, load_result(loaded)) {
                (Ok(ReadStep::Answer(message)), Ok(Some(record))) => record.is_plain() ==> received(
                    Some(message@),
                    request.response_id@,
                ) == Ok::<RecordView, ClientErrorView>(record),
                _ => true,
            },
    {
        let loaded = match loaded {
            Ok(loaded) => loaded,
            Err(err) => return Err(store_error_to_status(err)),
        };
        let response_id = request.response_id.as_str();
        match self.store.get_at(response_id, request.reconcile_stale, loaded, now) {
            Ok(Reconciliation::Unchanged(record)) => match core_to_proto(response_id, &record) {
                Ok(message) => Ok(ReadStep::Answer(message)),
                Err(status) => Err(status),
            },
            Ok(Reconciliation::Stale(transaction)) => Ok(ReadStep::Reconcile(transaction)),
            Err(err) => Err(store_error_to_status(err)),
        }
    }

    /// Answers a request for a response that had waited too long, once its transaction is over.
    pub fn get_response_reconciled(
        &self,
        request: &GetResponseRequest,
        result: Result<Outcome, StoreError>,
    ) -> (answer: Result<crate::proto::StoredResponse, Status>)
        ensures
            match answer {
                Ok(message) => result matches Ok(outcome) && message@ == encoded(
                    request.response_id@,
                    outcome@.record,
                ) && (outcome@.record.is_plain() ==> received(
                    Some(message@),
                    request.response_id@,
                ) == Ok::<RecordView, ClientErrorView>(outcome@.record)),
                Err(status) => result matches Err(err) && status@ == error_status(err@),
            },
    {
        match result {
            Ok(outcome) => core_to_proto(request.response_id.as_str(), &outcome.record),
            Err(err) => Err(store_error_to_status(err)),
        }
    }

    /// Serves a request to replace a response: gives its ID and the record that is to replace it.
    /// The response is to be loaded first.
    pub fn update_response(&self, request: &UpdateResponseRequest) -> (start: Result<
        (String, StoredResponse),
        Status,
    >)
        ensures
            match start {
                Ok((response_id, core)) => required_core(message_option(request.record)) == Ok::<
                    (Seq<char>, RecordView),
                    StatusView,
                >((response_id@, core@)),
                Err(status) => required_core(message_option(request.record)) == Err::<
                    (Seq<char>, RecordView),
                    StatusView,
                >(status@),
            },
    {
        Self::require_core(&request.record)
    }

    /// Goes on with a request to replace a response once it was loaded: tells what is to be
    /// written.
    pub fn update_response_loaded(
        &self,
        response_id: &str,
        core: &StoredResponse,
        ttl_seconds: u64,
        loaded: Result<Option<StoredResponse>, StoreError>,
    ) -> (write: Result<RecordWrite, Status>)
        ensures
            write_answer(write) == match load_result(loaded) {
                Err(err) => Err::<WriteView, StatusView>(error_status(err)),
                Ok(None) => Err(error_status(ErrorView::NotFound(response_id@))),
                Ok(Some(existing)) => if existing.is_deleted() {
                    Err(error_status(ErrorView::NotFound(response_id@)))
                } else {
                    answered(self.store.stored(response_id@, core@, requested_ttl(ttl_seconds)))
                },
            },
    {
        let existing = match loaded {
            Ok(existing) => existing,
            Err(err) => return Err(store_error_to_status(err)),
        };
        match self.store.update(response_id, core, self.ttl_from_request(ttl_seconds), &existing) {
            Ok(write) => Ok(write),
            Err(err) => Err(store_error_to_status(err)),
        }
    }

    /// Serves a request to delete a response: tells which key is to be read first.
    pub fn delete_response(&self, request: &DeleteResponseRequest) -> (key: Result<String, Status>)
        ensures
            text_answer(key) == if request.response_id@.len() == 0 {
                Err::<Seq<char>, StatusView>(bad_request("response_id is required"@))
            } else {
                Ok(self.store.key_of(request.response_id@))
            },
    {
        if is_empty_text(request.response_id.as_str()) {
            return Err(Status::invalid_argument("response_id is required".to_owned()));
        }
        Ok(self.store.load(request.response_id.as_str()))
    }

    /// Goes on with a request to delete a response once it was loaded. A response that does not
    /// exist or was deleted before is answered with `NotFound`.
    pub fn delete_response_loaded(
        &self,
        request: &DeleteResponseRequest,
        loaded: Result<Option<StoredResponse>, StoreError>,
    ) -> (deletion: Result<Deletion, Status>)
        ensures
            deletion_answer(deletion) == self.deletion(request.response_id@, load_result(loaded)),
    {
        let response_id = request.response_id.as_str();
        if let Ok(loaded) = loaded {
            match self.store.get_at(response_id, false, loaded, 0) {
                Ok(Reconciliation::Unchanged(stored)) => {
                    if is_in_flight_background(&stored) {
                        return match self.store.tombstone_deleted_background(
                            response_id,
                            &stored,
                        ) {
                            Ok(write) => Ok(Deletion::Mark(write)),
                            Err(err) => Err(store_error_to_status(err)),
                        };
                    }
                },
                Ok(Reconciliation::Stale(_)) => vstd::pervasive::unreached(),
                Err(err) => return Err(store_error_to_status(err)),
            }
        }
        Ok(Deletion::Remove { key: self.store.delete(response_id) })
    }

    /// Serves a request to enqueue a job: tells what is to be written first and what is to be
    /// appended to the queue then. The time of the enqueuing is `now`, whatever the client sent.
    pub fn enqueue_background_job(&self, request: &EnqueueBackgroundJobRequest, now: i64) -> (plan:
        Result<(RecordWrite, StreamAppend), Status>)
        ensures
            match required_core(message_option(request.record)) {
                Ok((response_id, core)) => match self.store.stored(
                    response_id,
                    RecordView { enqueued_at: Some(now), ..core },
                    None,
                ) {
                    Ok(write) => {
                        &&& plan matches Ok((planned, append))
                        &&& planned@ == write
                        &&& append.key@ == self.queue.stream_key@
                        &&& append.approx_maxlen == if self.queue.stream_maxlen > 0 {
                            Some(self.queue.stream_maxlen)
                        } else {
                            None
                        }
                        &&& append.entry_id@ == "*"@
                        &&& append.field@ == "response_id"@
                        &&& append.value@ == response_id
                    },
                    Err(err) => plan matches Err(status) && status@ == error_status(err),
                },
                Err(expected) => plan matches Err(status) && status@ == expected,
            },
    {
        let (response_id, mut core) = match Self::require_core(&request.record) {
            Ok(required) => required,
            Err(status) => return Err(status),
        };
        core.enqueued_at = Some(now);
        match self.store.store(response_id.as_str(), &core, None) {
            Ok(write) => Ok((write, self.queue.enqueue(response_id.as_str()))),
            Err(err) => Err(store_error_to_status(err)),
        }
    }

    /// Serves a request to acknowledge a job: tells what is to be acknowledged.
    pub fn acknowledge_background_job(&self, request: &AcknowledgeBackgroundJobRequest) -> (plan:
        Result<Acknowledgement, Status>)
        ensures
            if request.stream_id@.len() == 0 || request.consumer_group@.len() == 0 {
                plan matches Err(status) && status@ == bad_request(
                    "stream_id and consumer_group are required"@,
                )
            } else {
                plan matches Ok(acknowledgement) && acknowledgement.key@ == self.queue.stream_key@
                    && acknowledgement.consumer_group@ == request.consumer_group@
                    && acknowledgement.stream_id@ == request.stream_id@
            },
    {
        if is_empty_text(request.stream_id.as_str()) || is_empty_text(
            request.consumer_group.as_str(),
        ) {
            return Err(
                Status::invalid_argument("stream_id and consumer_group are required".to_owned()),
            );
        }
        Ok(
            self.queue.acknowledge(request.consumer_group.as_str(), request.stream_id.as_str()),
        )
    }

    /// Serves a request to create a consumer group: tells what is to be created. Without a start
    /// the group gets the whole stream.
    pub fn ensure_consumer_group(&self, request: &EnsureConsumerGroupRequest) -> (plan: Result<
        GroupCreate,
        Status,
    >)
        ensures
            if request.consumer_group@.len() == 0 {
                plan matches Err(status) && status@ == bad_request("consumer_group is required"@)
            } else {
                plan matches Ok(create) && create.key@ == self.queue.stream_key@
                    && create.consumer_group@ == request.consumer_group@ && create.start_id@
                    == if request.start_id@.len() == 0 {
                    STREAM_START@
                } else {
                    request.start_id@
                }
            },
    {
        if is_empty_text(request.consumer_group.as_str()) {
            return Err(Status::invalid_argument("consumer_group is required".to_owned()));
        }
        let start_id = if is_empty_text(request.start_id.as_str()) {
            STREAM_START
        } else {
            request.start_id.as_str()
        };
        Ok(self.queue.ensure_consumer_group(request.consumer_group.as_str(), start_id))
    }

    /// Serves a request to reconcile a response: tells which key is to be read first.
    pub fn reconcile_stale_response(&self, request: &ReconcileStaleResponseRequest) -> (key: Result<
        String,
        Status,
    >)
        ensures
            text_answer(key) == if request.response_id@.len() == 0 {
                Err::<Seq<char>, StatusView>(bad_request("response_id is required"@))
            } else {
                Ok(self.store.key_of(request.response_id@))
            },
    {
        if is_empty_text(request.response_id.as_str()) {
            return Err(Status::invalid_argument("response_id is required".to_owned()));
        }
        Ok(self.store.load(request.response_id.as_str()))
    }

    /// Goes on with a request to reconcile a response once it was loaded.
    pub fn reconcile_stale_response_loaded(
        &self,
        request: &ReconcileStaleResponseRequest,
        loaded: Result<Option<StoredResponse>, StoreError>,
        now: i64,
    ) -> (step: Result<ReconcileStep, Status>)
        ensures
            reconcile_step(step) == self.reconciliation(
                request.response_id@,
                request.stale_seconds,
                load_result(loaded),
                now,
            ),
            step matches Ok(ReconcileStep::Reconcile { transaction, .. })
                ==> transaction@.is_valid(),
    {
        let loaded = match loaded {
            Ok(loaded) => loaded,
            Err(err) => return Err(store_error_to_status(err)),
        };
        let response_id = request.response_id.as_str();
        let existing = match self.store.get_at(response_id, false, loaded, now) {
            Ok(Reconciliation::Unchanged(existing)) => existing,
            Ok(Reconciliation::Stale(_)) => vstd::pervasive::unreached(),
            Err(err) => return Err(store_error_to_status(err)),
        };
        let stale_seconds = if request.stale_seconds > 0 {
            request.stale_seconds
        } else {
            self.default_stale_seconds
        };
        let before = existing.clone();
        match self.store.reconcile_stale_response_at(response_id, existing, stale_seconds, now) {
            Reconciliation::Unchanged(updated) => {
                match core_to_proto(response_id, &updated) {
                    Ok(message) => Ok(
                        ReconcileStep::Answer(
                            ReconcileStaleResponseResponse {
                                record: Some(message),
                                reconciled: false,
                            },
                        ),
                    ),
                    Err(status) => Err(status),
                }
            },
            Reconciliation::Stale(transaction) => Ok(
                ReconcileStep::Reconcile { before, transaction },
            ),
        }
    }

    /// Answers a request to reconcile a response once its transaction is over.
    pub fn reconcile_stale_response_reconciled(
        &self,
        request: &ReconcileStaleResponseRequest,
        before: &StoredResponse,
        result: Result<Outcome, StoreError>,
    ) -> (answer: Result<ReconcileStaleResponseResponse, Status>)
        ensures
            match outcome_result(result) {
                Ok(outcome) => {
                    &&& answer matches Ok(response)
                    &&& message_option(response.record) == Some(
                        encoded(request.response_id@, outcome.record),
                    )
                    &&& response.reconciled == !records_alike(before@, outcome.record)
                },
                Err(err) => answer matches Err(status) && status@ == error_status(err),
            },
    {
        match result {
            Ok(outcome) => {
                let reconciled = !same_record(before, &outcome.record);
                match core_to_proto(request.response_id.as_str(), &outcome.record) {
                    Ok(message) => Ok(
                        ReconcileStaleResponseResponse { record: Some(message), reconciled },
                    ),
                    Err(status) => Err(status),
                }
            },
            Err(err) => Err(store_error_to_status(err)),
        }
    }

    /// Answers a request for the service's health, given whether Redis answered a ping.
    pub fn health(&self, pinged: Result<(), StoreError>, version: &str) -> (health: HealthResponse)
        ensures
            health.redis_ok == (pinged is Ok),
            health.version@ == version@,
    {
        HealthResponse { redis_ok: pinged.is_ok(), version: version.to_owned() }
    }
}

/// What a request for jobs asks for, or what it lacks. A worker gets at least one job and at most
/// `MAX_CLAIM_COUNT`.
pub open spec fn claim_options(request: ClaimBackgroundJobsRequest) -> Result<
    OptionsView,
    StatusView,
> {
    if request.consumer_group@.len() == 0 || request.consumer_name@.len() == 0 {
        Err(bad_request("consumer_group and consumer_name are required"@))
    } else {
        Ok(
            OptionsView {
                consumer_group: request.consumer_group@,
                consumer_name: request.consumer_name@,
                count: if request.count == 0 {
                    1
                } else if request.count > MAX_CLAIM_COUNT {
                    MAX_CLAIM_COUNT
                } else {
                    request.count as usize
                },
                block_ms: request.block_ms as usize,
                autoclaim_min_idle_ms: request.autoclaim_min_idle_ms as usize,
            },
        )
    }
}

/// Which outcome a request for jobs waits for.
#[derive(Debug)]
pub enum ClaimCallPhase {
    /// The group's autoclaim cursor.
    ReadingCursor,
    /// A step of the claim.
    Claiming(ClaimRun),
    /// The storing of the new cursor, after which these jobs are the answer.
    StoringCursor(ClaimBatchResult),
    /// Nothing more.
    Finished,
}

/// A phase as a mathematical value.
pub enum ClaimCallPhaseView {
    ReadingCursor,
    Claiming(ClaimView),
    StoringCursor(BatchView),
    Finished,
}

impl View for ClaimCallPhase {
    type V = ClaimCallPhaseView;

    open spec fn view(&self) -> ClaimCallPhaseView {
        match *self {
            ClaimCallPhase::ReadingCursor => ClaimCallPhaseView::ReadingCursor,
            ClaimCallPhase::Claiming(run) => ClaimCallPhaseView::Claiming(run@),
            ClaimCallPhase::StoringCursor(batch) => ClaimCallPhaseView::StoringCursor(batch@),
            ClaimCallPhase::Finished => ClaimCallPhaseView::Finished,
        }
    }
}

/// Where a request for jobs stands.
#[derive(Debug)]
pub struct ClaimCall {
    pub options: ClaimOptions,
    pub phase: ClaimCallPhase,
}

/// A request for jobs as a mathematical value.
#[verifier::ext_equal]
pub struct ClaimCallView {
    pub options: OptionsView,
    pub phase: ClaimCallPhaseView,
}

impl View for ClaimCall {
    type V = ClaimCallView;

    open spec fn view(&self) -> ClaimCallView {
        ClaimCallView { options: self.options@, phase: self.phase@ }
    }
}

/// What happened to the action that the request asked for.
#[derive(Debug)]
pub enum ClaimCallEvent {
    /// The cursor was read, if there is one.
    CursorRead(Result<Option<String>, RedisFailure>),
    /// Something happened to the claim.
    Claim(ClaimEvent),
    /// The cursor was stored.
    CursorStored(Result<(), RedisFailure>),
}

/// An event as a mathematical value.
pub enum ClaimCallEventView {
    CursorRead(Result<Option<Seq<char>>, FailureView>),
    Claim(ClaimEventView),
    CursorStored(Result<(), FailureView>),
}

impl View for ClaimCallEvent {
    type V = ClaimCallEventView;

    open spec fn view(&self) -> ClaimCallEventView {
        match *self {
            ClaimCallEvent::CursorRead(Ok(cursor)) => ClaimCallEventView::CursorRead(
                Ok(text_option(cursor)),
            ),
            ClaimCallEvent::CursorRead(Err(err)) => ClaimCallEventView::CursorRead(Err(err@)),
            ClaimCallEvent::Claim(event) => ClaimCallEventView::Claim(event@),
            ClaimCallEvent::CursorStored(reply) => ClaimCallEventView::CursorStored(
                reply_of(reply),
            ),
        }
    }
}

/// What the caller is to do next.
#[derive(Debug)]
pub enum ClaimCallAction {
    /// Read the cursor under this key.
    ReadCursor { key: String },
    /// Perform an action of the claim. It is never its end.
    Claim(ClaimAction),
    /// Store the cursor.
    StoreCursor(CursorUpdate),
    /// Answer.
    Answer(Result<ClaimBackgroundJobsResponse, Status>),
}

/// An action as a mathematical value.
pub enum ClaimCallActionView {
    ReadCursor { key: Seq<char> },
    Claim(ClaimActionView),
    StoreCursor { script: Seq<char>, key: Seq<char>, cursor: Seq<char> },
    Answer(Result<ClaimMessage, StatusView>),
}

impl View for ClaimCallAction {
    type V = ClaimCallActionView;

    open spec fn view(&self) -> ClaimCallActionView {
        match *self {
            ClaimCallAction::ReadCursor { key } => ClaimCallActionView::ReadCursor { key: key@ },
            ClaimCallAction::Claim(action) => ClaimCallActionView::Claim(action@),
            ClaimCallAction::StoreCursor(update) => ClaimCallActionView::StoreCursor {
                script: update.script@,
                key: update.key@,
                cursor: update.cursor@,
            },
            ClaimCallAction::Answer(Ok(response)) => ClaimCallActionView::Answer(Ok(response@)),
            ClaimCallAction::Answer(Err(status)) => ClaimCallActionView::Answer(Err(status@)),
        }
    }
}

/// The message that stands for a batch of jobs.
pub open spec fn encoded_batch(batch: BatchView) -> ClaimMessage {
    ClaimMessage {
        jobs: batch.jobs.map_values(|job: JobView| encoded_job(job)),
        pending_stream_ids: batch.pending_stream_ids,
        pending_jobs: batch.pending_jobs.map_values(
            |job: PendingJobView| encoded_pending_job(job),
        ),
    }
}

impl BatchView {
    /// Whether a worker receives every record of the batch as it is.
    pub open spec fn is_plain(self) -> bool {
        forall|i: int| 0 <= i < self.jobs.len() ==> (#[trigger] self.jobs[i]).record.is_plain()
    }
}

/// Writes a batch of jobs as a message for a worker. The worker receives the batch as it is where
/// its records are plain (see `core_to_proto`).
pub fn batch_to_proto(batch: ClaimBatchResult) -> (result: Result<
    ClaimBackgroundJobsResponse,
    Status,
>)
    ensures
        match result {
            Ok(message) => {
                &&& message@ == encoded_batch(batch@)
                &&& batch@.is_plain() ==> received_batch(message@) == Ok::<
                    BatchView,
                    ClientErrorView,
                >(batch@)
            },
            Err(_) => false,
        },
{
    let mut jobs: Vec<crate::proto::BackgroundJob> = Vec::new();
    for i in 0..batch.jobs.len()
        invariant
            jobs@.len() == i,
            forall|j: int|
                0 <= j < i ==> (#[trigger] jobs@[j])@ == encoded_job(batch.jobs@[j]@) && (
                batch.jobs@[j]@.record.is_plain() ==> received_job(jobs@[j]@) == Ok::<
                    JobView,
                    ClientErrorView,
                >(batch.jobs@[j]@)),
    {
        match core_job_to_proto(&batch.jobs[i]) {
            Ok(job) => jobs.push(job),
            Err(status) => return Err(status),
        }
    }
    let mut pending_jobs: Vec<crate::proto::PendingBackgroundJob> = Vec::new();
    for i in 0..batch.pending_jobs.len()
        invariant
            pending_jobs@.len() == i,
            forall|j: int|
                0 <= j < i ==> (#[trigger] pending_jobs@[j])@ == encoded_pending_job(
                    batch.pending_jobs@[j]@,
                ),
    {
        pending_jobs.push(pending_job_to_proto(&batch.pending_jobs[i]));
    }
    let ghost all = batch@;
    let message = ClaimBackgroundJobsResponse {
        jobs,
        pending_stream_ids: batch.pending_stream_ids,
        pending_jobs,
    };
    assert(message@.jobs == encoded_batch(all).jobs);
    assert(message@.pending_jobs == encoded_batch(all).pending_jobs);
    proof {
        if all.is_plain() {
            assert forall|i: int| 0 <= i < all.jobs.len() implies received_job(
                #[trigger] message@.jobs[i],
            ) == Ok::<JobView, ClientErrorView>(all.jobs[i]) by {
                assert(all.jobs[i].record.is_plain());
                assert(message@.jobs[i] == jobs@[i]@);
            }
            lemma_received_jobs(message@.jobs, all.jobs);
            assert(message@.pending_jobs.map_values(
                |job: PendingJobMessage| received_pending_job(job),
            ) == all.pending_jobs);
        }
    }
    Ok(message)
}

impl ClaimCallView {
    /// The request in another phase.
    pub open spec fn at(self, phase: ClaimCallPhaseView) -> ClaimCallView {
        ClaimCallView { phase, ..self }
    }

    /// The end of the request.
    pub open spec fn finish(self, result: Result<ClaimMessage, StatusView>) -> (
        ClaimCallView,
        ClaimCallActionView,
    ) {
        (self.at(ClaimCallPhaseView::Finished), ClaimCallActionView::Answer(result))
    }

    /// What follows a step of the claim. The cursor that it leaves is stored once it has
    /// succeeded.
    pub open spec fn claimed(
        self,
        stream_key: Seq<char>,
        run: ClaimView,
        action: ClaimActionView,
    ) -> (ClaimCallView, ClaimCallActionView) {
        match action {
            ClaimActionView::Finish(Ok(batch)) => (
                self.at(ClaimCallPhaseView::StoringCursor(batch)),
                ClaimCallActionView::StoreCursor {
                    script: AUTOCLAIM_CURSOR_SCRIPT@,
                    key: cursor_key(stream_key, self.options.consumer_group),
                    cursor: run.cursor,
                },
            ),
            ClaimActionView::Finish(Err(err)) => self.finish(Err(error_status(err))),
            action => (
                self.at(ClaimCallPhaseView::Claiming(run)),
                ClaimCallActionView::Claim(action),
            ),
        }
    }

    /// Whether the event is of the kind that the request waits for.
    pub open spec fn awaits(self, event: ClaimCallEventView) -> bool {
        match (self.phase, event) {
            (ClaimCallPhaseView::ReadingCursor, ClaimCallEventView::CursorRead(_)) => true,
            (ClaimCallPhaseView::Claiming(run), ClaimCallEventView::Claim(event)) => run.awaits(
                event,
            ),
            (ClaimCallPhaseView::StoringCursor(_), ClaimCallEventView::CursorStored(_)) => true,
            _ => false,
        }
    }

    /// What holds of a request at every point.
    pub open spec fn is_valid(self) -> bool {
        &&& self.options.block_ms + BLOCKING_READ_TIMEOUT_SLACK_MS <= u64::MAX
        &&& self.phase matches ClaimCallPhaseView::Claiming(run) ==> run.is_valid()
    }

    /// The request after an event, and what is to be done next.
    pub open spec fn step(self, stream_key: Seq<char>, event: ClaimCallEventView) -> (
        ClaimCallView,
        ClaimCallActionView,
    ) {
        match (self.phase, event) {
            (ClaimCallPhaseView::ReadingCursor, ClaimCallEventView::CursorRead(Ok(cursor))) => {
                let (run, action) = (ClaimView {
                    stream_key,
                    options: self.options,
                    cursor: match cursor {
                        Some(cursor) => cursor,
                        None => STREAM_START@,
                    },
                    batch: BatchView::empty(),
                    phase: ClaimPhaseView::Finished,
                }).start();
                self.claimed(stream_key, run, action)
            },
            (ClaimCallPhaseView::ReadingCursor, ClaimCallEventView::CursorRead(Err(err))) =>
                self.finish(Err(error_status(ErrorView::Storage(err)))),
            (ClaimCallPhaseView::Claiming(run), ClaimCallEventView::Claim(event)) => {
                let (next, action) = run.step(event);
                self.claimed(stream_key, next, action)
            },
            (ClaimCallPhaseView::StoringCursor(batch), ClaimCallEventView::CursorStored(Ok(_))) =>
                self.finish(Ok(encoded_batch(batch))),
            (ClaimCallPhaseView::StoringCursor(_), ClaimCallEventView::CursorStored(Err(err))) =>
                self.finish(Err(error_status(ErrorView::Storage(err)))),
            _ => arbitrary(),
        }
    }
}

impl ClaimCall {
    fn fail(self, status: Status) -> (next: (ClaimCall, ClaimCallAction))
        ensures
            (next.0@, next.1@) == self@.finish(Err(status@)),
    {
        (
            ClaimCall { phase: ClaimCallPhase::Finished, ..self },
            ClaimCallAction::Answer(Err(status)),
        )
    }

    fn claimed(self, queue: &BackgroundQueue, run: ClaimRun, action: ClaimAction) -> (next: (
        ClaimCall,
        ClaimCallAction,
    ))
        ensures
            (next.0@, next.1@) == self@.claimed(queue.stream_key@, run@, action@),
    {
        match action {
            ClaimAction::Finish(Ok(batch)) => {
                let update = queue.set_autoclaim_cursor(
                    self.options.consumer_group.as_str(),
                    run.cursor.as_str(),
                );
                (
                    ClaimCall { phase: ClaimCallPhase::StoringCursor(batch), ..self },
                    ClaimCallAction::StoreCursor(update),
                )
            },
            ClaimAction::Finish(Err(err)) => self.fail(store_error_to_status(err)),
            action => (
                ClaimCall { phase: ClaimCallPhase::Claiming(run), ..self },
                ClaimCallAction::Claim(action),
            ),
        }
    }

    /// Whether the event is of the kind that the request waits for.
    pub fn awaits(&self, event: &ClaimCallEvent) -> (answer: bool)
        ensures
            answer == self@.awaits(event@),
    {
        match (&self.phase, event) {
            (ClaimCallPhase::ReadingCursor, ClaimCallEvent::CursorRead(_)) => true,
            (ClaimCallPhase::Claiming(run), ClaimCallEvent::Claim(event)) => run.awaits(event),
            (ClaimCallPhase::StoringCursor(_), ClaimCallEvent::CursorStored(_)) => true,
            _ => false,
        }
    }
}

impl ResponsesApiStoreService {
    /// Serves a request for jobs: checks it and tells what is to be done first.
    pub fn claim_background_jobs(&self, request: ClaimBackgroundJobsRequest) -> (start: Result<
        (ClaimCall, ClaimCallAction),
        Status,
    >)
        ensures
            match claim_options(request) {
                Ok(options) => {
                    &&& start matches Ok((call, action))
                    &&& call@ == (ClaimCallView {
                        options,
                        phase: ClaimCallPhaseView::ReadingCursor,
                    })
                    &&& call@.is_valid()
                    &&& action@ == (ClaimCallActionView::ReadCursor {
                        key: cursor_key(self.queue.stream_key@, options.consumer_group),
                    })
                },
                Err(expected) => start matches Err(status) && status@ == expected,
            },
    {
        if is_empty_text(request.consumer_group.as_str()) || is_empty_text(
            request.consumer_name.as_str(),
        ) {
            return Err(
                Status::invalid_argument(
                    "consumer_group and consumer_name are required".to_owned(),
                ),
            );
        }
        let count: usize = if request.count == 0 {
            1
        } else if request.count as usize > MAX_CLAIM_COUNT {
            MAX_CLAIM_COUNT
        } else {
            request.count as usize
        };
        let key = self.queue.get_autoclaim_cursor(request.consumer_group.as_str());
        let options = ClaimOptions {
            consumer_group: request.consumer_group,
            consumer_name: request.consumer_name,
            count,
            block_ms: request.block_ms as usize,
            autoclaim_min_idle_ms: request.autoclaim_min_idle_ms as usize,
        };
        Ok(
            (
                ClaimCall { options, phase: ClaimCallPhase::ReadingCursor },
                ClaimCallAction::ReadCursor { key },
            ),
        )
    }

    /// Takes the outcome of the last action of a request for jobs and tells what is to be done
    /// next.
    pub fn claim_step(&self, call: ClaimCall, event: ClaimCallEvent) -> (next: (
        ClaimCall,
        ClaimCallAction,
    ))
        requires
            call@.awaits(event@),
            call@.is_valid(),
        ensures
            (next.0@, next.1@) == call@.step(self.queue.stream_key@, event@),
            next.0@.is_valid(),
    {
        let ClaimCall { options, phase } = call;
        match (phase, event) {
            (ClaimCallPhase::ReadingCursor, ClaimCallEvent::CursorRead(reply)) => {
                let call = ClaimCall { options, phase: ClaimCallPhase::Finished };
                match reply {
                    Ok(cursor) => {
                        let cursor = stored_cursor(cursor);
                        let (run, action) = self.queue.claim_jobs(&call.options, cursor.as_str());
                        call.claimed(&self.queue, run, action)
                    },
                    Err(err) => call.fail(store_error_to_status(StoreError::Storage(err))),
                }
            },
            (ClaimCallPhase::Claiming(run), ClaimCallEvent::Claim(event)) => {
                let call = ClaimCall { options, phase: ClaimCallPhase::Finished };
                let (run, action) = run.step(event);
                call.claimed(&self.queue, run, action)
            },
            (ClaimCallPhase::StoringCursor(batch), ClaimCallEvent::CursorStored(reply)) => {
                let call = ClaimCall { options, phase: ClaimCallPhase::Finished };
                match reply {
                    Ok(_) => match batch_to_proto(batch) {
                        Ok(response) => (call, ClaimCallAction::Answer(Ok(response))),
                        Err(status) => call.fail(status),
                    },
                    Err(err) => call.fail(store_error_to_status(StoreError::Storage(err))),
                }
            },
            _ => vstd::pervasive::unreached(),
        }
    }
}

/// A worker gets jobs only after the cursor that the claim left was stored, and then it gets all
/// that were claimed; a claim that fails leaves the stored cursor alone.
pub proof fn jobs_follow_the_cursor(
    call: ClaimCallView,
    stream_key: Seq<char>,
    event: ClaimCallEventView,
)
    requires
        call.is_valid(),
        call.awaits(event),
    ensures
        call.step(stream_key, event).1 matches ClaimCallActionView::Answer(Ok(message)) ==> (
        call.phase matches ClaimCallPhaseView::StoringCursor(batch) && message == encoded_batch(
            batch,
        ) && (event matches ClaimCallEventView::CursorStored(reply) && reply is Ok)),
        call.step(stream_key, event).1 is StoreCursor <==> call.step(
            stream_key,
            event,
        ).0.phase is StoringCursor,
{
}

impl ClaimCallView {
    /// How many phases are still ahead, at the most.
    pub open spec fn phases_left(self) -> nat {
        match self.phase {
            ClaimCallPhaseView::ReadingCursor => 7,
            ClaimCallPhaseView::Claiming(run) => 2 + run.phases_left(),
            ClaimCallPhaseView::StoringCursor(_) => 1,
            ClaimCallPhaseView::Finished => 0,
        }
    }

    /// How many steps the phase can still take.
    pub open spec fn steps_left(self) -> nat {
        match self.phase {
            ClaimCallPhaseView::Claiming(run) => run.steps_left(),
            _ => 0,
        }
    }
}

/// Every request for jobs is answered: each step leads to a later phase or leaves fewer steps in
/// the same one, and the last one answers.
pub proof fn claim_calls_end(
    call: ClaimCallView,
    stream_key: Seq<char>,
    event: ClaimCallEventView,
)
    requires
        call.is_valid(),
        call.awaits(event),
    ensures
        call.step(stream_key, event).0.phases_left() < call.phases_left() || (call.step(
            stream_key,
            event,
        ).0.phases_left() == call.phases_left() && call.step(stream_key, event).0.steps_left()
            < call.steps_left()),
        call.step(stream_key, event).1 is Answer <==> call.step(
            stream_key,
            event,
        ).0.phases_left() == 0,
{
    if let (ClaimCallPhaseView::Claiming(run), ClaimCallEventView::Claim(event)) = (
        call.phase,
        event,
    ) {
        claim_ends(run, event);
    }
}

/// A job's message carries all that is known of the job, and its record is there.
pub proof fn batches_are_sent_whole(batch: BatchView)
    ensures
        encoded_batch(batch).jobs.len() == batch.jobs.len(),
        encoded_batch(batch).pending_jobs.len() == batch.pending_jobs.len(),
        encoded_batch(batch).pending_stream_ids == batch.pending_stream_ids,
        forall|i: int|
            0 <= i < batch.jobs.len() ==> (#[trigger] encoded_batch(batch).jobs[i]).record
                is Some && encoded_batch(batch).jobs[i].autoclaimed == batch.jobs[i].autoclaimed
                && encoded_batch(batch).jobs[i].idle_ms == batch.jobs[i].idle_ms,
{
}

/// A deletion leaves nothing that a read finds: the response is removed, or a mark is written
/// under its key that reads as not found.
pub proof fn deletion_hides_the_response(
    service: ResponsesApiStoreService,
    response_id: Seq<char>,
    loaded: Result<Option<RecordView>, ErrorView>,
    reconcile_stale: bool,
    now: i64,
)
    ensures
        match service.deletion(response_id, loaded) {
            Ok(DeletionView::Remove { key }) => key == service.store.key_of(response_id)
                && service.read(response_id, reconcile_stale, Ok(None), now) == Err::<
                ReadStepView,
                StatusView,
            >(error_status(ErrorView::NotFound(response_id))),
            Ok(DeletionView::Mark(write)) => write.key == service.store.key_of(response_id)
                && service.read(response_id, reconcile_stale, Ok(Some(write.record)), now)
                == Err::<ReadStepView, StatusView>(
                error_status(ErrorView::NotFound(response_id)),
            ),
            Err(status) => service.store.default_ttl_seconds == 0 || status == error_status(
                ErrorView::NotFound(response_id),
            ),
        },
{
    if let Ok(Some(record)) = loaded {
        deleted_responses_are_not_found(service.store, record, response_id, reconcile_stale, now);
    }
}

/// Reads and deletions agree on what is missing: a deletion reports that there is no response
/// exactly where a read does, and in the same words.
pub proof fn missing_responses_are_reported_alike(
    service: ResponsesApiStoreService,
    response_id: Seq<char>,
    found: Option<RecordView>,
    now: i64,
)
    ensures
        service.read(response_id, false, Ok(found), now) is Err <==> (found is None
            || found->0.is_deleted()),
        service.read(response_id, false, Ok(found), now) is Err ==> service.deletion(
            response_id,
            Ok(found),
        ) == Err::<DeletionView, StatusView>(error_status(ErrorView::NotFound(response_id))) && (
        service.read(response_id, false, Ok(found), now) == Err::<ReadStepView, StatusView>(
            error_status(ErrorView::NotFound(response_id)),
        )),
        service.deletion(response_id, Ok(found)) == Err::<DeletionView, StatusView>(
            error_status(ErrorView::NotFound(response_id)),
        ) ==> service.read(response_id, false, Ok(found), now) is Err,
{
}

/// A response is deleted once: whatever the first deletion leaves, the second one does not find
/// the response.
pub proof fn second_deletion_is_not_found(
    service: ResponsesApiStoreService,
    response_id: Seq<char>,
    record: RecordView,
)
    ensures
        match service.deletion(response_id, Ok(Some(record))) {
            Ok(DeletionView::Remove { .. }) => service.deletion(response_id, Ok(None)) == Err::<
                DeletionView,
                StatusView,
            >(error_status(ErrorView::NotFound(response_id))),
            Ok(DeletionView::Mark(write)) => service.deletion(response_id, Ok(Some(write.record)))
                == Err::<DeletionView, StatusView>(error_status(ErrorView::NotFound(response_id))),
            Err(_) => true,
        },
{
    deleted_responses_are_not_found(service.store, record, response_id, false, 0);
}

/// Only the response that was read is answered: a read without reconciliation gives the record as
/// it is stored.
pub proof fn reads_answer_what_is_stored(
    service: ResponsesApiStoreService,
    response_id: Seq<char>,
    record: RecordView,
    now: i64,
)
    requires
        !record.is_deleted(),
    ensures
        service.read(response_id, false, Ok(Some(record)), now) == Ok::<ReadStepView, StatusView>(
            ReadStepView::Answer(encoded(response_id, record)),
        ),
{
}

} // verus!

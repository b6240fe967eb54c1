//! Changes of a stored response under optimistic locking: the record is read under `WATCH`, and
//! the changed record is written by `MULTI`, `SETEX` and `EXEC`, which fails if the record was
//! touched in between.
//!
//! A `Transaction` holds where such a change stands. The caller performs the action that it is
//! given and hands the outcome to `step`, until the action is `Finish`.

use vstd::prelude::*;

use crate::error::{reply_of, ErrorView, FailureView, RedisFailure, StoreError};
use crate::json::{json_of, Json};
use crate::model::{is_stale, lemma_names_differ};
use crate::model::{is_stale_enqueued, should_reconcile_stale, RecordView, StoredResponse};
use crate::store::{
    apply_stale_failure, prepare_claim_background, prepare_complete_background,
    prepare_fail_background, reconcile_write_ttl, ClaimBackgroundPayload, PayloadView,
};
use crate::store::{claim_result, complete_result, fail_result, rewrite_ttl, stale_record};

verus! {

/// How often a change is tried before it is given up.
pub const MAX_ATTEMPTS: u32 = 16;

/// A change of a stored response.
#[derive(Debug)]
pub enum Change {
    /// A worker starts to process the response.
    Claim,
    /// A worker has got this response.
    Complete(serde_json::Value),
    /// The job has failed with this message.
    Fail(String),
    /// The response fails if it has waited too long.
    FailStale { now: i64, stale_seconds: i64 },
}

/// A change as a mathematical value.
pub enum ChangeView {
    Claim,
    Complete(Json),
    Fail(Seq<char>),
    FailStale { now: i64, stale_seconds: i64 },
}

impl View for Change {
    type V = ChangeView;

    open spec fn view(&self) -> ChangeView {
        match *self {
            Change::Claim => ChangeView::Claim,
            Change::Complete(response) => ChangeView::Complete(json_of(response)),
            Change::Fail(message) => ChangeView::Fail(message@),
            Change::FailStale { now, stale_seconds } => ChangeView::FailStale {
                now,
                stale_seconds,
            },
        }
    }
}

/// The record that a change leaves, with the payload for the worker that claimed it.
#[derive(Debug)]
pub struct Outcome {
    pub record: StoredResponse,
    pub payload: Option<ClaimBackgroundPayload>,
}

/// An outcome as a mathematical value.
#[verifier::ext_equal]
pub struct OutcomeView {
    pub record: RecordView,
    pub payload: Option<PayloadView>,
}

impl View for Outcome {
    type V = OutcomeView;

    open spec fn view(&self) -> OutcomeView {
        OutcomeView {
            record: self.record@,
            payload: match self.payload {
                Some(payload) => Some(payload@),
                None => None,
            },
        }
    }
}

/// What a change does to a record.
#[derive(Debug)]
pub enum Decision {
    /// The changed record is written.
    Write(Outcome),
    /// The record stays as it is.
    Keep(StoredResponse),
    /// The record does not allow the change.
    Refuse(StoreError),
}

/// A decision as a mathematical value.
pub enum DecisionView {
    Write(OutcomeView),
    Keep(RecordView),
    Refuse(ErrorView),
}

impl View for Decision {
    type V = DecisionView;

    open spec fn view(&self) -> DecisionView {
        match *self {
            Decision::Write(outcome) => DecisionView::Write(outcome@),
            Decision::Keep(record) => DecisionView::Keep(record@),
            Decision::Refuse(err) => DecisionView::Refuse(err@),
        }
    }
}

impl ChangeView {
    /// What the change does to a record.
    pub open spec fn decision(self, record: RecordView, response_id: Seq<char>) -> DecisionView {
        match self {
            ChangeView::Claim => match claim_result(record, response_id) {
                Ok((claimed, payload)) => DecisionView::Write(
                    OutcomeView { record: claimed, payload: Some(payload) },
                ),
                Err(err) => DecisionView::Refuse(err),
            },
            ChangeView::Complete(response) => match complete_result(record, response_id, response) {
                Ok(completed) => DecisionView::Write(
                    OutcomeView { record: completed, payload: None },
                ),
                Err(err) => DecisionView::Refuse(err),
            },
            ChangeView::Fail(message) => match fail_result(record, response_id, message) {
                Ok(failed) => DecisionView::Write(OutcomeView { record: failed, payload: None }),
                Err(err) => DecisionView::Refuse(err),
            },
            ChangeView::FailStale { now, stale_seconds } => if record.may_go_stale() && is_stale(
                record.enqueued_at,
                now,
                stale_seconds,
            ) {
                DecisionView::Write(
                    OutcomeView { record: stale_record(record, response_id), payload: None },
                )
            } else {
                DecisionView::Keep(record)
            },
        }
    }
}

/// Decides what a change does to a record.
pub fn decide(change: &Change, stored: StoredResponse, response_id: &str) -> (decision: Decision)
    ensures
        decision@ == change@.decision(stored@, response_id@),
{
    match change {
        Change::Claim => match prepare_claim_background(&stored, response_id) {
            Ok((record, payload)) => Decision::Write(Outcome { record, payload: Some(payload) }),
            Err(err) => Decision::Refuse(err),
        },
        Change::Complete(response) => match prepare_complete_background(
            &stored,
            response_id,
            response,
        ) {
            Ok((record, _)) => Decision::Write(Outcome { record, payload: None }),
            Err(err) => Decision::Refuse(err),
        },
        Change::Fail(message) => match prepare_fail_background(
            &stored,
            response_id,
            message.as_str(),
        ) {
            Ok((record, _)) => Decision::Write(Outcome { record, payload: None }),
            Err(err) => Decision::Refuse(err),
        },
        Change::FailStale { now, stale_seconds } => {
            if !should_reconcile_stale(&stored) || !is_stale_enqueued(
                stored.enqueued_at,
                *now,
                *stale_seconds,
            ) {
                return Decision::Keep(stored);
            }
            let mut updated = stored;
            apply_stale_failure(&mut updated, response_id);
            Decision::Write(Outcome { record: updated, payload: None })
        },
    }
}

/// Which reply a transaction waits for.
#[derive(Debug)]
pub enum Phase {
    /// `DISCARD` of what an earlier change may have left open.
    Discarding,
    /// `WATCH` of the record's key.
    Watching,
    /// `GET` of the record.
    Reading,
    /// `UNWATCH`, after which the record that was found, if any, is the answer.
    Unwatching(Option<StoredResponse>),
    /// The changed record's text.
    Encoding(Outcome),
    /// `TTL` of the record, which will be written as this text.
    ReadingTtl(Outcome, String),
    /// `MULTI`.
    Opening { outcome: Outcome, payload: String, ttl_seconds: u64 },
    /// `SETEX`.
    Writing(Outcome),
    /// `EXEC`.
    Executing(Outcome),
    /// A new connection after this error.
    Resetting(RedisFailure),
    /// The record as it is, after the last try.
    Reloading,
    /// Nothing more.
    Finished,
}

/// A phase as a mathematical value.
pub enum PhaseView {
    Discarding,
    Watching,
    Reading,
    Unwatching(Option<RecordView>),
    Encoding(OutcomeView),
    ReadingTtl(OutcomeView, Seq<char>),
    Opening { outcome: OutcomeView, payload: Seq<char>, ttl_seconds: u64 },
    Writing(OutcomeView),
    Executing(OutcomeView),
    Resetting(FailureView),
    Reloading,
    Finished,
}

impl View for Phase {
    type V = PhaseView;

    open spec fn view(&self) -> PhaseView {
        match *self {
            Phase::Discarding => PhaseView::Discarding,
            Phase::Watching => PhaseView::Watching,
            Phase::Reading => PhaseView::Reading,
            Phase::Unwatching(found) => PhaseView::Unwatching(record_option(found)),
            Phase::Encoding(outcome) => PhaseView::Encoding(outcome@),
            Phase::ReadingTtl(outcome, payload) => PhaseView::ReadingTtl(outcome@, payload@),
            Phase::Opening { outcome, payload, ttl_seconds } => PhaseView::Opening {
                outcome: outcome@,
                payload: payload@,
                ttl_seconds,
            },
            Phase::Writing(outcome) => PhaseView::Writing(outcome@),
            Phase::Executing(outcome) => PhaseView::Executing(outcome@),
            Phase::Resetting(err) => PhaseView::Resetting(err@),
            Phase::Reloading => PhaseView::Reloading,
            Phase::Finished => PhaseView::Finished,
        }
    }
}

/// A record that may be absent.
pub open spec fn record_option(record: Option<StoredResponse>) -> Option<RecordView> {
    match record {
        Some(record) => Some(record@),
        None => None,
    }
}

/// The result of loading a record.
pub open spec fn load_result(loaded: Result<Option<StoredResponse>, StoreError>) -> Result<
    Option<RecordView>,
    ErrorView,
> {
    match loaded {
        Ok(record) => Ok(record_option(record)),
        Err(err) => Err(err@),
    }
}

/// What happened to the action that the transaction asked for.
#[derive(Debug)]
pub enum Event {
    /// Redis answered `DISCARD`, `WATCH`, `UNWATCH`, `MULTI` or `SETEX`.
    Replied(Result<(), RedisFailure>),
    /// The record was read.
    Loaded(Result<Option<StoredResponse>, StoreError>),
    /// The record was written as text.
    Encoded(Result<String, StoreError>),
    /// Redis reported the record's lifetime.
    Ttl(Result<i64, RedisFailure>),
    /// Redis answered `EXEC`: whether the write took place.
    Executed(Result<bool, RedisFailure>),
    /// The connection was replaced.
    Reset(Result<(), StoreError>),
}

/// An event as a mathematical value.
pub enum EventView {
    Replied(Result<(), FailureView>),
    Loaded(Result<Option<RecordView>, ErrorView>),
    Encoded(Result<Seq<char>, ErrorView>),
    Ttl(Result<i64, FailureView>),
    Executed(Result<bool, FailureView>),
    Reset(Result<(), ErrorView>),
}

impl View for Event {
    type V = EventView;

    open spec fn view(&self) -> EventView {
        match *self {
            Event::Replied(reply) => EventView::Replied(reply_of(reply)),
            Event::Loaded(loaded) => EventView::Loaded(load_result(loaded)),
            Event::Encoded(Ok(payload)) => EventView::Encoded(Ok(payload@)),
            Event::Encoded(Err(err)) => EventView::Encoded(Err(err@)),
            Event::Ttl(reply) => EventView::Ttl(reply_of(reply)),
            Event::Executed(reply) => EventView::Executed(reply_of(reply)),
            Event::Reset(Ok(_)) => EventView::Reset(Ok(())),
            Event::Reset(Err(err)) => EventView::Reset(Err(err@)),
        }
    }
}

/// What the caller is to do next.
#[derive(Debug)]
pub enum Action {
    Discard,
    Watch { key: String },
    Read { key: String },
    Unwatch,
    Encode { record: StoredResponse },
    ReadTtl { key: String },
    Multi,
    SetEx { key: String, ttl_seconds: u64, payload: String },
    Exec,
    ResetConnection,
    Reload { key: String },
    Finish(Result<Outcome, StoreError>),
}

/// An action as a mathematical value.
pub enum ActionView {
    Discard,
    Watch { key: Seq<char> },
    Read { key: Seq<char> },
    Unwatch,
    Encode { record: RecordView },
    ReadTtl { key: Seq<char> },
    Multi,
    SetEx { key: Seq<char>, ttl_seconds: u64, payload: Seq<char> },
    Exec,
    ResetConnection,
    Reload { key: Seq<char> },
    Finish(Result<OutcomeView, ErrorView>),
}

impl View for Action {
    type V = ActionView;

    open spec fn view(&self) -> ActionView {
        match *self {
            Action::Discard => ActionView::Discard,
            Action::Watch { key } => ActionView::Watch { key: key@ },
            Action::Read { key } => ActionView::Read { key: key@ },
            Action::Unwatch => ActionView::Unwatch,
            Action::Encode { record } => ActionView::Encode { record: record@ },
            Action::ReadTtl { key } => ActionView::ReadTtl { key: key@ },
            Action::Multi => ActionView::Multi,
            Action::SetEx { key, ttl_seconds, payload } => ActionView::SetEx {
                key: key@,
                ttl_seconds,
                payload: payload@,
            },
            Action::Exec => ActionView::Exec,
            Action::ResetConnection => ActionView::ResetConnection,
            Action::Reload { key } => ActionView::Reload { key: key@ },
            Action::Finish(Ok(outcome)) => ActionView::Finish(Ok(outcome@)),
            Action::Finish(Err(err)) => ActionView::Finish(Err(err@)),
        }
    }
}

/// Where the change of a stored response stands.
#[derive(Debug)]
pub struct Transaction {
    pub key: String,
    pub response_id: String,
    pub change: Change,
    pub default_ttl_seconds: u64,
    /// How many tries have failed.
    pub attempt: u32,
    pub phase: Phase,
}

/// A transaction as a mathematical value.
#[verifier::ext_equal]
pub struct TransactionView {
    pub key: Seq<char>,
    pub response_id: Seq<char>,
    pub change: ChangeView,
    pub default_ttl_seconds: u64,
    pub attempt: u32,
    pub phase: PhaseView,
}

impl View for Transaction {
    type V = TransactionView;

    open spec fn view(&self) -> TransactionView {
        TransactionView {
            key: self.key@,
            response_id: self.response_id@,
            change: self.change@,
            default_ttl_seconds: self.default_ttl_seconds,
            attempt: self.attempt,
            phase: self.phase@,
        }
    }
}

impl TransactionView {
    /// The transaction in another phase.
    pub open spec fn at(self, phase: PhaseView) -> TransactionView {
        TransactionView { phase, ..self }
    }

    /// The end of the transaction.
    pub open spec fn finish(self, result: Result<OutcomeView, ErrorView>) -> (
        TransactionView,
        ActionView,
    ) {
        (self.at(PhaseView::Finished), ActionView::Finish(result))
    }

    /// The next try.
    pub open spec fn retry(self) -> (TransactionView, ActionView) {
        (
            TransactionView {
                attempt: (self.attempt + 1) as u32,
                phase: PhaseView::Discarding,
                ..self
            },
            ActionView::Discard,
        )
    }

    /// What follows an error of Redis: the connection is replaced before anything else.
    pub open spec fn redis_failed(self, err: FailureView) -> (TransactionView, ActionView) {
        (self.at(PhaseView::Resetting(err)), ActionView::ResetConnection)
    }

    /// What follows an error of the store.
    pub open spec fn store_failed(self, err: ErrorView) -> (TransactionView, ActionView) {
        match err {
            ErrorView::Storage(err) => self.redis_failed(err),
            err => self.finish(Err(err)),
        }
    }

    /// Whether this try is the last.
    pub open spec fn is_last_attempt(self) -> bool {
        self.attempt + 1 == MAX_ATTEMPTS
    }

    /// What follows a write that did not take place because the record was touched: another try,
    /// or after the last one the record as it is, for a stale response, and else an error.
    pub open spec fn conflicted(self) -> (TransactionView, ActionView) {
        if !self.is_last_attempt() {
            self.retry()
        } else if self.change is FailStale {
            (self.at(PhaseView::Reloading), ActionView::Reload { key: self.key })
        } else {
            self.finish(
                Err(
                    ErrorView::Unavailable(
                        "background transition conflict retries exhausted for "@
                            + self.response_id,
                    ),
                ),
            )
        }
    }

    /// What follows the reading of the record.
    pub open spec fn record_read(self, found: Option<RecordView>) -> (TransactionView, ActionView) {
        match found {
            None => (self.at(PhaseView::Unwatching(None)), ActionView::Unwatch),
            Some(record) => match self.change.decision(record, self.response_id) {
                DecisionView::Write(outcome) => (
                    self.at(PhaseView::Encoding(outcome)),
                    ActionView::Encode { record: outcome.record },
                ),
                DecisionView::Keep(record) => (
                    self.at(PhaseView::Unwatching(Some(record))),
                    ActionView::Unwatch,
                ),
                DecisionView::Refuse(err) => self.store_failed(err),
            },
        }
    }

    /// The answer that is the record as it was found, or that there is none.
    pub open spec fn answer(self, found: Option<RecordView>) -> (TransactionView, ActionView) {
        match found {
            Some(record) => self.finish(Ok(OutcomeView { record, payload: None })),
            None => self.finish(Err(ErrorView::NotFound(self.response_id))),
        }
    }

    /// Whether the event is of the kind that the transaction waits for.
    pub open spec fn awaits(self, event: EventView) -> bool {
        match self.phase {
            PhaseView::Discarding | PhaseView::Watching | PhaseView::Unwatching(_)
            | PhaseView::Opening { .. } | PhaseView::Writing(_) => event is Replied,
            PhaseView::Reading | PhaseView::Reloading => event is Loaded,
            PhaseView::Encoding(_) => event is Encoded,
            PhaseView::ReadingTtl(_, _) => event is Ttl,
            PhaseView::Executing(_) => event is Executed,
            PhaseView::Resetting(_) => event is Reset,
            PhaseView::Finished => false,
        }
    }

    /// The transaction after an event, and what is to be done next.
    pub open spec fn step(self, event: EventView) -> (TransactionView, ActionView) {
        match (self.phase, event) {
            (PhaseView::Discarding, _) => (
                self.at(PhaseView::Watching),
                ActionView::Watch { key: self.key },
            ),
            (PhaseView::Watching, EventView::Replied(Ok(_))) => (
                self.at(PhaseView::Reading),
                ActionView::Read { key: self.key },
            ),
            (PhaseView::Reading, EventView::Loaded(Ok(found))) => self.record_read(found),
            (PhaseView::Reading, EventView::Loaded(Err(err))) => self.store_failed(err),
            (PhaseView::Unwatching(found), _) => self.answer(found),
            (PhaseView::Encoding(outcome), EventView::Encoded(Ok(payload))) => (
                self.at(PhaseView::ReadingTtl(outcome, payload)),
                ActionView::ReadTtl { key: self.key },
            ),
            (PhaseView::Encoding(_), EventView::Encoded(Err(err))) => self.store_failed(err),
            (PhaseView::ReadingTtl(outcome, payload), EventView::Ttl(Ok(ttl))) => (
                self.at(
                    PhaseView::Opening {
                        outcome,
                        payload,
                        ttl_seconds: rewrite_ttl(ttl, self.default_ttl_seconds),
                    },
                ),
                ActionView::Multi,
            ),
            (
                PhaseView::Opening { outcome, payload, ttl_seconds },
                EventView::Replied(Ok(_)),
            ) => (
                self.at(PhaseView::Writing(outcome)),
                ActionView::SetEx { key: self.key, ttl_seconds, payload },
            ),
            (PhaseView::Writing(outcome), EventView::Replied(Ok(_))) => (
                self.at(PhaseView::Executing(outcome)),
                ActionView::Exec,
            ),
            (PhaseView::Executing(outcome), EventView::Executed(Ok(written))) => if written {
                self.finish(Ok(outcome))
            } else {
                self.conflicted()
            },
            (PhaseView::Resetting(err), EventView::Reset(Ok(_))) => if self.is_last_attempt() {
                self.finish(Err(ErrorView::Storage(err)))
            } else {
                self.retry()
            },
            (PhaseView::Resetting(_), EventView::Reset(Err(err))) => self.finish(Err(err)),
            (PhaseView::Reloading, EventView::Loaded(Ok(found))) => self.answer(found),
            (PhaseView::Reloading, EventView::Loaded(Err(err))) => self.finish(Err(err)),
            (_, EventView::Replied(Err(err))) => self.redis_failed(err),
            (_, EventView::Ttl(Err(err))) => self.redis_failed(err),
            (_, EventView::Executed(Err(err))) => self.redis_failed(err),
            _ => arbitrary(),
        }
    }
}

impl Transaction {
    /// The first try of a change; its first action is `Discard`.
    pub fn new(key: String, response_id: String, change: Change, default_ttl_seconds: u64) -> (start:
        Transaction)
        ensures
            start@ == (TransactionView {
                key: key@,
                response_id: response_id@,
                change: change@,
                default_ttl_seconds,
                attempt: 0,
                phase: PhaseView::Discarding,
            }),
            start@.is_valid(),
    {
        Transaction {
            key,
            response_id,
            change,
            default_ttl_seconds,
            attempt: 0,
            phase: Phase::Discarding,
        }
    }

    /// Whether the event is of the kind that the transaction waits for.
    pub fn awaits(&self, event: &Event) -> (answer: bool)
        ensures
            answer == self@.awaits(event@),
    {
        match (&self.phase, event) {
            (Phase::Discarding, Event::Replied(_)) => true,
            (Phase::Watching, Event::Replied(_)) => true,
            (Phase::Unwatching(_), Event::Replied(_)) => true,
            (Phase::Opening { .. }, Event::Replied(_)) => true,
            (Phase::Writing(_), Event::Replied(_)) => true,
            (Phase::Reading, Event::Loaded(_)) => true,
            (Phase::Reloading, Event::Loaded(_)) => true,
            (Phase::Encoding(_), Event::Encoded(_)) => true,
            (Phase::ReadingTtl(_, _), Event::Ttl(_)) => true,
            (Phase::Executing(_), Event::Executed(_)) => true,
            (Phase::Resetting(_), Event::Reset(_)) => true,
            _ => false,
        }
    }

    fn at(self, phase: Phase) -> (next: Transaction)
        ensures
            next@ == self@.at(phase@),
    {
        Transaction { phase, ..self }
    }

    fn finish(self, result: Result<Outcome, StoreError>) -> (next: (Transaction, Action))
        ensures
            (next.0@, next.1@) == self@.finish(
                match result {
                    Ok(outcome) => Ok(outcome@),
                    Err(err) => Err(err@),
                },
            ),
    {
        (self.at(Phase::Finished), Action::Finish(result))
    }

    fn retry(self) -> (next: (Transaction, Action))
        requires
            self.attempt + 1 < MAX_ATTEMPTS,
        ensures
            (next.0@, next.1@) == self@.retry(),
    {
        let attempt = self.attempt + 1;
        (Transaction { attempt, phase: Phase::Discarding, ..self }, Action::Discard)
    }

    fn redis_failed(self, err: RedisFailure) -> (next: (Transaction, Action))
        ensures
            (next.0@, next.1@) == self@.redis_failed(err@),
    {
        (self.at(Phase::Resetting(err)), Action::ResetConnection)
    }

    fn store_failed(self, err: StoreError) -> (next: (Transaction, Action))
        ensures
            (next.0@, next.1@) == self@.store_failed(err@),
    {
        match err {
            StoreError::Storage(err) => self.redis_failed(err),
            err => self.finish(Err(err)),
        }
    }

    fn conflicted(self) -> (next: (Transaction, Action))
        requires
            self.attempt < MAX_ATTEMPTS,
        ensures
            (next.0@, next.1@) == self@.conflicted(),
    {
        if self.attempt + 1 != MAX_ATTEMPTS {
            return self.retry();
        }
        match self.change {
            Change::FailStale { .. } => {
                let key = self.key.clone();
                (self.at(Phase::Reloading), Action::Reload { key })
            },
            _ => {
                let message =
                    "background transition conflict retries exhausted for ".to_owned().concat(
                    self.response_id.as_str(),
                );
                self.finish(Err(StoreError::Unavailable(message)))
            },
        }
    }

    fn record_read(self, found: Option<StoredResponse>) -> (next: (Transaction, Action))
        ensures
            (next.0@, next.1@) == self@.record_read(record_option(found)),
    {
        match found {
            None => (self.at(Phase::Unwatching(None)), Action::Unwatch),
            Some(stored) => match decide(&self.change, stored, self.response_id.as_str()) {
                Decision::Write(outcome) => {
                    let record = outcome.record.clone();
                    (self.at(Phase::Encoding(outcome)), Action::Encode { record })
                },
                Decision::Keep(record) => (
                    self.at(Phase::Unwatching(Some(record))),
                    Action::Unwatch,
                ),
                Decision::Refuse(err) => self.store_failed(err),
            },
        }
    }

    fn answer(self, found: Option<StoredResponse>) -> (next: (Transaction, Action))
        ensures
            (next.0@, next.1@) == self@.answer(record_option(found)),
    {
        match found {
            Some(record) => self.finish(Ok(Outcome { record, payload: None })),
            None => {
                let response_id = self.response_id.clone();
                self.finish(Err(StoreError::NotFound(response_id)))
            },
        }
    }

    /// Takes the outcome of the last action and tells what is to be done next.
    pub fn step(self, event: Event) -> (next: (Transaction, Action))
        requires
            self@.awaits(event@),
            self@.is_valid(),
        ensures
            (next.0@, next.1@) == self@.step(event@),
            next.0@.is_valid(),
    {
        proof {
            step_keeps_validity(self@, event@);
        }
        let Transaction { key, response_id, change, default_ttl_seconds, attempt, phase } = self;
        let this = Transaction {
            key,
            response_id,
            change,
            default_ttl_seconds,
            attempt,
            phase: Phase::Finished,
        };
        match (phase, event) {
            (Phase::Discarding, _) => {
                let key = this.key.clone();
                (this.at(Phase::Watching), Action::Watch { key })
            },
            (Phase::Watching, Event::Replied(Ok(_))) => {
                let key = this.key.clone();
                (this.at(Phase::Reading), Action::Read { key })
            },
            (Phase::Reading, Event::Loaded(Ok(found))) => this.record_read(found),
            (Phase::Reading, Event::Loaded(Err(err))) => this.store_failed(err),
            (Phase::Unwatching(found), _) => this.answer(found),
            (Phase::Encoding(outcome), Event::Encoded(Ok(payload))) => {
                let key = this.key.clone();
                (this.at(Phase::ReadingTtl(outcome, payload)), Action::ReadTtl { key })
            },
            (Phase::Encoding(_), Event::Encoded(Err(err))) => this.store_failed(err),
            (Phase::ReadingTtl(outcome, payload), Event::Ttl(Ok(ttl))) => {
                let ttl_seconds = reconcile_write_ttl(ttl, this.default_ttl_seconds);
                (this.at(Phase::Opening { outcome, payload, ttl_seconds }), Action::Multi)
            },
            (Phase::Opening { outcome, payload, ttl_seconds }, Event::Replied(Ok(_))) => {
                let key = this.key.clone();
                (this.at(Phase::Writing(outcome)), Action::SetEx { key, ttl_seconds, payload })
            },
            (Phase::Writing(outcome), Event::Replied(Ok(_))) => (
                this.at(Phase::Executing(outcome)),
                Action::Exec,
            ),
            (Phase::Executing(outcome), Event::Executed(Ok(written))) => {
                if written {
                    this.finish(Ok(outcome))
                } else {
                    this.conflicted()
                }
            },
            (Phase::Resetting(err), Event::Reset(Ok(_))) => {
                if this.attempt + 1 == MAX_ATTEMPTS {
                    this.finish(Err(StoreError::Storage(err)))
                } else {
                    this.retry()
                }
            },
            (Phase::Resetting(_), Event::Reset(Err(err))) => this.finish(Err(err)),
            (Phase::Reloading, Event::Loaded(Ok(found))) => this.answer(found),
            (Phase::Reloading, Event::Loaded(Err(err))) => this.finish(Err(err)),
            (_, Event::Replied(Err(err))) => this.redis_failed(err),
            (_, Event::Ttl(Err(err))) => this.redis_failed(err),
            (_, Event::Executed(Err(err))) => this.redis_failed(err),
            _ => vstd::pervasive::unreached(),
        }
    }
}

impl TransactionView {
    /// Whether `outcome` is what the change makes of some record.
    pub open spec fn can_write(self, outcome: OutcomeView) -> bool {
        exists|record: RecordView| #[trigger]
            self.change.decision(record, self.response_id) == DecisionView::Write(outcome)
    }

    /// What holds of a transaction at every point: there is a try left, what is about to be
    /// written is what the change makes of a stored record, and a record is answered as it was
    /// found only where the change leaves it alone.
    pub open spec fn is_valid(self) -> bool {
        &&& self.attempt < MAX_ATTEMPTS
        &&& match self.phase {
            PhaseView::Unwatching(Some(record)) => self.change.decision(record, self.response_id)
                == DecisionView::Keep(record),
            PhaseView::Encoding(outcome) => self.can_write(outcome),
            PhaseView::ReadingTtl(outcome, _) => self.can_write(outcome),
            PhaseView::Opening { outcome, .. } => self.can_write(outcome),
            PhaseView::Writing(outcome) => self.can_write(outcome),
            PhaseView::Executing(outcome) => self.can_write(outcome),
            PhaseView::Reloading => self.change is FailStale,
            _ => true,
        }
    }

    /// An upper bound on the number of steps that are left.
    pub open spec fn steps_left(self) -> nat {
        let in_attempt: nat = match self.phase {
            PhaseView::Discarding => 9,
            PhaseView::Watching => 8,
            PhaseView::Reading => 7,
            PhaseView::Encoding(_) => 6,
            PhaseView::ReadingTtl(_, _) => 5,
            PhaseView::Opening { .. } => 4,
            PhaseView::Writing(_) => 3,
            PhaseView::Executing(_) => 2,
            _ => 1,
        };
        if self.phase is Finished {
            0
        } else {
            (((MAX_ATTEMPTS - 1 - self.attempt) * 9) + in_attempt) as nat
        }
    }
}

/// Every step of a valid transaction leads to a valid one.
pub proof fn step_keeps_validity(transaction: TransactionView, event: EventView)
    requires
        transaction.is_valid(),
        transaction.awaits(event),
    ensures
        transaction.step(event).0.is_valid(),
{
    let next = transaction.step(event).0;
    match (transaction.phase, event) {
        (PhaseView::Reading, EventView::Loaded(Ok(Some(record)))) => {
            assert(transaction.change.decision(record, transaction.response_id)
                == next.change.decision(record, next.response_id));
            assert(transaction.change.decision(record, transaction.response_id) is Keep
                ==> transaction.change.decision(record, transaction.response_id)
                == DecisionView::Keep(record));
        },
        (PhaseView::Encoding(outcome), _) => {
            lemma_same_writes(transaction, next, outcome);
        },
        (PhaseView::ReadingTtl(outcome, _), _) => {
            lemma_same_writes(transaction, next, outcome);
        },
        (PhaseView::Opening { outcome, .. }, _) => {
            lemma_same_writes(transaction, next, outcome);
        },
        (PhaseView::Writing(outcome), _) => {
            lemma_same_writes(transaction, next, outcome);
        },
        _ => {},
    }
}

proof fn lemma_same_writes(left: TransactionView, right: TransactionView, outcome: OutcomeView)
    requires
        left.change == right.change,
        left.response_id == right.response_id,
        left.can_write(outcome),
    ensures
        right.can_write(outcome),
{
    let record = choose|record: RecordView| #[trigger]
        left.change.decision(record, left.response_id) == DecisionView::Write(outcome);
    assert(right.change.decision(record, right.response_id) == DecisionView::Write(outcome));
}

/// A transaction ends: every step brings it closer to its end, which is at most nine steps
/// away for each try that is left.
pub proof fn transaction_ends(transaction: TransactionView, event: EventView)
    requires
        transaction.is_valid(),
        transaction.awaits(event),
    ensures
        transaction.step(event).0.steps_left() < transaction.steps_left() <= 9 * MAX_ATTEMPTS,
        transaction.step(event).1 is Finish <==> transaction.step(event).0.steps_left() == 0,
{
}

impl TransactionView {
    /// What the transaction is about to write, if anything.
    pub open spec fn outcome(self) -> Option<OutcomeView> {
        match self.phase {
            PhaseView::Encoding(outcome) => Some(outcome),
            PhaseView::ReadingTtl(outcome, _) => Some(outcome),
            PhaseView::Opening { outcome, .. } => Some(outcome),
            PhaseView::Writing(outcome) => Some(outcome),
            PhaseView::Executing(outcome) => Some(outcome),
            _ => None,
        }
    }
}

/// What a transaction writes is what the change makes of the record that it read in the same
/// try: nothing else starts a write, and a write that has started is completed as it is or given
/// up.
pub proof fn writes_come_from_the_record_read(transaction: TransactionView, event: EventView)
    requires
        transaction.is_valid(),
        transaction.awaits(event),
    ensures
        transaction.step(event).0.outcome() matches Some(outcome) ==> transaction.outcome() == Some(
            outcome,
        ) || (event matches EventView::Loaded(Ok(Some(record))) && transaction.change.decision(
            record,
            transaction.response_id,
        ) == DecisionView::Write(outcome)),
        transaction.step(event).1 matches ActionView::SetEx { key, .. } ==> key == transaction.key,
{
}

/// A change is reported as done only if Redis has executed the write, and then the report is what
/// was written. The one exception is a response that is looked at for staleness: it may be
/// reported as it was found.
pub proof fn success_means_written(transaction: TransactionView, event: EventView)
    requires
        transaction.is_valid(),
        transaction.awaits(event),
    ensures
        transaction.step(event).1 matches ActionView::Finish(Ok(outcome)) ==> {
            ||| event == EventView::Executed(Ok(true)) && transaction.outcome() == Some(outcome)
                && transaction.can_write(outcome)
            ||| transaction.change is FailStale && outcome.payload is None
        },
{
}

/// A record is only ever replaced under its own key with a lifetime that is not zero, as long as
/// the default lifetime is not zero.
pub proof fn lifetimes_are_positive(transaction: TransactionView, event: EventView)
    requires
        transaction.is_valid(),
        transaction.awaits(event),
        transaction.default_ttl_seconds > 0,
        transaction.phase matches PhaseView::Opening { ttl_seconds, .. } ==> ttl_seconds > 0,
    ensures
        transaction.step(event).0.phase matches PhaseView::Opening { ttl_seconds, .. }
            ==> ttl_seconds > 0,
        transaction.step(event).1 matches ActionView::SetEx { key, ttl_seconds, .. } ==> key
            == transaction.key && ttl_seconds > 0,
{
}

/// Whatever a change does to a record, the upstream, the input and the time of its enqueuing stay
/// as they were.
pub proof fn changes_keep_the_request(
    change: ChangeView,
    record: RecordView,
    response_id: Seq<char>,
)
    ensures
        change.decision(record, response_id) matches DecisionView::Write(outcome) ==> {
            &&& outcome.record.upstream == record.upstream
            &&& outcome.record.input == record.input
            &&& outcome.record.enqueued_at == record.enqueued_at
        },
        change.decision(record, response_id) matches DecisionView::Keep(kept) ==> kept == record,
{
}

/// A change never touches a response that has reached a final state.
pub proof fn changes_respect_final_states(
    change: ChangeView,
    record: RecordView,
    response_id: Seq<char>,
)
    requires
        record.is_terminal(),
    ensures
        !(change.decision(record, response_id) is Write),
{
    lemma_names_differ();
}

} // verus!

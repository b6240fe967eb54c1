//! Laws on changes of a stored response: what a claim, a completion, a failure and a look for
//! staleness do to it, and how the change is carried out.

use vstd::prelude::*;

use super::documents::{holds, lemma_more_names_differ, reports_failure};
use super::errors::{same_error, same_failure, views_tell_errors_apart};
use super::states::{
    can_be_claimed, has_ended, has_status, has_waited, same, same_request, views_tell_records_apart,
};
use super::storing::lemma_same_request;
use crate::error::StoreError;
use crate::json::{json_of, Json};
use crate::model::{lemma_names_differ, StoredResponse};
use crate::store::{
    prepare_claim_background, prepare_complete_background, prepare_fail_background,
    ClaimBackgroundPayload,
};
use crate::text::text_option;
use crate::transaction::{
    decide, Action, ActionView, Change, Decision, DecisionView, Event, EventView, Outcome, Phase,
    PhaseView, Transaction, TransactionView,
};

verus! {

/// Whether two texts that may be absent are the same.
pub open spec fn same_text_option(left: Option<String>, right: Option<String>) -> bool {
    match (left, right) {
        (Some(left), Some(right)) => left@ == right@,
        (None, None) => true,
        _ => false,
    }
}

/// Whether two values that may be absent hold the same document.
pub open spec fn same_document_option(
    left: Option<serde_json::Value>,
    right: Option<serde_json::Value>,
) -> bool {
    match (left, right) {
        (Some(left), Some(right)) => json_of(left) == json_of(right),
        (None, None) => true,
        _ => false,
    }
}

/// Whether a worker gets by this payload what the record holds for it.
pub open spec fn serves(payload: ClaimBackgroundPayload, stored: StoredResponse) -> bool {
    &&& payload.upstream@ == stored.upstream@
    &&& stored.pending_upstream_request matches Some(request) && json_of(request) == json_of(
        payload.pending_upstream_request,
    )
    &&& same_text_option(payload.upstream_authorization, stored.upstream_authorization)
}

/// Whether a record is what a claim leaves of another one: in progress, under its ID, and else as
/// it was, with all that another worker needs to take the job over.
pub open spec fn is_claimed(
    record: StoredResponse,
    stored: StoredResponse,
    response_id: Seq<char>,
) -> bool {
    &&& has_status(record, "in_progress"@)
    &&& holds(json_of(record.response), "id"@, Json::Str(response_id))
    &&& holds(json_of(record.response), "background"@, Json::Bool(true))
    &&& forall|key: Seq<char>|
        key != "id"@ && key != "status"@ && key != "background"@ ==> #[trigger] json_of(
            record.response,
        ).field(key) == json_of(stored.response).field(key)
    &&& same_document_option(record.pending_upstream_request, stored.pending_upstream_request)
    &&& same_text_option(record.upstream_authorization, stored.upstream_authorization)
    &&& same_request(record, stored)
}

/// Whether a record is what a completion leaves of another one: the worker's response with the
/// status `completed`, under its ID, and nothing that a worker could use.
pub open spec fn is_completed(
    record: StoredResponse,
    stored: StoredResponse,
    response_id: Seq<char>,
    response: Json,
) -> bool {
    &&& has_status(record, "completed"@)
    &&& holds(json_of(record.response), "id"@, Json::Str(response_id))
    &&& holds(json_of(record.response), "background"@, Json::Bool(true))
    &&& forall|key: Seq<char>|
        key != "id"@ && key != "status"@ && key != "background"@ ==> #[trigger] json_of(
            record.response,
        ).field(key) == response.field(key)
    &&& record.pending_upstream_request is None
    &&& record.upstream_authorization is None
    &&& same_request(record, stored)
}

/// Whether a record is what a failure leaves of another one: the status `failed` with the message,
/// and nothing that a worker could use.
pub open spec fn is_failed(
    record: StoredResponse,
    stored: StoredResponse,
    response_id: Seq<char>,
    error_message: Seq<char>,
) -> bool {
    &&& has_status(record, "failed"@)
    &&& reports_failure(json_of(record.response), response_id, error_message)
    &&& record.pending_upstream_request is None
    &&& record.upstream_authorization is None
    &&& same_request(record, stored)
}

/// Whether an error tells that a response is in a state that does not allow the change.
pub open spec fn forbids(err: StoreError, response_id: Seq<char>, reason: Seq<char>) -> bool {
    err matches StoreError::FailedPrecondition(message) && message@ == "response "@ + response_id
        + reason
}

/// Why a claim is refused: the response has ended, is in progress already, or does not wait.
pub open spec fn forbids_claim(
    err: StoreError,
    stored: StoredResponse,
    response_id: Seq<char>,
) -> bool {
    &&& has_ended(stored) ==> forbids(err, response_id, " is in a terminal state"@)
    &&& has_status(stored, "in_progress"@) ==> forbids(err, response_id, " is already in progress"@)
    &&& !has_ended(stored) && !has_status(stored, "in_progress"@) ==> forbids(
        err,
        response_id,
        " is not claimable"@,
    )
}

/// Why a completion is refused: the response has ended or is not in progress, or what the worker
/// got is no object.
pub open spec fn forbids_completion(
    err: StoreError,
    stored: StoredResponse,
    response_id: Seq<char>,
) -> bool {
    &&& has_ended(stored) ==> forbids(err, response_id, " is in a terminal state"@)
    &&& !has_ended(stored) && !has_status(stored, "in_progress"@) ==> forbids(
        err,
        response_id,
        " is not in progress"@,
    )
    &&& has_status(stored, "in_progress"@) ==> (err matches StoreError::InvalidArgument(message)
        && message@ == "completed response for "@ + response_id + " must be a JSON object"@)
}

/// Why a failure is refused: the response has ended, or it neither waits nor is in progress.
pub open spec fn forbids_failure(
    err: StoreError,
    stored: StoredResponse,
    response_id: Seq<char>,
) -> bool {
    &&& has_ended(stored) ==> forbids(err, response_id, " is in a terminal state"@)
    &&& !has_ended(stored) ==> forbids(err, response_id, " is not in progress"@)
}

/// Exactly the responses that wait with their request can be claimed; a claim puts them in
/// progress and hands the worker what it needs.
pub proof fn claims_put_in_progress(
    stored: &StoredResponse,
    response_id: &str,
    result: Result<(StoredResponse, ClaimBackgroundPayload), StoreError>,
)
    requires
        call_ensures(prepare_claim_background, (stored, response_id), result),
    ensures
        result is Ok <==> can_be_claimed(*stored),
        result matches Ok((record, payload)) ==> is_claimed(record, *stored, response_id@) && serves(
            payload,
            *stored,
        ),
        result matches Err(err) ==> forbids_claim(err, *stored, response_id@),
{
    lemma_names_differ();
    lemma_more_names_differ();
    if let Ok((record, payload)) = result {
        lemma_same_request(record, *stored);
    }
}

/// Exactly the responses in progress can be completed, with an object; what the worker got is then
/// stored as completed.
pub proof fn completions_store_the_result(
    stored: &StoredResponse,
    response_id: &str,
    response: &serde_json::Value,
    result: Result<(StoredResponse, ()), StoreError>,
)
    requires
        call_ensures(prepare_complete_background, (stored, response_id, response), result),
    ensures
        result is Ok <==> has_status(*stored, "in_progress"@) && json_of(*response) is Object,
        result matches Ok((record, _)) ==> is_completed(
            record,
            *stored,
            response_id@,
            json_of(*response),
        ),
        result matches Err(err) ==> forbids_completion(err, *stored, response_id@),
{
    lemma_names_differ();
    lemma_more_names_differ();
    if let Ok((record, _)) = result {
        lemma_same_request(record, *stored);
    }
}

/// Exactly the responses that wait with their request or are in progress can fail; they then carry
/// the message.
pub proof fn failures_store_the_message(
    stored: &StoredResponse,
    response_id: &str,
    error_message: &str,
    result: Result<(StoredResponse, ()), StoreError>,
)
    requires
        call_ensures(prepare_fail_background, (stored, response_id, error_message), result),
    ensures
        result is Ok <==> can_be_claimed(*stored) || has_status(*stored, "in_progress"@),
        result matches Ok((record, _)) ==> is_failed(
            record,
            *stored,
            response_id@,
            error_message@,
        ),
        result matches Err(err) ==> forbids_failure(err, *stored, response_id@),
{
    lemma_names_differ();
    lemma_more_names_differ();
    if let Ok((record, _)) = result {
        lemma_same_request(record, *stored);
    }
}

/// A change does to a record what its name says. A claim of a response that waits puts it in
/// progress, with a payload; a completion of one in progress stores the object as completed; a
/// failure of one that waits or is in progress stores the message as failed. On every other record
/// each of them is refused. A look for staleness lets a queued response fail that has waited for
/// the limit, and keeps every other record as it is.
pub proof fn changes_do_what_they_say(
    change: &Change,
    stored: StoredResponse,
    response_id: &str,
    decision: Decision,
)
    requires
        call_ensures(decide, (change, stored, response_id), decision),
    ensures
        match *change {
            Change::Claim => match decision {
                Decision::Write(outcome) => can_be_claimed(stored) && is_claimed(
                    outcome.record,
                    stored,
                    response_id@,
                ) && (outcome.payload matches Some(payload) && serves(payload, stored)),
                Decision::Refuse(err) => !can_be_claimed(stored) && forbids_claim(
                    err,
                    stored,
                    response_id@,
                ),
                Decision::Keep(_) => false,
            },
            Change::Complete(response) => match decision {
                Decision::Write(outcome) => has_status(stored, "in_progress"@) && json_of(
                    response,
                ) is Object && is_completed(
                    outcome.record,
                    stored,
                    response_id@,
                    json_of(response),
                ) && outcome.payload is None,
                Decision::Refuse(err) => !(has_status(stored, "in_progress"@) && json_of(
                    response,
                ) is Object) && forbids_completion(err, stored, response_id@),
                Decision::Keep(_) => false,
            },
            Change::Fail(message) => match decision {
                Decision::Write(outcome) => (can_be_claimed(stored) || has_status(
                    stored,
                    "in_progress"@,
                )) && is_failed(outcome.record, stored, response_id@, message@)
                    && outcome.payload is None,
                Decision::Refuse(err) => !can_be_claimed(stored) && !has_status(
                    stored,
                    "in_progress"@,
                ) && forbids_failure(err, stored, response_id@),
                Decision::Keep(_) => false,
            },
            Change::FailStale { now, stale_seconds } => match decision {
                Decision::Write(outcome) => has_status(stored, "queued"@) && has_waited(
                    stored.enqueued_at,
                    now,
                    stale_seconds,
                ) && is_failed(
                    outcome.record,
                    stored,
                    response_id@,
                    "background response stale"@,
                ) && outcome.payload is None,
                Decision::Keep(record) => !(has_status(stored, "queued"@) && has_waited(
                    stored.enqueued_at,
                    now,
                    stale_seconds,
                )) && same(record, stored),
                Decision::Refuse(_) => false,
            },
        },
{
    lemma_names_differ();
    lemma_more_names_differ();
    if let Decision::Write(outcome) = decision {
        lemma_same_request(outcome.record, stored);
    }
    if let Decision::Keep(record) = decision {
        views_tell_records_apart(record, stored);
    }
}

/// Whether two outcomes are the same.
pub open spec fn same_outcome(left: Outcome, right: Outcome) -> bool {
    &&& same(left.record, right.record)
    &&& match (left.payload, right.payload) {
        (Some(left), Some(right)) => {
            &&& left.upstream@ == right.upstream@
            &&& json_of(left.pending_upstream_request) == json_of(right.pending_upstream_request)
            &&& same_text_option(left.upstream_authorization, right.upstream_authorization)
        },
        (None, None) => true,
        _ => false,
    }
}

/// An outcome's view tells all that the outcome holds.
pub proof fn views_tell_outcomes_apart(left: Outcome, right: Outcome)
    ensures
        left@ == right@ <==> same_outcome(left, right),
{
    views_tell_records_apart(left.record, right.record);
    if let (Some(a), Some(b)) = (left.payload, right.payload) {
        assert(text_option(a.upstream_authorization) == text_option(b.upstream_authorization)
            <==> same_text_option(a.upstream_authorization, b.upstream_authorization));
        assert(same_outcome(left, right) ==> a@ == b@);
    }
}

/// Whether two changes are the same.
pub open spec fn same_change(left: Change, right: Change) -> bool {
    match (left, right) {
        (Change::Claim, Change::Claim) => true,
        (Change::Complete(left), Change::Complete(right)) => json_of(left) == json_of(right),
        (Change::Fail(left), Change::Fail(right)) => left@ == right@,
        (Change::FailStale { now: a, stale_seconds: b }, Change::FailStale { now: c, stale_seconds: d })
            => a == c && b == d,
        _ => false,
    }
}

/// A change's view tells which change it is.
pub proof fn views_tell_changes_apart(left: Change, right: Change)
    ensures
        left@ == right@ <==> same_change(left, right),
{
}

/// Whether a transaction goes on for the same response, with the same change, in the given try.
pub open spec fn goes_on(next: Transaction, transaction: Transaction, attempt: int) -> bool {
    &&& next.key@ == transaction.key@
    &&& next.response_id@ == transaction.response_id@
    &&& same_change(next.change, transaction.change)
    &&& next.default_ttl_seconds == transaction.default_ttl_seconds
    &&& next.attempt == attempt
}

/// A transaction starts as it was asked for.
pub proof fn transactions_start_afresh(
    key: String,
    response_id: String,
    change: Change,
    default_ttl_seconds: u64,
    start: Transaction,
)
    requires
        call_ensures(Transaction::new, (key, response_id, change, default_ttl_seconds), start),
    ensures
        start.key@ == key@,
        start.response_id@ == response_id@,
        same_change(start.change, change),
        start.default_ttl_seconds == default_ttl_seconds,
        start.attempt == 0,
        start.phase is Discarding,
{
}

/// Each phase waits for the reply to what it asked for, and for nothing else.
pub proof fn phases_await_their_replies(transaction: &Transaction, event: &Event, answer: bool)
    requires
        call_ensures(Transaction::awaits, (transaction, event), answer),
    ensures
        answer <==> match transaction.phase {
            Phase::Discarding => *event is Replied,
            Phase::Watching => *event is Replied,
            Phase::Reading => *event is Loaded,
            Phase::Unwatching(_) => *event is Replied,
            Phase::Encoding(_) => *event is Encoded,
            Phase::ReadingTtl(_, _) => *event is Ttl,
            Phase::Opening { .. } => *event is Replied,
            Phase::Writing(_) => *event is Replied,
            Phase::Executing(_) => *event is Executed,
            Phase::Resetting(_) => *event is Reset,
            Phase::Reloading => *event is Loaded,
            Phase::Finished => false,
        },
{
}

/// A try watches the key before it reads the record, and reads it under the same key, whatever is
/// left of earlier tries.
pub proof fn records_are_read_under_watch(
    transaction: Transaction,
    event: Event,
    next: (Transaction, Action),
)
    requires
        call_ensures(Transaction::step, (transaction, event), next),
        event is Replied,
    ensures
        transaction.phase is Discarding ==> next.0.phase is Watching && (
        next.1 matches Action::Watch { key } && key@ == transaction.key@) && goes_on(
            next.0,
            transaction,
            transaction.attempt as int,
        ),
        transaction.phase is Watching && event->Replied_0 is Ok ==> next.0.phase is Reading && (
        next.1 matches Action::Read { key } && key@ == transaction.key@) && goes_on(
            next.0,
            transaction,
            transaction.attempt as int,
        ),
{
    views_tell_changes_apart(next.0.change, transaction.change);
}

/// What is read decides: a missing record ends the watch and is answered as not found, and of a
/// record that is there the change decides whether it is written, left alone or refused.
pub proof fn the_record_read_decides(
    transaction: Transaction,
    event: Event,
    next: (Transaction, Action),
    stored: StoredResponse,
    response_id: &str,
    decision: Decision,
)
    requires
        call_ensures(Transaction::step, (transaction, event), next),
        transaction.phase is Reading,
        event == Event::Loaded(Ok(Some(stored))),
        response_id@ == transaction.response_id@,
        call_ensures(decide, (&transaction.change, stored, response_id), decision),
    ensures
        goes_on(next.0, transaction, transaction.attempt as int),
        match decision {
            Decision::Write(outcome) => {
                &&& next.0.phase matches Phase::Encoding(kept) && same_outcome(kept, outcome)
                &&& next.1 matches Action::Encode { record } && same(record, outcome.record)
            },
            Decision::Keep(_) => {
                &&& next.0.phase matches Phase::Unwatching(Some(kept)) && same(kept, stored)
                &&& next.1 is Unwatch
            },
            Decision::Refuse(err) => {
                &&& next.0.phase is Finished
                &&& next.1 matches Action::Finish(Err(answer)) && same_error(answer, err)
            },
        },
{
    changes_do_what_they_say(&transaction.change, stored, response_id, decision);
    views_tell_changes_apart(next.0.change, transaction.change);
    match decision {
        Decision::Write(outcome) => {
            if let Phase::Encoding(kept) = next.0.phase {
                views_tell_outcomes_apart(kept, outcome);
            }
            if let Action::Encode { record } = next.1 {
                views_tell_records_apart(record, outcome.record);
            }
        },
        Decision::Keep(record) => {
            if let Phase::Unwatching(Some(kept)) = next.0.phase {
                views_tell_records_apart(kept, record);
                views_tell_records_apart(kept, stored);
                views_tell_records_apart(record, stored);
            }
        },
        Decision::Refuse(err) => {
            if let Action::Finish(Err(answer)) = next.1 {
                views_tell_errors_apart(answer, err);
            }
        },
    }
}

/// A record that is not there ends the watch; a transaction that ends its watch answers with the
/// record that it found, or that there is none, whatever Redis replies.
pub proof fn what_was_found_is_answered(
    transaction: Transaction,
    event: Event,
    next: (Transaction, Action),
)
    requires
        call_ensures(Transaction::step, (transaction, event), next),
    ensures
        transaction.phase is Reading && event == Event::Loaded(Ok(None)) ==> (
        next.0.phase matches Phase::Unwatching(None)) && next.1 is Unwatch && goes_on(
            next.0,
            transaction,
            transaction.attempt as int,
        ),
        transaction.phase matches Phase::Unwatching(None) ==> (next.1 matches Action::Finish(
            Err(StoreError::NotFound(id)),
        ) && id@ == transaction.response_id@) && next.0.phase is Finished,
        transaction.phase matches Phase::Unwatching(Some(found)) ==> (next.1 matches Action::Finish(
            Ok(outcome),
        ) && same(outcome.record, found) && outcome.payload is None) && next.0.phase is Finished,
        transaction.phase is Reloading && event == Event::Loaded(Ok(None)) ==> (
        next.1 matches Action::Finish(Err(StoreError::NotFound(id))) && id@
            == transaction.response_id@) && next.0.phase is Finished,
        transaction.phase is Reloading ==> (event matches Event::Loaded(Ok(Some(found))) ==> (
        next.1 matches Action::Finish(Ok(outcome)) && same(outcome.record, found)
            && outcome.payload is None) && next.0.phase is Finished),
        transaction.phase is Reloading ==> (event matches Event::Loaded(Err(err)) ==> (
        next.1 matches Action::Finish(Err(answer)) && same_error(answer, err))
            && next.0.phase is Finished),
{
    views_tell_changes_apart(next.0.change, transaction.change);
    if let Action::Finish(Ok(outcome)) = next.1 {
        if let Phase::Unwatching(Some(found)) = transaction.phase {
            views_tell_records_apart(outcome.record, found);
        }
        if let Event::Loaded(Ok(Some(found))) = event {
            views_tell_records_apart(outcome.record, found);
        }
    }
    if let (Action::Finish(Err(answer)), Event::Loaded(Err(err))) = (next.1, event) {
        views_tell_errors_apart(answer, err);
    }
}

/// Whether a transaction still holds this outcome for writing.
pub open spec fn still_writes(phase: Phase, outcome: Outcome) -> bool {
    match phase {
        Phase::ReadingTtl(kept, _) => same_outcome(kept, outcome),
        Phase::Opening { outcome: kept, .. } => same_outcome(kept, outcome),
        Phase::Writing(kept) => same_outcome(kept, outcome),
        Phase::Executing(kept) => same_outcome(kept, outcome),
        _ => false,
    }
}

/// What was decided is written: its text, under the record's own key, with what is left of its
/// lifetime, and only between `MULTI` and `EXEC`.
pub proof fn what_was_decided_is_written(
    transaction: Transaction,
    event: Event,
    next: (Transaction, Action),
)
    requires
        call_ensures(Transaction::step, (transaction, event), next),
    ensures
        match (transaction.phase, event) {
            (Phase::Encoding(outcome), Event::Encoded(Ok(text))) => {
                &&& still_writes(next.0.phase, outcome)
                &&& next.0.phase matches Phase::ReadingTtl(_, kept) && kept@ == text@
                &&& next.1 matches Action::ReadTtl { key } && key@ == transaction.key@
                &&& goes_on(next.0, transaction, transaction.attempt as int)
            },
            (Phase::ReadingTtl(outcome, text), Event::Ttl(Ok(ttl))) => {
                &&& still_writes(next.0.phase, outcome)
                &&& next.0.phase matches Phase::Opening { payload, ttl_seconds, .. } && payload@
                    == text@ && (ttl > 0 ==> ttl_seconds == ttl) && (ttl == 0 ==> ttl_seconds == 1)
                    && (ttl < 0 ==> ttl_seconds == transaction.default_ttl_seconds)
                &&& next.1 is Multi
                &&& goes_on(next.0, transaction, transaction.attempt as int)
            },
            (Phase::Opening { outcome, payload, ttl_seconds }, Event::Replied(Ok(_))) => {
                &&& next.0.phase is Writing
                &&& still_writes(next.0.phase, outcome)
                &&& next.1 matches Action::SetEx { key, ttl_seconds: ttl, payload: text } && key@
                    == transaction.key@ && ttl == ttl_seconds && text@ == payload@
                &&& goes_on(next.0, transaction, transaction.attempt as int)
            },
            (Phase::Writing(outcome), Event::Replied(Ok(_))) => {
                &&& next.0.phase is Executing
                &&& still_writes(next.0.phase, outcome)
                &&& next.1 is Exec
                &&& goes_on(next.0, transaction, transaction.attempt as int)
            },
            _ => true,
        },
{
    views_tell_changes_apart(next.0.change, transaction.change);
    let before = match transaction.phase {
        Phase::Encoding(outcome) => Some(outcome),
        Phase::ReadingTtl(outcome, _) => Some(outcome),
        Phase::Opening { outcome, .. } => Some(outcome),
        Phase::Writing(outcome) => Some(outcome),
        _ => None,
    };
    let after = match next.0.phase {
        Phase::ReadingTtl(outcome, _) => Some(outcome),
        Phase::Opening { outcome, .. } => Some(outcome),
        Phase::Writing(outcome) => Some(outcome),
        Phase::Executing(outcome) => Some(outcome),
        _ => None,
    };
    if before is Some && after is Some {
        views_tell_outcomes_apart(after->0, before->0);
    }
}

/// A write that took place is answered with what was written. One that did not, because the record
/// was touched, is tried again, up to sixteen tries in all; after the last one a claim, a
/// completion and a failure are given up, and a look for staleness answers with the record as it
/// is by then.
pub proof fn conflicts_are_tried_again(
    transaction: Transaction,
    event: Event,
    next: (Transaction, Action),
)
    requires
        call_ensures(Transaction::step, (transaction, event), next),
        transaction.phase is Executing,
        transaction.attempt < 16,
    ensures
        event == Event::Executed(Ok(true)) ==> (next.1 matches Action::Finish(Ok(outcome))
            && same_outcome(outcome, transaction.phase->Executing_0)) && next.0.phase is Finished,
        event == Event::Executed(Ok(false)) && transaction.attempt < 15 ==> next.0.phase is Discarding
            && next.1 is Discard && goes_on(next.0, transaction, transaction.attempt + 1),
        event == Event::Executed(Ok(false)) && transaction.attempt == 15
            && transaction.change is FailStale ==> next.0.phase is Reloading && (
        next.1 matches Action::Reload { key } && key@ == transaction.key@) && goes_on(
            next.0,
            transaction,
            15,
        ),
        event == Event::Executed(Ok(false)) && transaction.attempt == 15 && !(
        transaction.change is FailStale) ==> next.0.phase is Finished && (
        next.1 matches Action::Finish(Err(StoreError::Unavailable(message))) && message@
            == "background transition conflict retries exhausted for "@
            + transaction.response_id@),
{
    views_tell_changes_apart(next.0.change, transaction.change);
    if let Action::Finish(Ok(outcome)) = next.1 {
        views_tell_outcomes_apart(outcome, transaction.phase->Executing_0);
    }
}

/// The failure of Redis that an event reports, if any.
pub open spec fn reported_failure(event: Event) -> Option<crate::error::RedisFailure> {
    match event {
        Event::Replied(Err(err)) => Some(err),
        Event::Ttl(Err(err)) => Some(err),
        Event::Executed(Err(err)) => Some(err),
        Event::Loaded(Err(StoreError::Storage(err))) => Some(err),
        Event::Encoded(Err(StoreError::Storage(err))) => Some(err),
        _ => None,
    }
}

/// A failure of Redis is never the end of a change before the last try: the connection is replaced
/// and the change is tried again. After the last try, or where the connection cannot be replaced,
/// the error is answered.
pub proof fn failures_of_redis_are_tried_again(
    transaction: Transaction,
    event: Event,
    next: (Transaction, Action),
)
    requires
        call_ensures(Transaction::step, (transaction, event), next),
        call_ensures(Transaction::awaits, (&transaction, &event), true),
        transaction.attempt < 16,
    ensures
        !(transaction.phase is Discarding) && !(transaction.phase is Unwatching) && !(
        transaction.phase is Reloading) ==> (reported_failure(event) matches Some(err) ==> (
        next.0.phase matches Phase::Resetting(kept) && same_failure(kept, err))
            && next.1 is ResetConnection && goes_on(
            next.0,
            transaction,
            transaction.attempt as int,
        )),
        transaction.phase matches Phase::Resetting(err) ==> match event {
            Event::Reset(Ok(_)) => if transaction.attempt < 15 {
                next.0.phase is Discarding && next.1 is Discard && goes_on(
                    next.0,
                    transaction,
                    transaction.attempt + 1,
                )
            } else {
                next.0.phase is Finished && (next.1 matches Action::Finish(
                    Err(StoreError::Storage(answer)),
                ) && same_failure(answer, err))
            },
            Event::Reset(Err(cause)) => next.0.phase is Finished && (next.1 matches Action::Finish(
                Err(answer),
            ) && same_error(answer, cause)),
            _ => false,
        },
{
    views_tell_changes_apart(next.0.change, transaction.change);
    if let (Action::Finish(Err(answer)), Event::Reset(Err(cause))) = (next.1, event) {
        views_tell_errors_apart(answer, cause);
    }
}

/// A record that cannot be read or written as text is answered with that error at once.
pub proof fn other_errors_are_answered(
    transaction: Transaction,
    event: Event,
    next: (Transaction, Action),
)
    requires
        call_ensures(Transaction::step, (transaction, event), next),
    ensures
        match (transaction.phase, event) {
            (Phase::Reading, Event::Loaded(Err(err))) => !(err is Storage) ==> next.0.phase is Finished
                && (next.1 matches Action::Finish(Err(answer)) && same_error(answer, err)),
            (Phase::Encoding(_), Event::Encoded(Err(err))) => !(err is Storage)
                ==> next.0.phase is Finished && (next.1 matches Action::Finish(Err(answer))
                && same_error(answer, err)),
            _ => true,
        },
{
    if let (Action::Finish(Err(answer)), Event::Loaded(Err(err))) = (next.1, event) {
        views_tell_errors_apart(answer, err);
    }
    if let (Action::Finish(Err(answer)), Event::Encoded(Err(err))) = (next.1, event) {
        views_tell_errors_apart(answer, err);
    }
}

/// A change that meets no obstacle writes what it decided, after one look at the record: `WATCH`,
/// `GET`, `TTL`, `MULTI`, `SETEX` and `EXEC` follow each other, all on the record's key, and the
/// outcome is answered.
pub proof fn undisturbed_changes_are_written(
    start: TransactionView,
    record: crate::model::RecordView,
    outcome: crate::transaction::OutcomeView,
    text: Seq<char>,
    ttl: i64,
)
    requires
        start.phase is Discarding,
        start.change.decision(record, start.response_id) == DecisionView::Write(outcome),
    ensures
        ({
            let replied = EventView::Replied(Ok(()));
            let watching = start.step(replied);
            let reading = watching.0.step(replied);
            let encoding = reading.0.step(EventView::Loaded(Ok(Some(record))));
            let reading_ttl = encoding.0.step(EventView::Encoded(Ok(text)));
            let opening = reading_ttl.0.step(EventView::Ttl(Ok(ttl)));
            let writing = opening.0.step(replied);
            let executing = writing.0.step(replied);
            let finished = executing.0.step(EventView::Executed(Ok(true)));
            &&& watching.1 == (ActionView::Watch { key: start.key })
            &&& reading.1 == (ActionView::Read { key: start.key })
            &&& encoding.1 == (ActionView::Encode { record: outcome.record })
            &&& reading_ttl.1 == (ActionView::ReadTtl { key: start.key })
            &&& opening.1 == ActionView::Multi
            &&& writing.1 matches ActionView::SetEx { key, ttl_seconds, payload } && key
                == start.key && payload == text && (ttl > 0 ==> ttl_seconds == ttl)
            &&& executing.1 == ActionView::Exec
            &&& finished.1 == ActionView::Finish(Ok(outcome))
            &&& finished.0.phase == PhaseView::Finished
        }),
{
}

} // verus!

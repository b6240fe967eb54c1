//! Laws on messages: how records and jobs travel between clients and the server, and what a
//! client asks for and makes of a reply.

use vstd::prelude::*;

use super::states::{is_plain, lemma_plain, same, views_tell_records_apart};
use crate::client::{
    claim_reply, from_proto_record, is_failed_precondition, is_not_found, reconcile_reply,
    stats_reply, to_proto_record, ClaimBackgroundJobsResult, ClientError, StoreClient,
};
use crate::client::{received_job, received_jobs, ClientErrorView};
use crate::convert::{
    assemble_record, collect_values, core_job_to_proto, core_to_proto, decode_record,
    encode_record, pending_job_to_proto, proto_to_core, status_of_read_fault,
    status_of_write_fault, JsonFault, Parsed,
};
use crate::convert::{
    collected, decoded, encoded, encoded_job, encoded_pending_job, reading, readings, FaultView,
};
use crate::json::{documents_of, json_of, json_text, parsed_json, Json};
use crate::model::{BackgroundJob, JobView, PendingBackgroundJob, RecordView, StoredResponse};
use crate::proto::{
    job_messages, AcknowledgeBackgroundJobRequest, ClaimBackgroundJobsResponse,
    DeleteResponseRequest, EnqueueBackgroundJobRequest, EnsureConsumerGroupRequest,
    GetBackgroundQueueStatsRequest, GetBackgroundQueueStatsResponse, GetResponseRequest, JobMessage,
    ReconcileStaleResponseRequest, ReconcileStaleResponseResponse, StoreResponseRequest,
    UpdateResponseRequest,
};
use crate::queue::BackgroundQueueStats;
use crate::service::batch_to_proto;
use crate::status::{Code, Status};
use crate::text::{text_option, texts_of};

verus! {

/// Whether a message carries this record under this ID: its documents as the texts that are
/// written for them, in their order, and everything else as it is.
pub open spec fn carries(
    message: crate::proto::StoredResponse,
    response_id: Seq<char>,
    record: StoredResponse,
) -> bool {
    &&& message.response_id@ == response_id
    &&& message.upstream@ == record.upstream@
    &&& message.response_json@ == json_text(json_of(record.response))
    &&& message.input_json@.len() == record.input@.len()
    &&& forall|i: int|
        0 <= i < record.input@.len() ==> (#[trigger] message.input_json@[i])@ == json_text(
            json_of(record.input@[i]),
        )
    &&& match (message.pending_upstream_request_json, record.pending_upstream_request) {
        (Some(text), Some(request)) => text@ == json_text(json_of(request)),
        (None, None) => true,
        _ => false,
    }
    &&& match (message.upstream_authorization, record.upstream_authorization) {
        (Some(left), Some(right)) => left@ == right@,
        (None, None) => true,
        _ => false,
    }
    &&& message.enqueued_at == record.enqueued_at
}

/// A message that stands for a record carries it.
pub(crate) proof fn lemma_carries(
    message: crate::proto::StoredResponse,
    response_id: Seq<char>,
    record: StoredResponse,
)
    ensures
        message@ == encoded(response_id, record@) ==> carries(message, response_id, record),
{
    if message@ == encoded(response_id, record@) {
        let texts = texts_of(message.input_json@);
        let wanted = encoded(response_id, record@).input_json;
        assert(texts == wanted);
        assert(texts.len() == message.input_json@.len());
        assert(wanted.len() == record.input@.len());
        assert forall|i: int| 0 <= i < record.input@.len() implies (
        #[trigger] message.input_json@[i])@ == json_text(json_of(record.input@[i])) by {
            assert(texts[i] == message.input_json@[i]@);
            assert(wanted[i] == json_text(documents_of(record.input@)[i]));
        }
    }
}

/// Whether a message can be read as this record: its texts are read as the record's documents, an
/// empty pending request counts as none, and everything else is as it is.
pub open spec fn is_read_as(message: crate::proto::StoredResponse, record: StoredResponse) -> bool {
    &&& record.upstream@ == message.upstream@
    &&& parsed_json(message.response_json@) == Ok::<Json, Seq<char>>(json_of(record.response))
    &&& record.input@.len() == message.input_json@.len()
    &&& forall|i: int|
        0 <= i < record.input@.len() ==> parsed_json(#[trigger] message.input_json@[i]@) == Ok::<
            Json,
            Seq<char>,
        >(json_of(record.input@[i]))
    &&& match (message.pending_upstream_request_json, record.pending_upstream_request) {
        (Some(text), Some(request)) => text@.len() > 0 && parsed_json(text@) == Ok::<
            Json,
            Seq<char>,
        >(json_of(request)),
        (Some(text), None) => text@.len() == 0,
        (None, None) => true,
        (None, Some(_)) => false,
    }
    &&& match (message.upstream_authorization, record.upstream_authorization) {
        (Some(left), Some(right)) => left@ == right@,
        (None, None) => true,
        _ => false,
    }
    &&& record.enqueued_at == message.enqueued_at
}

/// Whether all texts of a message can be read.
pub open spec fn is_readable(message: crate::proto::StoredResponse) -> bool {
    &&& parsed_json(message.response_json@) is Ok
    &&& forall|i: int|
        0 <= i < message.input_json@.len() ==> parsed_json(#[trigger] message.input_json@[i]@) is Ok
    &&& message.pending_upstream_request_json matches Some(text) ==> text@.len() == 0
        || parsed_json(text@) is Ok
}

/// A list of readings gives all documents in their order, if none has failed.
proof fn lemma_collected_in_order(all: Seq<Result<Json, Seq<char>>>)
    ensures
        collected(all) is Ok <==> forall|i: int| 0 <= i < all.len() ==> (#[trigger] all[i]) is Ok,
        collected(all) matches Ok(documents) ==> documents.len() == all.len() && forall|i: int|
            0 <= i < all.len() ==> #[trigger] all[i] == Ok::<Json, Seq<char>>(documents[i]),
    decreases all.len(),
{
    if all.len() > 0 {
        let before = all.drop_last();
        lemma_collected_in_order(before);
        if collected(all) is Ok {
            let documents = collected(all)->Ok_0;
            assert forall|i: int| 0 <= i < all.len() implies #[trigger] all[i] == Ok::<
                Json,
                Seq<char>,
            >(documents[i]) by {
                if i < before.len() {
                    assert(before[i] == all[i]);
                }
            }
        } else {
            if collected(before) is Ok {
                assert(all[all.len() - 1] is Err);
            } else {
                let i = choose|i: int| 0 <= i < before.len() && !((#[trigger] before[i]) is Ok);
                assert(all[i] == before[i]);
            }
        }
    }
}

/// The first reading that failed is reported.
proof fn lemma_first_failure_is_told(all: Seq<Result<Json, Seq<char>>>, at: int)
    requires
        0 <= at < all.len(),
        all[at] is Err,
        forall|i: int| 0 <= i < at ==> (#[trigger] all[i]) is Ok,
    ensures
        collected(all) == Err::<Seq<Json>, Seq<char>>(all[at]->Err_0),
    decreases all.len(),
{
    let before = all.drop_last();
    if at == all.len() - 1 {
        lemma_collected_in_order(before);
        assert forall|i: int| 0 <= i < before.len() implies (#[trigger] before[i]) is Ok by {
            assert(all[i] is Ok);
        }
    } else {
        assert forall|i: int| 0 <= i < at implies (#[trigger] before[i]) is Ok by {
            assert(all[i] is Ok);
        }
        lemma_first_failure_is_told(before, at);
    }
}

/// Values are collected in their order where every reading has succeeded; else the message of the
/// first that failed is the answer.
pub proof fn readings_are_collected_in_order(
    parsed: &Vec<Parsed>,
    values: Result<Vec<serde_json::Value>, String>,
    at: int,
)
    requires
        call_ensures(collect_values, (parsed,), values),
    ensures
        values is Ok <==> forall|i: int| 0 <= i < parsed@.len() ==> (#[trigger] parsed@[i]) is Ok,
        values matches Ok(values) ==> values@.len() == parsed@.len() && (0 <= at < parsed@.len()
            ==> (parsed@[at] matches Ok(value) && json_of(values@[at]) == json_of(value))),
        0 <= at < parsed@.len() && parsed@[at] is Err && (forall|i: int|
            0 <= i < at ==> (#[trigger] parsed@[i]) is Ok) ==> (values matches Err(message)
            && message@ == parsed@[at]->Err_0@),
{
    let all = readings(parsed@);
    lemma_collected_in_order(all);
    assert forall|i: int| 0 <= i < all.len() implies (#[trigger] all[i] is Ok) == (
    parsed@[i] is Ok) by {
        assert(all[i] == reading(parsed@[i]));
    }
    if forall|i: int| 0 <= i < parsed@.len() ==> (#[trigger] parsed@[i]) is Ok {
        assert forall|i: int| 0 <= i < all.len() implies (#[trigger] all[i]) is Ok by {
            assert(parsed@[i] is Ok);
        }
    }
    if let Ok(values) = values {
        assert forall|i: int| 0 <= i < parsed@.len() implies (#[trigger] parsed@[i]) is Ok by {
            assert(all[i] is Ok);
        }
        assert(documents_of(values@).len() == values@.len());
        if 0 <= at < parsed@.len() {
            assert(all[at] == reading(parsed@[at]));
            assert(documents_of(values@)[at] == json_of(values@[at]));
        }
    }
    if 0 <= at < parsed@.len() && parsed@[at] is Err && (forall|i: int|
        0 <= i < at ==> (#[trigger] parsed@[i]) is Ok) {
        assert forall|i: int| 0 <= i < at implies (#[trigger] all[i]) is Ok by {
            assert(parsed@[i] is Ok);
        }
        assert(all[at] == reading(parsed@[at]));
        lemma_first_failure_is_told(all, at);
    }
}

/// A record is made of a message exactly if all of its readings have succeeded; the first that
/// failed is blamed, the response before the input and the input before the pending request.
pub proof fn records_are_assembled(
    message: &crate::proto::StoredResponse,
    response: Parsed,
    input: Vec<Parsed>,
    pending: Option<Parsed>,
    result: Result<StoredResponse, JsonFault>,
    at: int,
)
    requires
        call_ensures(assemble_record, (message, response, input, pending), result),
    ensures
        result is Ok <==> response is Ok && (forall|i: int|
            0 <= i < input@.len() ==> (#[trigger] input@[i]) is Ok) && (pending is None
            || pending->0 is Ok),
        result matches Ok(record) ==> {
            &&& record.upstream@ == message.upstream@
            &&& json_of(record.response) == json_of(response->Ok_0)
            &&& record.input@.len() == input@.len()
            &&& 0 <= at < input@.len() ==> json_of(record.input@[at]) == json_of(input@[at]->Ok_0)
            &&& record.pending_upstream_request is Some <==> pending is Some
            &&& pending matches Some(Ok(request)) ==> json_of(
                record.pending_upstream_request->0,
            ) == json_of(request)
            &&& text_option(record.upstream_authorization) == text_option(
                message.upstream_authorization,
            )
            &&& record.enqueued_at == message.enqueued_at
        },
        response matches Err(why) ==> (result matches Err(JsonFault::Response(message)) && message@
            == why@),
        response is Ok && 0 <= at < input@.len() && input@[at] is Err && (forall|i: int|
            0 <= i < at ==> (#[trigger] input@[i]) is Ok) ==> (result matches Err(
            JsonFault::Input(message),
        ) && message@ == input@[at]->Err_0@),
        response is Ok && (forall|i: int| 0 <= i < input@.len() ==> (#[trigger] input@[i]) is Ok)
            ==> (pending matches Some(Err(why)) ==> (result matches Err(
            JsonFault::PendingRequest(message),
        ) && message@ == why@)),
{
    let all = readings(input@);
    lemma_collected_in_order(all);
    assert forall|i: int| 0 <= i < all.len() implies #[trigger] all[i] == reading(input@[i]) by {}
    if forall|i: int| 0 <= i < input@.len() ==> (#[trigger] input@[i]) is Ok {
        assert forall|i: int| 0 <= i < all.len() implies (#[trigger] all[i]) is Ok by {
            assert(input@[i] is Ok);
        }
    }
    if collected(all) is Ok {
        assert forall|i: int| 0 <= i < input@.len() implies (#[trigger] input@[i]) is Ok by {
            assert(all[i] is Ok);
        }
    }
    if let Ok(record) = result {
        let documents = documents_of(record.input@);
        assert(documents.len() == record.input@.len());
        if 0 <= at < input@.len() {
            assert(all[at] == reading(input@[at]));
            assert(documents[at] == json_of(record.input@[at]));
        }
    }
    if 0 <= at < input@.len() && input@[at] is Err && (forall|i: int|
        0 <= i < at ==> (#[trigger] input@[i]) is Ok) {
        assert forall|i: int| 0 <= i < at implies (#[trigger] all[i]) is Ok by {
            assert(input@[i] is Ok);
        }
        lemma_first_failure_is_told(all, at);
    }
}

/// What holds of a message and the record that it is decoded as.
pub(crate) proof fn lemma_decoded(message: crate::proto::StoredResponse, record: StoredResponse)
    ensures
        decoded(message@) == Ok::<RecordView, FaultView>(record@) ==> is_read_as(message, record),
        decoded(message@) is Ok <==> is_readable(message),
{
    let texts = message@.input_json;
    let all = texts.map_values(|text: Seq<char>| parsed_json(text));
    lemma_collected_in_order(all);
    assert(texts.len() == message.input_json@.len());
    assert forall|i: int| 0 <= i < all.len() implies #[trigger] all[i] == parsed_json(
        message.input_json@[i]@,
    ) by {
        assert(texts[i] == message.input_json@[i]@);
    }
    if decoded(message@) == Ok::<RecordView, FaultView>(record@) {
        let documents = documents_of(record.input@);
        assert(documents.len() == record.input@.len());
        assert forall|i: int| 0 <= i < record.input@.len() implies parsed_json(
            #[trigger] message.input_json@[i]@,
        ) == Ok::<Json, Seq<char>>(json_of(record.input@[i])) by {
            assert(all[i] == parsed_json(message.input_json@[i]@));
            assert(documents[i] == json_of(record.input@[i]));
        }
    }
    if decoded(message@) is Ok {
        assert forall|i: int| 0 <= i < message.input_json@.len() implies parsed_json(
            #[trigger] message.input_json@[i]@,
        ) is Ok by {
            assert(all[i] is Ok);
        }
    }
    if is_readable(message) {
        assert forall|i: int| 0 <= i < all.len() implies (#[trigger] all[i]) is Ok by {
            assert(parsed_json(message.input_json@[i]@) is Ok);
        }
    }
}

/// A message is read as a record exactly if all its texts can be read, and then as the record that
/// these texts make.
pub proof fn messages_are_read(
    message: &crate::proto::StoredResponse,
    result: Result<StoredResponse, JsonFault>,
    at: int,
)
    requires
        call_ensures(decode_record, (message,), result),
    ensures
        result is Ok <==> is_readable(*message),
        result matches Ok(record) ==> is_read_as(*message, record),
        parsed_json(message.response_json@) matches Err(why) ==> (result matches Err(
            JsonFault::Response(reason),
        ) && reason@ == why),
        first_unreadable(*message, at) ==> (result matches Err(JsonFault::Input(reason))
            && parsed_json(message.input_json@[at]@) == Err::<Json, Seq<char>>(reason@)),
        only_pending_is_unreadable(*message) ==> (result matches Err(
            JsonFault::PendingRequest(reason),
        ) && parsed_json(message.pending_upstream_request_json->0@) == Err::<Json, Seq<char>>(
            reason@,
        )),
{
    if let Ok(record) = result {
        lemma_decoded(*message, record);
    } else {
        lemma_decoded(*message, arbitrary());
    }
    lemma_blamed(*message, at);
}

/// Whether the response of a message can be read and the item at `at` is the first of its input
/// that cannot.
pub open spec fn first_unreadable(message: crate::proto::StoredResponse, at: int) -> bool {
    &&& parsed_json(message.response_json@) is Ok
    &&& 0 <= at < message.input_json@.len()
    &&& parsed_json(message.input_json@[at]@) is Err
    &&& forall|i: int| 0 <= i < at ==> parsed_json(#[trigger] message.input_json@[i]@) is Ok
}

/// Whether everything of a message can be read but its pending request.
pub open spec fn only_pending_is_unreadable(message: crate::proto::StoredResponse) -> bool {
    &&& parsed_json(message.response_json@) is Ok
    &&& forall|i: int|
        0 <= i < message.input_json@.len() ==> parsed_json(#[trigger] message.input_json@[i]@) is Ok
    &&& message.pending_upstream_request_json matches Some(text) && text@.len() > 0 && parsed_json(
        text@,
    ) is Err
}

/// Which part of a message is blamed.
pub(crate) proof fn lemma_blamed(message: crate::proto::StoredResponse, at: int)
    ensures
        parsed_json(message.response_json@) matches Err(why) ==> decoded(message@) == Err::<
            RecordView,
            FaultView,
        >(FaultView::Response(why)),
        first_unreadable(message, at) ==> decoded(message@) == Err::<RecordView, FaultView>(
            FaultView::Input(parsed_json(message.input_json@[at]@)->Err_0),
        ),
        only_pending_is_unreadable(message) ==> decoded(message@) == Err::<RecordView, FaultView>(
            FaultView::PendingRequest(
                parsed_json(message.pending_upstream_request_json->0@)->Err_0,
            ),
        ),
{
    let texts = message@.input_json;
    let all = texts.map_values(|text: Seq<char>| parsed_json(text));
    lemma_collected_in_order(all);
    assert(texts.len() == message.input_json@.len());
    assert forall|i: int| 0 <= i < all.len() implies #[trigger] all[i] == parsed_json(
        message.input_json@[i]@,
    ) by {
        assert(texts[i] == message.input_json@[i]@);
    }
    if first_unreadable(message, at) {
        assert forall|i: int| 0 <= i < at implies (#[trigger] all[i]) is Ok by {
            assert(parsed_json(message.input_json@[i]@) is Ok);
        }
        lemma_first_failure_is_told(all, at);
    }
    if only_pending_is_unreadable(message) {
        assert forall|i: int| 0 <= i < all.len() implies (#[trigger] all[i]) is Ok by {
            assert(parsed_json(message.input_json@[i]@) is Ok);
        }
    }
}

/// The server reads a client's message by the same rule, and refuses what it cannot read as a bad
/// request that names the response and the part.
pub proof fn bad_messages_are_refused(
    message: &crate::proto::StoredResponse,
    result: Result<StoredResponse, Status>,
    at: int,
)
    requires
        call_ensures(proto_to_core, (message,), result),
    ensures
        result is Ok <==> is_readable(*message),
        result matches Ok(record) ==> is_read_as(*message, record),
        result matches Err(status) ==> status.code == Code::InvalidArgument,
        parsed_json(message.response_json@) matches Err(why) ==> (result matches Err(status)
            && status.message@ == "invalid response_json for "@ + message.response_id@ + ": "@
            + why),
        first_unreadable(*message, at) ==> (result matches Err(status) && status.message@
            == "invalid input_json entry for "@ + message.response_id@ + ": "@ + parsed_json(
            message.input_json@[at]@,
        )->Err_0),
        only_pending_is_unreadable(*message) ==> (result matches Err(status) && status.message@
            == "invalid pending_upstream_request_json for "@ + message.response_id@ + ": "@
            + parsed_json(message.pending_upstream_request_json->0@)->Err_0),
{
    if let Ok(record) = result {
        lemma_decoded(*message, record);
    } else {
        lemma_decoded(*message, arbitrary());
    }
    lemma_blamed(*message, at);
}

/// A part that cannot be read is reported as a bad request, which names the part, the response and
/// the reason.
pub proof fn unreadable_parts_are_named(response_id: &str, why: JsonFault, status: Status)
    requires
        call_ensures(status_of_read_fault, (response_id, why), status),
    ensures
        status.code == Code::InvalidArgument,
        match why {
            JsonFault::Response(reason) => status.message@ == "invalid response_json for "@
                + response_id@ + ": "@ + reason@,
            JsonFault::Input(reason) => status.message@ == "invalid input_json entry for "@
                + response_id@ + ": "@ + reason@,
            JsonFault::PendingRequest(reason) => status.message@
                == "invalid pending_upstream_request_json for "@ + response_id@ + ": "@ + reason@,
        },
{
}

/// A part that cannot be written is reported as an internal error, which names the part, the
/// response and the reason.
pub proof fn unwritable_parts_are_named(response_id: &str, why: JsonFault, status: Status)
    requires
        call_ensures(status_of_write_fault, (response_id, why), status),
    ensures
        status.code == Code::Internal,
        match why {
            JsonFault::Response(reason) => status.message@ == "failed to serialize response for "@
                + response_id@ + ": "@ + reason@,
            JsonFault::Input(reason) => status.message@ == "failed to serialize input for "@
                + response_id@ + ": "@ + reason@,
            JsonFault::PendingRequest(reason) => status.message@
                == "failed to serialize pending_upstream_request for "@ + response_id@ + ": "@
                + reason@,
        },
{
}

/// A record is always written as a message that carries it, and a plain one is read back as it was,
/// by the server as by the client.
pub proof fn records_are_carried(
    response_id: &str,
    record: &StoredResponse,
    written: Result<crate::proto::StoredResponse, JsonFault>,
    read: Result<StoredResponse, JsonFault>,
)
    requires
        call_ensures(encode_record, (response_id, record), written),
        written matches Ok(message) ==> call_ensures(decode_record, (&message,), read),
    ensures
        written matches Ok(message) && carries(message, response_id@, *record),
        is_plain(*record) ==> (read matches Ok(back) && same(back, *record)),
{
    if let Ok(message) = written {
        lemma_carries(message, response_id@, *record);
    }
    lemma_plain(*record);
    if let Ok(back) = read {
        views_tell_records_apart(back, *record);
    }
}

/// What the server sends carries the record under the response's ID, and the client reads a plain
/// one back as it was.
pub proof fn replies_carry_the_record(
    response_id: &str,
    record: &StoredResponse,
    sent: Result<crate::proto::StoredResponse, Status>,
    read: Result<StoredResponse, ClientError>,
)
    requires
        call_ensures(core_to_proto, (response_id, record), sent),
        sent matches Ok(message) ==> call_ensures(
            from_proto_record,
            (Some(&message), response_id),
            read,
        ),
    ensures
        sent matches Ok(message) && carries(message, response_id@, *record),
        is_plain(*record) ==> (read matches Ok(back) && same(back, *record)),
{
    if let Ok(message) = sent {
        lemma_carries(message, response_id@, *record);
    }
    lemma_plain(*record);
    if let Ok(back) = read {
        views_tell_records_apart(back, *record);
    }
}

/// What the client sends carries the record under the response's ID, and the server reads a plain
/// one back as it was.
pub proof fn requests_carry_the_record(
    response_id: &str,
    record: &StoredResponse,
    sent: Result<crate::proto::StoredResponse, ClientError>,
    read: Result<StoredResponse, Status>,
)
    requires
        call_ensures(to_proto_record, (response_id, record), sent),
        sent matches Ok(message) ==> call_ensures(proto_to_core, (&message,), read),
    ensures
        sent matches Ok(message) && carries(message, response_id@, *record),
        is_plain(*record) ==> (read matches Ok(back) && same(back, *record)),
{
    if let Ok(message) = sent {
        lemma_carries(message, response_id@, *record);
    }
    lemma_plain(*record);
    if let Ok(back) = read {
        views_tell_records_apart(back, *record);
    }
}

/// A reply without a record means that the response is not there; one with a record is read, or is
/// an error of the message.
pub proof fn replies_are_read(
    record: Option<&crate::proto::StoredResponse>,
    response_id: &str,
    result: Result<StoredResponse, ClientError>,
    at: int,
)
    requires
        call_ensures(from_proto_record, (record, response_id), result),
    ensures
        record is None ==> (result matches Err(ClientError::NotFound(id)) && id@ == response_id@),
        record matches Some(message) ==> (result is Ok <==> is_readable(*message)),
        record matches Some(message) ==> (result matches Ok(core) ==> is_read_as(*message, core)),
        record matches Some(message) ==> (result matches Err(err) ==> err is Serialization),
        record matches Some(message) ==> (parsed_json(message.response_json@) matches Err(why) ==> (
        result matches Err(ClientError::Serialization(reason)) && reason@ == why)),
        record matches Some(message) ==> (first_unreadable(*message, at) ==> (result matches Err(
            ClientError::Serialization(reason),
        ) && parsed_json(message.input_json@[at]@) == Err::<Json, Seq<char>>(reason@))),
        record matches Some(message) ==> (only_pending_is_unreadable(*message) ==> (
        result matches Err(ClientError::Serialization(reason)) && parsed_json(
            message.pending_upstream_request_json->0@,
        ) == Err::<Json, Seq<char>>(reason@))),
{
    if let Some(message) = record {
        lemma_blamed(*message, at);
        if let Ok(core) = result {
            lemma_decoded(*message, core);
        } else {
            lemma_decoded(*message, arbitrary());
        }
    }
}

/// Whether a message carries this job.
pub open spec fn carries_job(message: crate::proto::BackgroundJob, job: BackgroundJob) -> bool {
    &&& message.stream_id@ == job.stream_id@
    &&& message.response_id@ == job.response_id@
    &&& message.record matches Some(record) && carries(record, job.response_id@, job.record)
    &&& message.autoclaimed == job.autoclaimed
    &&& message.idle_ms == job.idle_ms
}

/// Whether a message carries this pending job.
pub open spec fn carries_pending_job(
    message: crate::proto::PendingBackgroundJob,
    job: PendingBackgroundJob,
) -> bool {
    &&& message.stream_id@ == job.stream_id@
    &&& message.response_id@ == job.response_id@
    &&& message.autoclaimed == job.autoclaimed
    &&& message.idle_ms == job.idle_ms
}

/// A job is always sent as a message that carries it.
pub proof fn jobs_are_carried(
    job: &BackgroundJob,
    result: Result<crate::proto::BackgroundJob, Status>,
)
    requires
        call_ensures(core_job_to_proto, (job,), result),
    ensures
        result matches Ok(message) && carries_job(message, *job),
{
    if let Ok(message) = result {
        if let Some(record) = message.record {
            lemma_carries(record, job.response_id@, job.record);
        }
    }
}

/// A pending job is sent as a message that carries it.
pub proof fn pending_jobs_are_carried(
    job: &PendingBackgroundJob,
    message: crate::proto::PendingBackgroundJob,
)
    requires
        call_ensures(pending_job_to_proto, (job,), message),
    ensures
        carries_pending_job(message, *job),
{
}

/// A worker is sent every job of its batch, ready or put off, in their order.
pub proof fn batches_are_carried(
    batch: crate::claim::ClaimBatchResult,
    result: Result<ClaimBackgroundJobsResponse, Status>,
    at: int,
)
    requires
        call_ensures(batch_to_proto, (batch,), result),
    ensures
        result matches Ok(message) && {
            &&& message.jobs@.len() == batch.jobs@.len()
            &&& 0 <= at < batch.jobs@.len() ==> carries_job(message.jobs@[at], batch.jobs@[at])
            &&& message.pending_jobs@.len() == batch.pending_jobs@.len()
            &&& 0 <= at < batch.pending_jobs@.len() ==> carries_pending_job(
                message.pending_jobs@[at],
                batch.pending_jobs@[at],
            )
            &&& message.pending_stream_ids@.len() == batch.pending_stream_ids@.len()
            &&& 0 <= at < batch.pending_stream_ids@.len() ==> message.pending_stream_ids@[at]@
                == batch.pending_stream_ids@[at]@
        },
{
    if let Ok(message) = result {
        let sent = crate::service::encoded_batch(batch@);
        assert(message@.jobs == sent.jobs);
        assert(message@.pending_jobs == sent.pending_jobs);
        assert(message@.jobs.len() == message.jobs@.len());
        assert(message@.pending_jobs.len() == message.pending_jobs@.len());
        assert(message@.pending_stream_ids == texts_of(message.pending_stream_ids@));
        assert(batch@.pending_stream_ids == texts_of(batch.pending_stream_ids@));
        assert(texts_of(message.pending_stream_ids@).len() == message.pending_stream_ids@.len());
        assert(texts_of(batch.pending_stream_ids@).len() == batch.pending_stream_ids@.len());
        if 0 <= at < batch.jobs@.len() {
            assert(message@.jobs[at] == message.jobs@[at]@);
            assert(sent.jobs[at] == encoded_job(batch.jobs@[at]@));
            if let Some(record) = message.jobs@[at].record {
                lemma_carries(record, batch.jobs@[at].response_id@, batch.jobs@[at].record);
            }
        }
        if 0 <= at < batch.pending_jobs@.len() {
            assert(message@.pending_jobs[at] == message.pending_jobs@[at]@);
            assert(sent.pending_jobs[at] == encoded_pending_job(batch.pending_jobs@[at]@));
        }
        if 0 <= at < batch.pending_stream_ids@.len() {
            assert(texts_of(message.pending_stream_ids@)[at] == message.pending_stream_ids@[at]@);
            assert(texts_of(batch.pending_stream_ids@)[at] == batch.pending_stream_ids@[at]@);
        }
    }
}

proof fn lemma_received_in_order(messages: Seq<JobMessage>)
    ensures
        received_jobs(messages) is Ok <==> forall|i: int|
            0 <= i < messages.len() ==> received_job(#[trigger] messages[i]) is Ok,
        received_jobs(messages) matches Ok(jobs) ==> jobs.len() == messages.len() && forall|i: int|
            0 <= i < messages.len() ==> received_job(#[trigger] messages[i]) == Ok::<
                JobView,
                ClientErrorView,
            >(jobs[i]),
    decreases messages.len(),
{
    if messages.len() > 0 {
        let before = messages.drop_last();
        lemma_received_in_order(before);
        if received_jobs(messages) is Ok {
            let jobs = received_jobs(messages)->Ok_0;
            assert forall|i: int| 0 <= i < messages.len() implies received_job(
                #[trigger] messages[i],
            ) == Ok::<JobView, ClientErrorView>(jobs[i]) by {
                if i < before.len() {
                    assert(before[i] == messages[i]);
                }
            }
        } else {
            if received_jobs(before) is Ok {
                assert(received_job(messages[messages.len() - 1]) is Err);
            } else {
                let i = choose|i: int|
                    0 <= i < before.len() && !(received_job(#[trigger] before[i]) is Ok);
                assert(messages[i] == before[i]);
            }
        }
    }
}

/// Whether a worker receives this job by the message: its record is read, and everything else is
/// as it was sent.
pub open spec fn is_received_as(message: crate::proto::BackgroundJob, job: BackgroundJob) -> bool {
    &&& job.stream_id@ == message.stream_id@
    &&& job.response_id@ == message.response_id@
    &&& message.record matches Some(record) && is_read_as(record, job.record)
    &&& job.autoclaimed == message.autoclaimed
    &&& job.idle_ms == message.idle_ms
}

/// A worker receives all jobs of a reply, in their order, if each has a record that can be read;
/// else it receives none of them. The pending jobs come as they were sent.
pub proof fn batches_are_received(
    response: ClaimBackgroundJobsResponse,
    result: Result<ClaimBackgroundJobsResult, ClientError>,
    at: int,
)
    requires
        call_ensures(claim_reply, (response,), result),
    ensures
        result is Ok <==> forall|i: int|
            0 <= i < response.jobs@.len() ==> ((#[trigger] response.jobs@[i]).record matches Some(
                record,
            ) && is_readable(record)),
        result matches Ok(batch) ==> {
            &&& batch.jobs@.len() == response.jobs@.len()
            &&& 0 <= at < response.jobs@.len() ==> is_received_as(
                response.jobs@[at],
                batch.jobs@[at],
            )
            &&& batch.pending_jobs@.len() == response.pending_jobs@.len()
            &&& 0 <= at < response.pending_jobs@.len() ==> carries_pending_job(
                response.pending_jobs@[at],
                batch.pending_jobs@[at],
            )
            &&& batch.pending_stream_ids@.len() == response.pending_stream_ids@.len()
            &&& 0 <= at < response.pending_stream_ids@.len() ==> batch.pending_stream_ids@[at]@
                == response.pending_stream_ids@[at]@
        },
{
    let messages = job_messages(response.jobs@);
    lemma_received_in_order(messages);
    assert forall|i: int| 0 <= i < messages.len() implies (received_job(
        #[trigger] messages[i],
    ) is Ok <==> (response.jobs@[i].record matches Some(record) && is_readable(record))) by {
        assert(messages[i] == response.jobs@[i]@);
        if let Some(record) = response.jobs@[i].record {
            lemma_decoded(record, arbitrary());
        }
    }
    if forall|i: int|
        0 <= i < response.jobs@.len() ==> ((#[trigger] response.jobs@[i]).record matches Some(
            record,
        ) && is_readable(record)) {
        assert forall|i: int| 0 <= i < messages.len() implies received_job(
            #[trigger] messages[i],
        ) is Ok by {
            assert(response.jobs@[i].record is Some);
        }
    }
    if let Ok(batch) = result {
        assert forall|i: int| 0 <= i < response.jobs@.len() implies ((
        #[trigger] response.jobs@[i]).record matches Some(record) && is_readable(record)) by {
            assert(received_job(messages[i]) is Ok);
        }
        let received_batch = batch@;
        assert(received_batch.jobs.len() == batch.jobs@.len());
        assert(received_batch.pending_jobs.len() == batch.pending_jobs@.len());
        assert(received_batch.pending_stream_ids == texts_of(batch.pending_stream_ids@));
        assert(response@.pending_stream_ids == texts_of(response.pending_stream_ids@));
        assert(texts_of(batch.pending_stream_ids@).len() == batch.pending_stream_ids@.len());
        assert(texts_of(response.pending_stream_ids@).len() == response.pending_stream_ids@.len());
        assert(response@.pending_jobs.len() == response.pending_jobs@.len());
        if 0 <= at < response.jobs@.len() {
            assert(messages[at] == response.jobs@[at]@);
            assert(received_batch.jobs[at] == batch.jobs@[at]@);
            if let Some(record) = response.jobs@[at].record {
                lemma_decoded(record, batch.jobs@[at].record);
            }
        }
        if 0 <= at < response.pending_jobs@.len() {
            assert(received_batch.pending_jobs[at] == batch.pending_jobs@[at]@);
            assert(response@.pending_jobs[at] == response.pending_jobs@[at]@);
        }
        if 0 <= at < response.pending_stream_ids@.len() {
            assert(texts_of(batch.pending_stream_ids@)[at] == batch.pending_stream_ids@[at]@);
            assert(texts_of(response.pending_stream_ids@)[at]
                == response.pending_stream_ids@[at]@);
        }
    }
}

proof fn lemma_first_unreceived(messages: Seq<JobMessage>, at: int)
    requires
        0 <= at < messages.len(),
        received_job(messages[at]) is Err,
        forall|i: int| 0 <= i < at ==> received_job(#[trigger] messages[i]) is Ok,
    ensures
        received_jobs(messages) == Err::<Seq<JobView>, ClientErrorView>(
            received_job(messages[at])->Err_0,
        ),
    decreases messages.len(),
{
    let before = messages.drop_last();
    lemma_received_in_order(before);
    assert forall|i: int| 0 <= i < at implies received_job(#[trigger] before[i]) is Ok by {
        assert(before[i] == messages[i]);
    }
    if at < before.len() {
        assert(before[at] == messages[at]);
        lemma_first_unreceived(before, at);
    }
}

/// The first job that cannot be received is the reason why a reply is refused: its record is not
/// there, or cannot be read.
pub proof fn the_first_bad_job_is_the_reason(
    response: ClaimBackgroundJobsResponse,
    result: Result<ClaimBackgroundJobsResult, ClientError>,
    at: int,
)
    requires
        call_ensures(claim_reply, (response,), result),
        0 <= at < response.jobs@.len(),
        forall|i: int|
            0 <= i < at ==> ((#[trigger] response.jobs@[i]).record matches Some(record)
                && is_readable(record)),
    ensures
        response.jobs@[at].record is None ==> (result matches Err(ClientError::NotFound(id)) && id@
            == response.jobs@[at].response_id@),
        response.jobs@[at].record matches Some(record) ==> (!is_readable(record) ==> (
        result matches Err(err) && err is Serialization)),
{
    let messages = job_messages(response.jobs@);
    assert forall|i: int| 0 <= i < at implies received_job(#[trigger] messages[i]) is Ok by {
        assert(messages[i] == response.jobs@[i]@);
        if let Some(record) = response.jobs@[i].record {
            lemma_decoded(record, arbitrary());
        }
    }
    assert(messages[at] == response.jobs@[at]@);
    if let Some(record) = response.jobs@[at].record {
        lemma_decoded(record, arbitrary());
    }
    if received_job(messages[at]) is Err {
        lemma_first_unreceived(messages, at);
    }
}

/// A worker receives the batch that it is sent, job by job, where its records are plain.
pub proof fn batches_arrive_as_they_are(
    batch: crate::claim::ClaimBatchResult,
    sent: Result<ClaimBackgroundJobsResponse, Status>,
    arrived: Result<ClaimBackgroundJobsResult, ClientError>,
)
    requires
        call_ensures(batch_to_proto, (batch,), sent),
        sent matches Ok(message) ==> call_ensures(claim_reply, (message,), arrived),
        forall|i: int| 0 <= i < batch.jobs@.len() ==> is_plain((#[trigger] batch.jobs@[i]).record),
    ensures
        arrived matches Ok(result) && result@ == batch@,
{
    assert forall|i: int| 0 <= i < batch@.jobs.len() implies (
    #[trigger] batch@.jobs[i]).record.is_plain() by {
        assert(batch@.jobs[i] == batch.jobs@[i]@);
        lemma_plain(batch.jobs@[i].record);
    }
    assert(batch@.is_plain());
}

/// Copies of what a worker has received, and an empty result, hold what they should.
pub proof fn received_batches_are_copied(
    batch: &ClaimBackgroundJobsResult,
    copy: ClaimBackgroundJobsResult,
    none: ClaimBackgroundJobsResult,
)
    requires
        call_ensures(ClaimBackgroundJobsResult::clone, (batch,), copy),
        call_ensures(ClaimBackgroundJobsResult::default, (), none),
    ensures
        copy@ == batch@,
        none.jobs@.len() == 0,
        none.pending_stream_ids@.len() == 0,
        none.pending_jobs@.len() == 0,
{
    assert(none@.jobs.len() == none.jobs@.len());
    assert(none@.pending_stream_ids.len() == none.pending_stream_ids@.len());
    assert(none@.pending_jobs.len() == none.pending_jobs@.len());
}

/// A client's call for jobs is answered as the reply reads.
pub proof fn claims_are_answered_by_the_reply(
    client: &StoreClient,
    response: ClaimBackgroundJobsResponse,
    result: Result<ClaimBackgroundJobsResult, ClientError>,
    read: Result<ClaimBackgroundJobsResult, ClientError>,
)
    requires
        call_ensures(StoreClient::claim_background_jobs, (client, response), result),
        call_ensures(claim_reply, (response,), read),
    ensures
        result is Ok <==> read is Ok,
        result matches Ok(batch) ==> batch@ == read->Ok_0@,
        result matches Err(err) ==> err@ == read->Err_0@,
{
}

/// Statistics are received as they were sent.
pub proof fn statistics_are_received(
    response: GetBackgroundQueueStatsResponse,
    stats: BackgroundQueueStats,
)
    requires
        call_ensures(stats_reply, (response,), stats),
    ensures
        stats.pending == response.pending,
        stats.in_progress == response.in_progress,
        stats.workload == response.workload,
{
}

/// A reconciled response is received with the word whether it has changed.
pub proof fn reconciliations_are_received(
    response: ReconcileStaleResponseResponse,
    response_id: &str,
    result: Result<(StoredResponse, bool), ClientError>,
)
    requires
        call_ensures(reconcile_reply, (response, response_id), result),
    ensures
        response.record is None ==> (result matches Err(ClientError::NotFound(id)) && id@
            == response_id@),
        response.record matches Some(message) ==> (result is Ok <==> is_readable(message)),
        response.record matches Some(message) ==> (result matches Ok((record, reconciled))
            ==> is_read_as(message, record) && reconciled == response.reconciled),
        response.record matches Some(message) ==> (result matches Err(err) ==> err is Serialization),
{
    if let Some(message) = response.record {
        if let Ok((record, _)) = result {
            lemma_decoded(message, record);
        } else {
            lemma_decoded(message, arbitrary());
        }
    }
}

/// A status that the server answers is the reason why a call failed.
pub proof fn statuses_are_reasons(status: Status, err: ClientError)
    requires
        call_ensures(ClientError::from, (status,), err),
    ensures
        err matches ClientError::Rpc(kept) && kept.code == status.code && kept.message@
            == status.message@,
{
}

/// A call failed for the state of the response exactly if the server says so.
pub proof fn preconditions_are_told(err: &ClientError, answer: bool)
    requires
        call_ensures(is_failed_precondition, (err,), answer),
    ensures
        answer <==> (*err matches ClientError::Rpc(status) && status.code
            == Code::FailedPrecondition),
{
}

/// A call failed for want of the response exactly if the server says so or its reply is empty.
pub proof fn absences_are_told(err: &ClientError, answer: bool)
    requires
        call_ensures(is_not_found, (err,), answer),
    ensures
        answer <==> (*err is NotFound) || (*err matches ClientError::Rpc(status) && status.code
            == Code::NotFound),
{
}

/// A request to store a response carries the record under its ID, and the lifetime; without one it
/// asks for the default by zero.
pub proof fn store_requests_carry_the_record(
    client: &StoreClient,
    response_id: &str,
    record: &StoredResponse,
    ttl_seconds: Option<u64>,
    request: Result<StoreResponseRequest, ClientError>,
)
    requires
        call_ensures(
            StoreClient::store_response,
            (client, response_id, record, ttl_seconds),
            request,
        ),
    ensures
        request matches Ok(request) && (request.record matches Some(message) && carries(
            message,
            response_id@,
            *record,
        )) && (ttl_seconds matches Some(ttl) ==> request.ttl_seconds == ttl) && (
        ttl_seconds is None ==> request.ttl_seconds == 0),
{
    if let Ok(request) = request {
        if let Some(message) = request.record {
            lemma_carries(message, response_id@, *record);
        }
    }
}

/// A request to replace a response carries the record under its ID, and the lifetime; without one
/// it asks for the default by zero.
pub proof fn update_requests_carry_the_record(
    client: &StoreClient,
    response_id: &str,
    record: &StoredResponse,
    ttl_seconds: Option<u64>,
    request: Result<UpdateResponseRequest, ClientError>,
)
    requires
        call_ensures(
            StoreClient::update_response,
            (client, response_id, record, ttl_seconds),
            request,
        ),
    ensures
        request matches Ok(request) && (request.record matches Some(message) && carries(
            message,
            response_id@,
            *record,
        )) && (ttl_seconds matches Some(ttl) ==> request.ttl_seconds == ttl) && (
        ttl_seconds is None ==> request.ttl_seconds == 0),
{
    if let Ok(request) = request {
        if let Some(message) = request.record {
            lemma_carries(message, response_id@, *record);
        }
    }
}

/// A request to enqueue a job carries the record under its ID.
pub proof fn enqueue_requests_carry_the_record(
    client: &StoreClient,
    response_id: &str,
    record: &StoredResponse,
    request: Result<EnqueueBackgroundJobRequest, ClientError>,
)
    requires
        call_ensures(
            StoreClient::enqueue_background_job,
            (client, response_id, record),
            request,
        ),
    ensures
        request matches Ok(request) && (request.record matches Some(message) && carries(
            message,
            response_id@,
            *record,
        )),
{
    if let Ok(request) = request {
        if let Some(message) = request.record {
            lemma_carries(message, response_id@, *record);
        }
    }
}

/// The other requests of a client ask for what the caller asks for.
pub proof fn requests_ask_for_what_is_wanted(
    client: &StoreClient,
    response_id: &str,
    consumer_group: &str,
    other: &str,
    reconcile_stale: bool,
    get: GetResponseRequest,
    delete: DeleteResponseRequest,
    acknowledge: AcknowledgeBackgroundJobRequest,
    ensure: EnsureConsumerGroupRequest,
    stats: GetBackgroundQueueStatsRequest,
)
    requires
        call_ensures(StoreClient::get_response, (client, response_id, reconcile_stale), get),
        call_ensures(StoreClient::delete_response, (client, response_id), delete),
        call_ensures(
            StoreClient::acknowledge_background_job,
            (client, consumer_group, other),
            acknowledge,
        ),
        call_ensures(StoreClient::ensure_consumer_group, (client, consumer_group, other), ensure),
        call_ensures(StoreClient::get_background_queue_stats, (client, consumer_group), stats),
    ensures
        get.response_id@ == response_id@,
        get.reconcile_stale == reconcile_stale,
        delete.response_id@ == response_id@,
        acknowledge.consumer_group@ == consumer_group@,
        acknowledge.stream_id@ == other@,
        ensure.consumer_group@ == consumer_group@,
        ensure.start_id@ == other@,
        stats.consumer_group@ == consumer_group@,
{
}

/// A request to reconcile a response names it and the limit; without one it asks for the default
/// by zero.
pub proof fn reconcile_requests_carry_the_limit(
    client: &StoreClient,
    response_id: &str,
    stale_seconds: Option<i64>,
    request: ReconcileStaleResponseRequest,
)
    requires
        call_ensures(
            StoreClient::reconcile_stale_response,
            (client, response_id, stale_seconds),
            request,
        ),
    ensures
        request.response_id@ == response_id@,
        stale_seconds matches Some(seconds) ==> request.stale_seconds == seconds,
        stale_seconds is None ==> request.stale_seconds == 0,
{
}

} // verus!

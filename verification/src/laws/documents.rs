//! Laws on JSON documents and their fields.

use vstd::prelude::*;

use crate::json::{alike, json_of, precedes, Json, MAX_DEPTH};
use crate::model::{
    build_cancelled_response, build_deleted_response, build_failed_response,
    build_queued_response, build_upstream_request, lemma_names_differ, response_id_from_value,
    StoredResponse,
};

verus! {

/// Whether a document is an object in which `key` has this value.
pub open spec fn holds(document: Json, key: Seq<char>, value: Json) -> bool {
    document matches Json::Object(fields) && fields.contains_key(key) && fields[key] == value
}

/// Whether a document is no object or has no field `key`.
pub open spec fn lacks(document: Json, key: Seq<char>) -> bool {
    document matches Json::Object(fields) ==> !fields.contains_key(key)
}

/// A field is found exactly where an object has it, with its value, and a text only where the
/// field is a string.
pub proof fn fields_are_found(document: Json, key: Seq<char>, value: Json, text: Seq<char>)
    ensures
        document.field(key) == Some(value) <==> holds(document, key, value),
        document.field(key) is None <==> lacks(document, key),
        document.text_field(key) == Some(text) <==> holds(document, key, Json::Str(text)),
{
}

/// Setting a field changes that field and no other one; `Null` becomes an object.
pub proof fn fields_are_set(document: Json, key: Seq<char>, value: Json, other: Seq<char>)
    requires
        document is Object || document is Null,
    ensures
        holds(document.with_field(key, value), key, value),
        other != key ==> document.with_field(key, value).field(other) == document.field(other),
        document.takes_fields(),
{
}

/// Only objects and `Null` take fields.
pub proof fn other_documents_take_no_fields(document: Json)
    requires
        !(document is Object),
        !(document is Null),
    ensures
        !document.takes_fields(),
{
}

/// A document whose numbers are all whole equals only itself to `serde_json`.
pub proof fn alike_documents_are_the_same(left: Json, right: Json, depth: nat)
    requires
        left.is_plain(depth),
        alike(left, right),
    ensures
        left == right,
    decreases depth,
{
    match (left, right) {
        (Json::Array(a), Json::Array(b)) => {
            assert forall|i: int| 0 <= i < a.len() implies a[i] == b[i] by {
                alike_documents_are_the_same(a[i], b[i], (depth - 1) as nat);
            }
            assert(a == b);
        },
        (Json::Object(a), Json::Object(b)) => {
            assert forall|key: Seq<char>| a.contains_key(key) implies a[key] == b[key] by {
                alike_documents_are_the_same(a[key], b[key], (depth - 1) as nat);
            }
            assert(a == b);
        },
        _ => {},
    }
}

/// A plain document is no fraction, and its items and fields are plain documents, too.
pub proof fn plain_documents_are_whole(document: Json, depth: nat, at: int, key: Seq<char>)
    requires
        document.is_plain(depth),
    ensures
        !(document is Float),
        document matches Json::Array(items) ==> depth > 0 && (0 <= at < items.len()
            ==> items[at].is_plain((depth - 1) as nat)),
        document matches Json::Object(fields) ==> depth > 0 && (fields.contains_key(key)
            ==> fields[key].is_plain((depth - 1) as nat)),
{
}

/// Texts, truth values, whole numbers and `Null` are plain at every depth.
pub proof fn simple_documents_are_plain(
    text: Seq<char>,
    truth: bool,
    number: int,
    depth: nat,
)
    ensures
        Json::Str(text).is_plain(depth),
        Json::Bool(truth).is_plain(depth),
        Json::Integer(number).is_plain(depth),
        Json::Null.is_plain(depth),
        !alike(Json::Str(text), Json::Bool(truth)),
        !alike(Json::Bool(truth), Json::Bool(!truth)),
{
}

/// Plain documents make plain arrays, and plain objects where no field has the name that
/// `serde_json` reserves; 127 of them may be nested.
pub proof fn plain_documents_are_composed(
    items: Seq<Json>,
    fields: Map<Seq<char>, Json>,
    depth: nat,
)
    requires
        forall|i: int| 0 <= i < items.len() ==> (#[trigger] items[i]).is_plain(depth),
        forall|key: Seq<char>|
            fields.contains_key(key) ==> (#[trigger] fields[key]).is_plain(depth),
        !fields.contains_key("$serde_json::private::RawValue"@),
    ensures
        Json::Array(items).is_plain(depth + 1),
        Json::Object(fields).is_plain(depth + 1),
        MAX_DEPTH == 127,
{
}

/// Texts are ordered by their first difference; a text comes before every longer one that begins
/// with it.
pub proof fn texts_are_ordered(left: Seq<char>, right: Seq<char>, a: char, b: char)
    ensures
        precedes(Seq::empty(), seq![b] + right),
        !precedes(left, Seq::empty()),
        a < b ==> precedes(seq![a] + left, seq![b] + right),
        b < a ==> !precedes(seq![a] + left, seq![b] + right),
        precedes(seq![a] + left, seq![a] + right) == precedes(left, right),
{
    assert((seq![a] + left).skip(1) == left);
    assert((seq![a] + right).skip(1) == right);
}

/// The name that `serde_json` reserves does not matter behind a smaller one.
pub proof fn reserved_names_may_follow_others(
    fields: Map<Seq<char>, Json>,
    smaller: Seq<char>,
    depth: nat,
)
    requires
        forall|key: Seq<char>|
            fields.contains_key(key) ==> (#[trigger] fields[key]).is_plain(depth),
        fields.contains_key(smaller),
        precedes(smaller, "$serde_json::private::RawValue"@),
    ensures
        Json::Object(fields).is_plain(depth + 1),
{
}

/// Whether a document names a response: its `id` is a text that begins with `resp_`.
pub open spec fn names_response(document: Json, id: Seq<char>) -> bool {
    holds(document, "id"@, Json::Str(id)) && id.len() >= 5 && id.take(5) == seq![
        'r',
        'e',
        's',
        'p',
        '_',
    ]
}

/// A document's own response ID is found before the one of the document in its field `response`,
/// and nothing else is taken for one.
pub proof fn response_ids_are_found(
    value: &serde_json::Value,
    found: Option<String>,
    own: Seq<char>,
    inner: Json,
    inner_id: Seq<char>,
)
    requires
        call_ensures(response_id_from_value, (value,), found),
    ensures
        names_response(json_of(*value), own) ==> (found matches Some(id) && id@ == own),
        found matches Some(id) ==> names_response(json_of(*value), id@) || (json_of(*value).field(
            "response"@,
        ) matches Some(response) && names_response(response, id@)),
        (forall|id: Seq<char>| !names_response(json_of(*value), id)) && holds(
            json_of(*value),
            "response"@,
            inner,
        ) && names_response(inner, inner_id) ==> (found matches Some(id) && id@ == inner_id),
{
    reveal_strlit("resp_");
    assert("resp_"@ == seq!['r', 'e', 's', 'p', '_']);
    assert forall|id: Seq<char>| id.len() >= 5 implies id.take(5) == #[trigger] id.subrange(
        0,
        5,
    ) by {}
    let document = json_of(*value);
    if names_response(document, own) {
        assert(own.subrange(0, 5) == own.take(5));
    }
    if names_response(inner, inner_id) {
        assert(inner_id.subrange(0, 5) == inner_id.take(5));
    }
    if let Some(id) = document.text_field("id"@) {
        if id.len() >= 5 {
            assert(id.take(5) == id.subrange(0, 5));
        }
        assert(crate::text::has_prefix(id, "resp_"@) ==> names_response(document, id));
    }
    if let Some(response) = document.field("response"@) {
        if let Some(id) = response.text_field("id"@) {
            if id.len() >= 5 {
                assert(id.take(5) == id.subrange(0, 5));
            }
        }
    }
}

/// The response of a request that waits carries its ID, its model, the status `queued`, the
/// background marker, an empty output and the request's input, and nothing else.
pub proof fn queued_responses_are_complete(
    response_id: &str,
    model: &str,
    request: &serde_json::Value,
    response: serde_json::Value,
    input: Json,
    other: Seq<char>,
)
    requires
        call_ensures(build_queued_response, (response_id, model, request), response),
    ensures
        holds(json_of(response), "id"@, Json::Str(response_id@)),
        holds(json_of(response), "object"@, Json::Str("response"@)),
        holds(json_of(response), "status"@, Json::Str("queued"@)),
        holds(json_of(response), "model"@, Json::Str(model@)),
        holds(json_of(response), "background"@, Json::Bool(true)),
        holds(json_of(response), "output"@, Json::Array(Seq::empty())),
        holds(json_of(*request), "input"@, input) ==> holds(json_of(response), "input"@, input),
        lacks(json_of(*request), "input"@) ==> lacks(json_of(response), "input"@),
        other != "id"@ && other != "object"@ && other != "status"@ && other != "model"@ && other
            != "background"@ && other != "output"@ && other != "input"@ ==> lacks(
            json_of(response),
            other,
        ),
{
    lemma_names_differ();
    lemma_more_names_differ();
}

/// More names of fields differ from each other.
pub(crate) proof fn lemma_more_names_differ()
    ensures
        "model"@ != "input"@,
        "model"@ != "background"@,
        "model"@ != "output"@,
        "model"@ != "object"@,
        "output"@ != "input"@,
        "output"@ != "background"@,
        "output"@ != "object"@,
        "input"@ != "background"@,
        "input"@ != "object"@,
        "error"@ != "background"@,
        "error"@ != "object"@,
        "deleted"@ != "background"@,
        "deleted"@ != "object"@,
        "message"@ != "type"@,
        "background"@ != "previous_response_id"@,
        "failed"@ != "completed"@,
        "failed"@ != "cancelled"@,
        "failed"@ != "deleted"@,
        "completed"@ != "cancelled"@,
        "completed"@ != "deleted"@,
        "cancelled"@ != "deleted"@,
{
    reveal_strlit("model");
    reveal_strlit("input");
    reveal_strlit("background");
    reveal_strlit("output");
    reveal_strlit("object");
    reveal_strlit("error");
    reveal_strlit("deleted");
    reveal_strlit("message");
    reveal_strlit("type");
    reveal_strlit("previous_response_id");
    reveal_strlit("failed");
    reveal_strlit("completed");
    reveal_strlit("cancelled");
    assert("model"@.len() == 5);
    assert("input"@.len() == 5);
    assert("background"@.len() == 10);
    assert("output"@.len() == 6);
    assert("object"@.len() == 6);
    assert("error"@.len() == 5);
    assert("deleted"@.len() == 7);
    assert("message"@.len() == 7);
    assert("type"@.len() == 4);
    assert("previous_response_id"@.len() == 20);
    assert("failed"@.len() == 6);
    assert("completed"@.len() == 9);
    assert("cancelled"@.len() == 9);
    assert("model"@[0] != "input"@[0]);
    assert("output"@[1] != "object"@[1]);
    assert("completed"@[1] != "cancelled"@[1]);
}

/// What is sent upstream for a client's object is not stored, not run in the background and
/// follows no other response; every other field is the client's. What is no object is sent as it
/// is.
pub proof fn upstream_requests_are_synchronous(
    request: &serde_json::Value,
    upstream: serde_json::Value,
    other: Seq<char>,
)
    requires
        call_ensures(build_upstream_request, (request,), upstream),
    ensures
        json_of(*request) is Object ==> {
            &&& holds(json_of(upstream), "store"@, Json::Bool(false))
            &&& lacks(json_of(upstream), "background"@)
            &&& lacks(json_of(upstream), "previous_response_id"@)
            &&& other != "store"@ && other != "background"@ && other != "previous_response_id"@
                ==> json_of(upstream).field(other) == json_of(*request).field(other)
        },
        !(json_of(*request) is Object) ==> json_of(upstream) == json_of(*request),
{
    lemma_names_differ();
}

/// A cancelled response has the status `cancelled`, its ID and the background marker; every other
/// field stays as it was.
pub proof fn cancelled_responses_keep_the_rest(
    stored: &StoredResponse,
    response_id: &str,
    response: serde_json::Value,
    other: Seq<char>,
)
    requires
        json_of(stored.response) is Object || json_of(stored.response) is Null,
        call_ensures(build_cancelled_response, (stored, response_id), response),
    ensures
        holds(json_of(response), "id"@, Json::Str(response_id@)),
        holds(json_of(response), "status"@, Json::Str("cancelled"@)),
        holds(json_of(response), "background"@, Json::Bool(true)),
        other != "id"@ && other != "status"@ && other != "background"@ ==> json_of(response).field(
            other,
        ) == json_of(stored.response).field(other),
{
    lemma_names_differ();
}

/// Whether a document is the response of a job that failed with that message.
pub open spec fn reports_failure(
    document: Json,
    response_id: Seq<char>,
    error_message: Seq<char>,
) -> bool {
    &&& holds(document, "id"@, Json::Str(response_id))
    &&& holds(document, "object"@, Json::Str("response"@))
    &&& holds(document, "status"@, Json::Str("failed"@))
    &&& holds(document, "background"@, Json::Bool(true))
    &&& document.field("error"@) matches Some(error) && holds(
        error,
        "message"@,
        Json::Str(error_message),
    ) && holds(error, "type"@, Json::Str("server_error"@)) && (forall|key: Seq<char>|
        key != "message"@ && key != "type"@ ==> #[trigger] lacks(error, key))
    &&& forall|key: Seq<char>|
        key != "id"@ && key != "object"@ && key != "status"@ && key != "background"@ && key
            != "error"@ ==> #[trigger] lacks(document, key)
}

/// The response of a failed job has the status `failed` and carries its ID, the background marker
/// and an error with the message, and nothing else.
pub proof fn failed_responses_are_complete(
    response_id: &str,
    error_message: &str,
    response: serde_json::Value,
)
    requires
        call_ensures(build_failed_response, (response_id, error_message), response),
    ensures
        reports_failure(json_of(response), response_id@, error_message@),
{
    lemma_names_differ();
    lemma_more_names_differ();
}

/// Whether a document is the mark of a deleted response.
pub open spec fn marks_deletion(document: Json, response_id: Seq<char>) -> bool {
    &&& holds(document, "id"@, Json::Str(response_id))
    &&& holds(document, "object"@, Json::Str("response"@))
    &&& holds(document, "status"@, Json::Str("deleted"@))
    &&& holds(document, "background"@, Json::Bool(true))
    &&& holds(document, "deleted"@, Json::Bool(true))
    &&& forall|key: Seq<char>|
        key != "id"@ && key != "object"@ && key != "status"@ && key != "background"@ && key
            != "deleted"@ ==> #[trigger] lacks(document, key)
}

/// The mark of a deleted response has the status `deleted`, carries its ID and says so, and
/// nothing else.
pub proof fn deleted_responses_are_marked(response_id: &str, response: serde_json::Value)
    requires
        call_ensures(build_deleted_response, (response_id,), response),
    ensures
        marks_deletion(json_of(response), response_id@),
{
    lemma_names_differ();
    lemma_more_names_differ();
}

} // verus!

use responses_api_store::error::{classify_error, is_busygroup, is_missing_stream, RedisFailure};
use responses_api_store::model::{
    copy_value_option, copy_values, is_claimable_background, is_stale_enqueued,
    response_id_from_uuid, same_record, should_reconcile_stale, unix_seconds,
};
use responses_api_store::store::{
    apply_stale_failure, prepare_claim_background, prepare_complete_background,
    prepare_fail_background, reconcile_write_ttl,
};
use responses_api_store::{
    autoclaim_cursor_key, build_cancelled_response, build_queued_response, build_upstream_request,
    generate_response_id, is_deleted_tombstone, is_in_flight_background,
    is_in_progress_background, is_terminal_background_status, redis_error_kind,
    response_id_from_value, response_store_key, stored_response_status, unix_seconds_now,
    PendingBackgroundJob, StoreError, StoredResponse,
};
use serde_json::Value;

fn json(text: &str) -> Value {
    serde_json::from_str(text).unwrap()
}

fn record(response: &str) -> StoredResponse {
    StoredResponse {
        upstream: "http://model".to_string(),
        response: json(response),
        input: vec![],
        pending_upstream_request: None,
        upstream_authorization: None,
        enqueued_at: None,
    }
}

fn queued() -> StoredResponse {
    StoredResponse {
        upstream: "http://model/v1".to_string(),
        response: json(r#"{"id":"resp_1","status":"queued","model":"demo"}"#),
        input: vec![json(r#"{"role":"user"}"#)],
        pending_upstream_request: Some(json(r#"{"input":"hello"}"#)),
        upstream_authorization: Some("Bearer token".to_string()),
        enqueued_at: Some(1_746_500_000),
    }
}

#[test]
fn strips_background_from_upstream_request() {
    let request = json(
        r#"{
            "model": "demo",
            "input": "hello",
            "background": true,
            "previous_response_id": "resp_old",
            "store": true
        }"#,
    );
    assert_eq!(
        build_upstream_request(&request),
        json(
            r#"{
                "model": "demo",
                "input": "hello",
                "store": false
            }"#
        )
    );
}

#[test]
fn upstream_request_of_no_object_is_unchanged() {
    for text in ["null", "[1]", "\"x\"", "3"] {
        assert_eq!(build_upstream_request(&json(text)), json(text));
    }
    assert_eq!(build_upstream_request(&json("{}")), json(r#"{"store":false}"#));
    let once = build_upstream_request(&json(r#"{"store":true,"x":[]}"#));
    assert_eq!(build_upstream_request(&once), once);
}

#[test]
fn detects_in_flight_background_responses() {
    let queued = StoredResponse {
        upstream: "http://model".to_string(),
        response: json(r#"{"status": "queued", "background": true}"#),
        input: vec![],
        pending_upstream_request: Some(json(r#"{"input": "hi"}"#)),
        upstream_authorization: None,
        enqueued_at: None,
    };
    assert!(is_in_flight_background(&queued));
}

#[test]
fn detects_deleted_tombstone() {
    let deleted = StoredResponse {
        upstream: "http://model".to_string(),
        response: json(r#"{"status": "deleted", "background": true, "deleted": true}"#),
        input: vec![],
        pending_upstream_request: None,
        upstream_authorization: None,
        enqueued_at: None,
    };
    assert!(is_deleted_tombstone(&deleted));
}

#[test]
fn states_follow_the_status() {
    let cases = [
        ("queued", true, false, false),
        ("in_progress", true, true, false),
        ("completed", false, false, true),
        ("failed", false, false, true),
        ("cancelled", false, false, true),
        ("deleted", false, false, true),
        ("unknown", false, false, false),
    ];
    for (status, in_flight, in_progress, terminal) in cases {
        let stored = record(&format!("{{\"status\":\"{status}\"}}"));
        assert_eq!(stored_response_status(&stored), Some(status));
        assert_eq!(is_in_flight_background(&stored), in_flight);
        assert_eq!(is_in_progress_background(&stored), in_progress);
        assert_eq!(is_terminal_background_status(&stored), terminal);
        assert_eq!(is_deleted_tombstone(&stored), status == "deleted");
        assert_eq!(should_reconcile_stale(&stored), status == "queued");
        assert!(!is_claimable_background(&stored));
        let mut waiting = stored.clone();
        waiting.pending_upstream_request = Some(Value::Null);
        assert!(is_in_flight_background(&waiting));
        assert_eq!(is_claimable_background(&waiting), status == "queued");
    }
    for response in ["null", "[]", "{}", r#"{"status":3}"#, r#""queued""#] {
        assert_eq!(stored_response_status(&record(response)), None);
        assert!(!is_in_flight_background(&record(response)));
    }
}

#[test]
fn detects_stale_enqueued_responses() {
    assert!(!is_stale_enqueued(None, 1000, 60));
    assert!(!is_stale_enqueued(Some(950), 1000, 60));
    assert!(is_stale_enqueued(Some(900), 1000, 60));
}

#[test]
fn staleness_lasts_and_holds_for_lower_limits() {
    assert!(is_stale_enqueued(Some(900), 1000, 100));
    assert!(is_stale_enqueued(Some(900), 1001, 100));
    assert!(is_stale_enqueued(Some(900), 1000, 99));
    assert!(is_stale_enqueued(Some(900), 5000, 0));
    assert!(!is_stale_enqueued(Some(900), 1000, 101));
}

#[test]
fn waiting_times_saturate() {
    assert!(is_stale_enqueued(Some(940), 1000, 60));
    assert!(is_stale_enqueued(Some(i64::MIN), i64::MAX, i64::MAX));
    assert!(!is_stale_enqueued(Some(i64::MAX), i64::MIN, i64::MIN + 1));
    assert!(is_stale_enqueued(Some(i64::MAX), i64::MIN, i64::MIN));
    assert!(is_stale_enqueued(Some(2000), 1000, -1000));
}

#[test]
fn builds_autoclaim_cursor_key() {
    assert_eq!(
        autoclaim_cursor_key("responses-api-store:background", "workers"),
        "responses-api-store:background:meta:autoclaim:workers"
    );
}

#[test]
fn builds_store_key() {
    assert_eq!(response_store_key("prefix", "resp_1"), "prefix:resp_1");
    assert_ne!(response_store_key("p", "a"), response_store_key("p", "b"));
}

#[test]
fn finds_response_ids() {
    let cases = [
        (r#"{"id":"resp_1"}"#, Some("resp_1")),
        (r#"{"id":"resp_1","response":{"id":"resp_2"}}"#, Some("resp_1")),
        (r#"{"id":"msg_1","response":{"id":"resp_2"}}"#, Some("resp_2")),
        (r#"{"id":7,"response":{"id":"resp_2"}}"#, Some("resp_2")),
        (r#"{"response":{"id":"msg_2"}}"#, None),
        (r#"{"response":"resp_2"}"#, None),
        (r#"{"id":"resp_"}"#, Some("resp_")),
        (r#"["resp_1"]"#, None),
        ("null", None),
    ];
    for (text, expected) in cases {
        assert_eq!(response_id_from_value(&json(text)).as_deref(), expected);
    }
}

#[test]
fn generated_ids_are_response_ids() {
    let id = generate_response_id();
    assert!(id.starts_with("resp_"));
    assert_eq!(id.len(), 37);
    assert!(id[5..]
        .chars()
        .all(|c| c.is_ascii_digit() || ('a'..='f').contains(&c)));
    assert_eq!(&id[17..18], "4");
    assert_ne!(id, generate_response_id());
    assert_eq!(response_id_from_uuid("0f"), "resp_0f");
}

#[test]
fn builds_queued_response() {
    assert_eq!(
        build_queued_response("resp_1", "demo", &json(r#"{"input":["hi"],"x":1}"#)),
        json(
            r#"{"id":"resp_1","object":"response","status":"queued","model":"demo",
                "background":true,"output":[],"input":["hi"]}"#
        )
    );
    assert_eq!(
        build_queued_response("resp_1", "demo", &json("[]")),
        json(
            r#"{"id":"resp_1","object":"response","status":"queued","model":"demo",
                "background":true,"output":[]}"#
        )
    );
}

#[test]
fn builds_cancelled_response() {
    assert_eq!(
        build_cancelled_response(&queued(), "resp_9"),
        json(r#"{"id":"resp_9","status":"cancelled","model":"demo","background":true}"#)
    );
    assert_eq!(
        build_cancelled_response(&record("null"), "resp_9"),
        json(r#"{"id":"resp_9","status":"cancelled","background":true}"#)
    );
}

#[test]
fn clock_readings_become_signed_seconds() {
    assert_eq!(unix_seconds(Some(1_746_500_000)), 1_746_500_000);
    assert_eq!(unix_seconds(None), 0);
    assert_eq!(unix_seconds(Some(u64::MAX)), -1);
    assert_eq!(unix_seconds(Some(1 << 63)), i64::MIN);
    assert!(unix_seconds_now() > 1_700_000_000);
}

#[test]
fn pending_background_job_propagates_autoclaim_metadata() {
    let job = PendingBackgroundJob {
        stream_id: "1-0".to_string(),
        response_id: "resp_test".to_string(),
        autoclaimed: true,
        idle_ms: Some(5000),
    };
    assert!(job.autoclaimed);
    assert_eq!(job.idle_ms, Some(5000));
    assert_eq!(job.clone(), job);
}

#[test]
fn records_are_copied_and_compared() {
    let one = queued();
    let copy = one.clone();
    assert_eq!(one, copy);
    assert!(same_record(&one, &copy));
    let mut other = queued();
    other.input.push(Value::Null);
    assert!(!same_record(&one, &other));
    let mut other = queued();
    other.input = vec![json("1")];
    assert!(!same_record(&one, &other));
    let mut other = queued();
    other.pending_upstream_request = None;
    assert!(!same_record(&one, &other));
    let mut other = queued();
    other.pending_upstream_request = Some(Value::Null);
    assert!(!same_record(&one, &other));
    let mut other = queued();
    other.upstream_authorization = Some("Bearer other".to_string());
    assert!(!same_record(&one, &other));
    let mut other = queued();
    other.enqueued_at = None;
    assert!(!same_record(&one, &other));
    let mut other = queued();
    other.upstream = String::new();
    assert!(!same_record(&one, &other));
    let mut other = queued();
    other.response = json("{}");
    assert!(!same_record(&one, &other));
    assert!(same_record(&record("[0.0, -0.0, 1.5]"), &record("[-0.0, 0.0, 1.5]")));
    assert!(!same_record(&record("1"), &record("1.0")));
    assert_eq!(copy_values(&one.input), one.input);
    assert_eq!(copy_value_option(&one.pending_upstream_request), one.pending_upstream_request);
    assert_eq!(copy_value_option(&None), None);
}

#[test]
fn reconcile_write_ttl_preserves_positive_remaining_ttl() {
    assert_eq!(reconcile_write_ttl(300, 86_400), 300);
}

#[test]
fn reconcile_write_ttl_uses_minimal_ttl_when_expiring_imminently() {
    assert_eq!(reconcile_write_ttl(0, 86_400), 1);
}

#[test]
fn reconcile_write_ttl_applies_default_when_key_has_no_expiry() {
    assert_eq!(reconcile_write_ttl(-1, 86_400), 86_400);
}

#[test]
fn reconcile_write_ttl_applies_default_to_missing_keys() {
    assert_eq!(reconcile_write_ttl(-2, 86_400), 86_400);
    assert_eq!(reconcile_write_ttl(i64::MIN, 7), 7);
    assert_eq!(reconcile_write_ttl(i64::MAX, 7), i64::MAX as u64);
}

#[test]
fn claims_are_refused_outside_the_queue() {
    let cases = [
        ("completed", "response resp_1 is in a terminal state"),
        ("in_progress", "response resp_1 is already in progress"),
        ("odd", "response resp_1 is not claimable"),
    ];
    for (status, message) in cases {
        let mut stored = record(&format!("{{\"status\":\"{status}\"}}"));
        stored.pending_upstream_request = Some(json("{}"));
        let err = prepare_claim_background(&stored, "resp_1").unwrap_err();
        assert!(matches!(&err, StoreError::FailedPrecondition(text) if text == message));
    }
    let err = prepare_claim_background(&record(r#"{"status":"queued"}"#), "resp_1").unwrap_err();
    assert_eq!(err.message(), "failed precondition: response resp_1 is not claimable");
}

#[test]
fn claimed_response_is_completed_or_failed_once() {
    let (claimed, payload) = prepare_claim_background(&queued(), "resp_1").unwrap();
    assert_eq!(
        claimed.response,
        json(r#"{"id":"resp_1","status":"in_progress","model":"demo","background":true}"#)
    );
    assert_eq!(claimed.pending_upstream_request, queued().pending_upstream_request);
    assert_eq!(claimed.upstream_authorization, queued().upstream_authorization);
    assert_eq!(payload.clone(), payload);
    assert_eq!(payload.upstream, "http://model/v1");
    assert_eq!(payload.pending_upstream_request, json(r#"{"input":"hello"}"#));
    assert_eq!(payload.upstream_authorization.as_deref(), Some("Bearer token"));
    assert!(prepare_claim_background(&claimed, "resp_1").is_err());

    let completed =
        prepare_complete_background(&claimed, "resp_1", &json(r#"{"id":"x","output":[1]}"#))
            .unwrap()
            .0;
    assert_eq!(
        completed.response,
        json(r#"{"id":"resp_1","status":"completed","background":true,"output":[1]}"#)
    );
    assert_eq!(completed.pending_upstream_request, None);
    assert_eq!(completed.upstream_authorization, None);
    assert_eq!(completed.input, queued().input);
    assert_eq!(completed.enqueued_at, queued().enqueued_at);
    assert_eq!(
        prepare_fail_background(&completed, "resp_1", "late").unwrap_err().message(),
        "failed precondition: response resp_1 is in a terminal state"
    );

    let (failed, ()) = prepare_fail_background(&claimed, "resp_1", "broken").unwrap();
    assert_eq!(
        failed.response,
        json(
            r#"{"id":"resp_1","object":"response","status":"failed","background":true,
                "error":{"message":"broken","type":"server_error"}}"#
        )
    );
    assert_eq!(
        prepare_complete_background(&failed, "resp_1", &json("{}")).unwrap_err().message(),
        "failed precondition: response resp_1 is in a terminal state"
    );
}

#[test]
fn completion_needs_a_response_in_progress_and_an_object() {
    assert_eq!(
        prepare_complete_background(&queued(), "resp_1", &json("{}")).unwrap_err().message(),
        "failed precondition: response resp_1 is not in progress"
    );
    let (claimed, _) = prepare_claim_background(&queued(), "resp_1").unwrap();
    for text in ["[]", "null", "\"done\"", "1"] {
        assert_eq!(
            prepare_complete_background(&claimed, "resp_1", &json(text)).unwrap_err().message(),
            "invalid request: completed response for resp_1 must be a JSON object"
        );
    }
}

#[test]
fn queued_responses_can_fail_but_idle_ones_cannot() {
    assert!(prepare_fail_background(&queued(), "resp_1", "broken").is_ok());
    assert_eq!(
        prepare_fail_background(&record("{}"), "resp_1", "broken").unwrap_err().message(),
        "failed precondition: response resp_1 is not in progress"
    );
}

#[test]
fn stale_responses_fail() {
    let mut stored = queued();
    apply_stale_failure(&mut stored, "resp_1");
    assert_eq!(
        stored.response,
        json(
            r#"{"id":"resp_1","object":"response","status":"failed","background":true,
                "error":{"message":"background response stale","type":"server_error"}}"#
        )
    );
    assert_eq!(stored.pending_upstream_request, None);
    assert_eq!(stored.upstream_authorization, None);
    assert!(is_terminal_background_status(&stored));
}

#[test]
fn redis_errors_are_classified() {
    let io = |kind: std::io::ErrorKind| redis::RedisError::from(std::io::Error::from(kind));
    assert_eq!(redis_error_kind(&io(std::io::ErrorKind::TimedOut)), "timeout");
    assert_eq!(
        redis_error_kind(&io(std::io::ErrorKind::ConnectionRefused)),
        "connection_refused"
    );
    let busy = redis::RedisError::from((
        redis::ErrorKind::Extension,
        "BUSYGROUP Consumer Group name already exists",
    ));
    assert_eq!(redis_error_kind(&busy), "busy");
    assert!(is_busygroup(&RedisFailure::of(&busy)));
    assert!(!is_missing_stream(&RedisFailure::of(&busy)));
    let missing = redis::RedisError::from((redis::ErrorKind::Client, "no such key"));
    assert_eq!(redis_error_kind(&missing), "other");
    assert!(is_missing_stream(&RedisFailure::of(&missing)));
    assert!(!is_busygroup(&RedisFailure::of(&missing)));
    let timeout = RedisFailure::of(&io(std::io::ErrorKind::TimedOut));
    assert!(timeout.timeout && !timeout.refusal);
    assert_eq!(timeout.kind(), "timeout");
    let refusal = RedisFailure::of(&io(std::io::ErrorKind::ConnectionRefused));
    assert!(refusal.refusal && !refusal.timeout);
    assert!(timeout.io && refusal.io);
    let known = RedisFailure::of(&missing);
    assert!(!known.io && !known.timeout && !known.refusal);
    assert_eq!(known.message, missing.to_string());
    assert_eq!(known.message, "no such key - Client");
    assert_eq!(refusal.clone(), refusal);
    assert_eq!(classify_error(true, true, "BUSY"), "timeout");
    assert_eq!(classify_error(false, true, "BUSY"), "connection_refused");
    assert_eq!(classify_error(false, false, "is BUSY now"), "busy");
    assert_eq!(classify_error(false, false, "busy"), "other");
}

#[test]
fn store_errors_are_sentences() {
    let redis_error = redis::RedisError::from((redis::ErrorKind::Client, "no luck"));
    let storage = format!("storage error: {redis_error}");
    let cases = [
        (StoreError::NotFound("resp_1".into()), "response not found: resp_1".to_string()),
        (StoreError::InvalidArgument("x".into()), "invalid request: x".to_string()),
        (StoreError::Unavailable("x".into()), "storage unavailable: x".to_string()),
        (StoreError::FailedPrecondition("x".into()), "failed precondition: x".to_string()),
        (StoreError::from(RedisFailure::of(&redis_error)), storage),
        (StoreError::Serialization("x".into()), "serialization error: x".to_string()),
    ];
    for (err, message) in cases {
        assert_eq!(err.message(), message);
    }
}

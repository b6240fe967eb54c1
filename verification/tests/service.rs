use responses_api_store::claim::{ClaimAction, ClaimEvent, StreamEntry};
use responses_api_store::client::{
    claim_reply, from_proto_record, is_failed_precondition, is_not_found, reconcile_reply,
    stats_reply, to_proto_record, ClaimBackgroundJobsResult, ClientError, StoreClient,
};
use responses_api_store::convert::{
    core_job_to_proto, core_to_proto, proto_to_core, status_of_write_fault, store_error_to_status,
    JsonFault,
};
use responses_api_store::error::RedisFailure;
use responses_api_store::proto;
use responses_api_store::service::{
    batch_to_proto, ClaimCallAction, ClaimCallEvent, Deletion, ReadStep, ReconcileStep,
    ResponsesApiStoreService,
};
use responses_api_store::status::{Code, Status};
use responses_api_store::transaction::Outcome;
use responses_api_store::{
    BackgroundJob, ClaimBatchResult, PendingBackgroundJob, StoreConfig, StoreError, StoredResponse,
};
use serde_json::Value;

fn json(text: &str) -> Value {
    serde_json::from_str(text).unwrap()
}

fn failure(message: &'static str) -> RedisFailure {
    RedisFailure::of(&redis::RedisError::from((redis::ErrorKind::Client, message)))
}

fn redis_error() -> RedisFailure {
    failure("no luck")
}

fn record() -> StoredResponse {
    StoredResponse {
        upstream: "http://model/v1".to_string(),
        response: json(r#"{"id":"resp_1","status":"queued"}"#),
        input: vec![json(r#"{"role":"user"}"#), json("[1,\"x\",null]")],
        pending_upstream_request: Some(json(r#"{"input":"hello"}"#)),
        upstream_authorization: Some("Bearer token".to_string()),
        enqueued_at: Some(1_746_500_000),
    }
}

fn message() -> proto::StoredResponse {
    proto::StoredResponse {
        response_id: "resp_1".to_string(),
        upstream: "http://model/v1".to_string(),
        response_json: r#"{"id":"resp_1","status":"queued"}"#.to_string(),
        input_json: vec![r#"{"role":"user"}"#.to_string(), "[1,\"x\",null]".to_string()],
        pending_upstream_request_json: Some(r#"{"input":"hello"}"#.to_string()),
        upstream_authorization: Some("Bearer token".to_string()),
        enqueued_at: Some(1_746_500_000),
    }
}

fn config(ttl_seconds: u64) -> StoreConfig {
    StoreConfig {
        redis_url: "redis://localhost".to_string(),
        key_prefix: "test".to_string(),
        ttl_seconds,
        stream_key: "stream".to_string(),
        stale_seconds: 60,
        stream_maxlen: 100,
    }
}

fn service() -> ResponsesApiStoreService {
    ResponsesApiStoreService::new(config(300)).unwrap()
}

#[test]
fn is_not_found_matches_rpc_status() {
    let err = ClientError::Rpc(Status::not_found("response not found: resp_1".to_string()));
    assert!(is_not_found(&err));
}

#[test]
fn is_not_found_matches_client_variant() {
    let err = ClientError::NotFound("resp_1".to_string());
    assert!(is_not_found(&err));
}

#[test]
fn is_not_found_rejects_other_errors() {
    let err = ClientError::Rpc(Status::unavailable("storage unavailable".to_string()));
    assert!(!is_not_found(&err));
}

#[test]
fn failed_preconditions_are_recognised() {
    let err = ClientError::from(Status::failed_precondition("no".to_string()));
    assert!(is_failed_precondition(&err));
    assert!(!is_not_found(&err));
    for other in [
        ClientError::NotFound("x".to_string()),
        ClientError::Transport("x".to_string()),
        ClientError::Serialization("x".to_string()),
        ClientError::Configuration("x".to_string()),
        ClientError::Rpc(Status::new(Code::Unknown, "x".to_string())),
    ] {
        assert!(!is_failed_precondition(&other));
        assert_eq!(is_not_found(&other), matches!(other, ClientError::NotFound(_)));
    }
}

#[test]
fn records_travel_as_json() {
    assert_eq!(core_to_proto("resp_1", &record()).unwrap(), message());
    assert_eq!(proto_to_core(&message()).unwrap(), record());
    assert_eq!(to_proto_record("resp_1", &record()).unwrap(), message());
    assert_eq!(from_proto_record(Some(&message()), "resp_1").unwrap(), record());
    let mut bare = record();
    bare.input = vec![];
    bare.pending_upstream_request = None;
    bare.upstream_authorization = None;
    bare.enqueued_at = None;
    let sent = core_to_proto("resp_1", &bare).unwrap();
    assert_eq!(sent.pending_upstream_request_json, None);
    assert_eq!(proto_to_core(&sent).unwrap(), bare);
}

#[test]
fn reserved_field_names_are_not_read_back() {
    let name = "$serde_json::private::RawValue";
    let mut fields = serde_json::Map::new();
    fields.insert(name.to_string(), Value::String("1".to_string()));
    let mut odd = record();
    odd.response = Value::Object(fields);
    let sent = core_to_proto("resp_1", &odd).unwrap();
    assert_eq!(sent.response_json, format!("{{\"{name}\":\"1\"}}"));
    assert_ne!(proto_to_core(&sent).unwrap(), odd);
}

#[test]
fn reserved_field_names_behind_others_are_read_back() {
    let name = "$serde_json::private::RawValue";
    for smaller in ["", "#", "$serde_json::private::RawValu"] {
        let mut fields = serde_json::Map::new();
        fields.insert(name.to_string(), Value::String("1".to_string()));
        fields.insert(smaller.to_string(), Value::Null);
        let mut odd = record();
        odd.response = Value::Object(fields);
        let sent = core_to_proto("resp_1", &odd).unwrap();
        assert_eq!(proto_to_core(&sent).unwrap(), odd);
        assert_eq!(from_proto_record(Some(&sent), "resp_1").unwrap(), odd);
    }
}

#[test]
fn deeply_nested_documents_are_read_back_up_to_the_limit() {
    let nested = |depth: usize| {
        (0..depth).fold(Value::Null, |inner, _| Value::Array(vec![inner]))
    };
    let mut deep = record();
    deep.response = nested(127);
    assert_eq!(proto_to_core(&core_to_proto("resp_1", &deep).unwrap()).unwrap(), deep);
    deep.response = nested(128);
    assert!(proto_to_core(&core_to_proto("resp_1", &deep).unwrap()).is_err());
}

#[test]
fn empty_pending_request_counts_as_absent() {
    let mut sent = message();
    sent.pending_upstream_request_json = Some(String::new());
    assert_eq!(proto_to_core(&sent).unwrap().pending_upstream_request, None);
    assert_eq!(
        from_proto_record(Some(&sent), "resp_1").unwrap().pending_upstream_request,
        None
    );
}

#[test]
fn unreadable_json_is_an_invalid_argument() {
    let reason = serde_json::from_str::<Value>("{").unwrap_err().to_string();
    let mut sent = message();
    sent.response_json = "{".to_string();
    let status = proto_to_core(&sent).unwrap_err();
    assert_eq!(status.code, Code::InvalidArgument);
    assert_eq!(status.message, format!("invalid response_json for resp_1: {reason}"));
    assert!(matches!(
        from_proto_record(Some(&sent), "resp_1"),
        Err(ClientError::Serialization(text)) if text == reason
    ));

    let mut sent = message();
    sent.input_json = vec!["1".to_string(), "{".to_string(), "]".to_string()];
    sent.pending_upstream_request_json = Some("]".to_string());
    let status = proto_to_core(&sent).unwrap_err();
    assert_eq!(status.message, format!("invalid input_json entry for resp_1: {reason}"));

    let mut sent = message();
    sent.pending_upstream_request_json = Some("{".to_string());
    let status = proto_to_core(&sent).unwrap_err();
    assert_eq!(
        status.message,
        format!("invalid pending_upstream_request_json for resp_1: {reason}")
    );
    assert!(matches!(
        from_proto_record(None, "resp_7"),
        Err(ClientError::NotFound(id)) if id == "resp_7"
    ));
}

#[test]
fn unwritable_json_is_an_internal_error() {
    let cases = [
        (JsonFault::Response("x".into()), "failed to serialize response for resp_1: x"),
        (JsonFault::Input("x".into()), "failed to serialize input for resp_1: x"),
        (
            JsonFault::PendingRequest("x".into()),
            "failed to serialize pending_upstream_request for resp_1: x",
        ),
    ];
    for (fault, message) in cases {
        let status = status_of_write_fault("resp_1", fault);
        assert_eq!(status.code, Code::Internal);
        assert_eq!(status.message, message);
    }
}

#[test]
fn store_errors_become_statuses() {
    let storage = format!("storage unavailable (other): {}", redis_error().message);
    let cases = [
        (
            StoreError::NotFound("resp_1".into()),
            Code::NotFound,
            "response not found: resp_1".to_string(),
        ),
        (
            StoreError::NotFound("consumer group g not found".into()),
            Code::NotFound,
            "consumer group g not found".to_string(),
        ),
        (StoreError::InvalidArgument("x".into()), Code::InvalidArgument, "x".to_string()),
        (StoreError::Unavailable("x".into()), Code::Unavailable, "x".to_string()),
        (
            StoreError::FailedPrecondition("x".into()),
            Code::FailedPrecondition,
            "x".to_string(),
        ),
        (StoreError::Storage(redis_error()), Code::Unavailable, storage),
        (StoreError::Serialization("x".into()), Code::Internal, "x".to_string()),
    ];
    for (err, code, message) in cases {
        let status = store_error_to_status(err);
        assert_eq!(status.code, code);
        assert_eq!(status.message, message);
    }
}

#[test]
fn jobs_travel_with_their_records() {
    let job = BackgroundJob {
        stream_id: "1-0".to_string(),
        response_id: "resp_1".to_string(),
        record: record(),
        autoclaimed: true,
        idle_ms: Some(50),
    };
    assert_eq!(job.clone(), job);
    let sent = core_job_to_proto(&job).unwrap();
    assert_eq!(sent.record, Some(message()));
    let pending = PendingBackgroundJob {
        stream_id: "2-0".to_string(),
        response_id: "resp_2".to_string(),
        autoclaimed: true,
        idle_ms: Some(50),
    };
    let response = batch_to_proto(ClaimBatchResult {
        jobs: vec![job.clone()],
        pending_stream_ids: vec!["2-0".to_string()],
        pending_jobs: vec![pending.clone()],
    })
    .unwrap();
    let client = StoreClient::from_channel(None);
    let received = client.claim_background_jobs(response).unwrap();
    assert_eq!(received.clone(), received);
    assert_eq!(
        received,
        ClaimBackgroundJobsResult {
            jobs: vec![job],
            pending_stream_ids: vec!["2-0".to_string()],
            pending_jobs: vec![pending],
        }
    );
    assert_eq!(
        claim_reply(batch_to_proto(ClaimBatchResult::default()).unwrap()).unwrap(),
        ClaimBackgroundJobsResult::default()
    );
}

#[test]
fn unreadable_jobs_fail_the_reply() {
    let job = |record: Option<proto::StoredResponse>| proto::BackgroundJob {
        stream_id: "1-0".to_string(),
        response_id: "resp_1".to_string(),
        record,
        autoclaimed: false,
        idle_ms: None,
    };
    let mut broken = message();
    broken.response_json = "nope".to_string();
    let reply = |jobs: Vec<proto::BackgroundJob>| proto::ClaimBackgroundJobsResponse {
        jobs,
        pending_stream_ids: vec![],
        pending_jobs: vec![],
    };
    assert!(matches!(
        claim_reply(reply(vec![job(Some(message())), job(None), job(Some(broken))])),
        Err(ClientError::NotFound(id)) if id == "resp_1"
    ));
}

#[test]
fn client_builds_requests() {
    let client = StoreClient::from_channel_with_limit(7);
    assert_eq!(client.max_message_bytes, 7);
    let request = client.store_response("resp_1", &record(), None).unwrap();
    assert_eq!(request.record, Some(message()));
    assert_eq!(request.ttl_seconds, 0);
    assert_eq!(client.update_response("resp_1", &record(), Some(9)).unwrap().ttl_seconds, 9);
    assert_eq!(
        client.enqueue_background_job("resp_1", &record()).unwrap().record,
        Some(message())
    );
    let request = client.get_response("resp_1", true);
    assert_eq!(request.response_id, "resp_1");
    assert!(request.reconcile_stale);
    assert_eq!(client.delete_response("resp_1").response_id, "resp_1");
    let request = client.acknowledge_background_job("g", "1-0");
    assert_eq!(request.consumer_group, "g");
    assert_eq!(request.stream_id, "1-0");
    let request = client.ensure_consumer_group("g", "$");
    assert_eq!(request.consumer_group, "g");
    assert_eq!(request.start_id, "$");
    assert_eq!(client.get_background_queue_stats("g").consumer_group, "g");
    assert_eq!(client.reconcile_stale_response("resp_1", None).stale_seconds, 0);
    assert_eq!(client.reconcile_stale_response("resp_1", Some(5)).stale_seconds, 5);
    let stats = stats_reply(proto::GetBackgroundQueueStatsResponse {
        pending: 1,
        in_progress: 2,
        workload: 3,
    });
    assert_eq!((stats.pending, stats.in_progress, stats.workload), (1, 2, 3));
    let (read, reconciled) = reconcile_reply(
        proto::ReconcileStaleResponseResponse {
            record: Some(message()),
            reconciled: true,
        },
        "resp_1",
    )
    .unwrap();
    assert_eq!(read, record());
    assert!(reconciled);
    assert!(reconcile_reply(
        proto::ReconcileStaleResponseResponse {
            record: None,
            reconciled: false,
        },
        "resp_1",
    )
    .is_err());
}

#[test]
fn client_limits_come_from_the_environment() {
    assert_eq!(StoreClient::connect(None).unwrap().max_message_bytes, 67_108_864);
    assert_eq!(
        StoreClient::connect(Some("5".to_string())).unwrap().max_message_bytes,
        5
    );
    assert!(matches!(
        StoreClient::connect(Some("x".to_string())),
        Err(ClientError::Configuration(text)) if text == "invalid GRPC_MAX_MESSAGE_BYTES value \"x\""
    ));
    assert_eq!(
        StoreClient::from_channel(Some("0".to_string())).max_message_bytes,
        67_108_864
    );
}

#[test]
fn service_takes_its_settings_from_the_configuration() {
    let service = service();
    assert_eq!(service.store.key_prefix, "test");
    assert_eq!(service.store.default_ttl_seconds, 300);
    assert_eq!(service.store.stale_seconds, 60);
    assert_eq!(service.queue.stream_key, "stream");
    assert_eq!(service.queue.stream_maxlen, 100);
    assert_eq!(service.default_stale_seconds, 60);
    let mut wrong = config(300);
    wrong.redis_url = "nonsense".to_string();
    assert!(matches!(
        ResponsesApiStoreService::new(wrong),
        Err(StoreError::Storage(_))
    ));
}

#[test]
fn store_requests_need_a_record_with_an_id() {
    let service = service();
    let mut unnamed = message();
    unnamed.response_id = String::new();
    for sent in [None, Some(unnamed)] {
        let status = service
            .store_response(&proto::StoreResponseRequest {
                record: sent,
                ttl_seconds: 0,
            })
            .unwrap_err();
        assert_eq!(status.code, Code::InvalidArgument);
        assert_eq!(status.message, "record.response_id is required");
    }
    let write = service
        .store_response(&proto::StoreResponseRequest {
            record: Some(message()),
            ttl_seconds: 0,
        })
        .unwrap();
    assert_eq!(write.key, "test:resp_1");
    assert_eq!(write.ttl_seconds, 300);
    assert_eq!(write.record, record());
    assert_eq!(service.ttl_from_request(0), None);
    assert_eq!(service.ttl_from_request(9), Some(9));
}

#[test]
fn get_requests_answer_the_stored_record() {
    let service = service();
    let empty = proto::GetResponseRequest {
        response_id: String::new(),
        reconcile_stale: false,
    };
    let status = service.get_response(&empty).unwrap_err();
    assert_eq!(status.message, "response_id is required");
    let mut request = proto::GetResponseRequest {
        response_id: "resp_1".to_string(),
        reconcile_stale: false,
    };
    assert_eq!(service.get_response(&request).unwrap(), "test:resp_1");
    assert!(matches!(
        service.get_response_loaded(&request, Ok(Some(record())), 0),
        Ok(ReadStep::Answer(found)) if found == message()
    ));
    let status = service.get_response_loaded(&request, Ok(None), 0).unwrap_err();
    assert_eq!(status.code, Code::NotFound);
    assert_eq!(status.message, "response not found: resp_1");
    let status = service
        .get_response_loaded(&request, Err(StoreError::Serialization("bad".to_string())), 0)
        .unwrap_err();
    assert_eq!(status.code, Code::Internal);
    request.reconcile_stale = true;
    assert!(matches!(
        service.get_response_loaded(&request, Ok(Some(record())), 1_746_500_060),
        Ok(ReadStep::Reconcile(_))
    ));
    let answer = service
        .get_response_reconciled(
            &request,
            Ok(Outcome {
                record: record(),
                payload: None,
            }),
        )
        .unwrap();
    assert_eq!(answer, message());
    assert!(service
        .get_response_reconciled(&request, Err(StoreError::NotFound("resp_1".to_string())))
        .is_err());
}

#[test]
fn update_requests_need_an_existing_response() {
    let service = service();
    let (response_id, core) = service
        .update_response(&proto::UpdateResponseRequest {
            record: Some(message()),
            ttl_seconds: 8,
        })
        .unwrap();
    assert_eq!(response_id, "resp_1");
    assert_eq!(core, record());
    let write = service
        .update_response_loaded(&response_id, &core, 8, Ok(Some(record())))
        .unwrap();
    assert_eq!(write.ttl_seconds, 8);
    let status = service
        .update_response_loaded(&response_id, &core, 8, Ok(None))
        .unwrap_err();
    assert_eq!(status.code, Code::NotFound);
    assert!(service
        .update_response_loaded(&response_id, &core, 8, Err(StoreError::Storage(redis_error())))
        .is_err());
}

#[test]
fn delete_requests_mark_responses_in_flight() {
    let service = service();
    let request = proto::DeleteResponseRequest {
        response_id: "resp_1".to_string(),
    };
    assert_eq!(service.delete_response(&request).unwrap(), "test:resp_1");
    let Ok(Deletion::Mark(write)) = service.delete_response_loaded(&request, Ok(Some(record())))
    else {
        panic!("the response is in flight");
    };
    assert_eq!(write.key, "test:resp_1");
    assert_eq!(write.record.response["status"], "deleted");
    let mut done = record();
    done.response = json(r#"{"status":"completed"}"#);
    done.pending_upstream_request = None;
    for loaded in [Ok(Some(done)), Err(StoreError::Storage(redis_error()))] {
        assert!(matches!(
            service.delete_response_loaded(&request, loaded),
            Ok(Deletion::Remove { key }) if key == "test:resp_1"
        ));
    }
    for missing in [Some(write.record), None] {
        let status = service.delete_response_loaded(&request, Ok(missing)).unwrap_err();
        assert_eq!(status.code, Code::NotFound);
        assert_eq!(status.message, "response not found: resp_1");
        assert!(is_not_found(&ClientError::Rpc(status)));
    }
    let empty = proto::DeleteResponseRequest {
        response_id: String::new(),
    };
    assert_eq!(
        service.delete_response(&empty).unwrap_err().message,
        "response_id is required"
    );
    let without_ttl = ResponsesApiStoreService::new(config(0)).unwrap();
    assert!(without_ttl.delete_response_loaded(&request, Ok(Some(record()))).is_err());
}

#[test]
fn enqueue_requests_store_and_append() {
    let service = service();
    let (write, append) = service
        .enqueue_background_job(
            &proto::EnqueueBackgroundJobRequest {
                record: Some(message()),
            },
            77,
        )
        .unwrap();
    assert_eq!(write.record.enqueued_at, Some(77));
    assert_eq!(write.ttl_seconds, 300);
    assert_eq!(append.value, "resp_1");
    assert_eq!(append.key, "stream");
    assert!(service
        .enqueue_background_job(&proto::EnqueueBackgroundJobRequest { record: None }, 77)
        .is_err());
}

#[test]
fn queue_requests_are_checked() {
    let service = service();
    let acknowledge = |stream_id: &str, consumer_group: &str| {
        service.acknowledge_background_job(&proto::AcknowledgeBackgroundJobRequest {
            stream_id: stream_id.to_string(),
            consumer_group: consumer_group.to_string(),
        })
    };
    assert_eq!(acknowledge("1-0", "g").unwrap().stream_id, "1-0");
    for (stream_id, group) in [("", "g"), ("1-0", ""), ("", "")] {
        assert_eq!(
            acknowledge(stream_id, group).unwrap_err().message,
            "stream_id and consumer_group are required"
        );
    }
    let ensure = |consumer_group: &str, start_id: &str| {
        service.ensure_consumer_group(&proto::EnsureConsumerGroupRequest {
            consumer_group: consumer_group.to_string(),
            start_id: start_id.to_string(),
        })
    };
    assert_eq!(ensure("g", "").unwrap().start_id, "0-0");
    assert_eq!(ensure("g", "$").unwrap().start_id, "$");
    assert_eq!(ensure("", "$").unwrap_err().message, "consumer_group is required");
    let health = service.health(Ok(()), "1.0");
    assert!(health.redis_ok);
    assert_eq!(health.version, "1.0");
    assert!(!service.health(Err(StoreError::Storage(redis_error())), "1.0").redis_ok);
}

#[test]
fn reconcile_requests_report_changes() {
    let service = service();
    let request = |stale_seconds: i64| proto::ReconcileStaleResponseRequest {
        response_id: "resp_1".to_string(),
        stale_seconds,
    };
    assert_eq!(service.reconcile_stale_response(&request(0)).unwrap(), "test:resp_1");
    let Ok(ReconcileStep::Answer(answer)) =
        service.reconcile_stale_response_loaded(&request(0), Ok(Some(record())), 1_746_500_059)
    else {
        panic!("the response is not stale yet");
    };
    assert_eq!(answer.record, Some(message()));
    assert!(!answer.reconciled);
    for stale_seconds in [0, -5] {
        assert!(matches!(
            service.reconcile_stale_response_loaded(
                &request(stale_seconds),
                Ok(Some(record())),
                1_746_500_060
            ),
            Ok(ReconcileStep::Reconcile { .. })
        ));
    }
    let Ok(ReconcileStep::Reconcile { before, .. }) =
        service.reconcile_stale_response_loaded(&request(5), Ok(Some(record())), 1_746_500_005)
    else {
        panic!("the response is stale");
    };
    assert_eq!(before, record());
    let outcome = |record: StoredResponse| {
        Ok(Outcome {
            record,
            payload: None,
        })
    };
    let mut failed = record();
    failed.response = json(r#"{"status":"failed"}"#);
    let answer = service
        .reconcile_stale_response_reconciled(&request(5), &before, outcome(failed))
        .unwrap();
    assert!(answer.reconciled);
    let answer = service
        .reconcile_stale_response_reconciled(&request(5), &before, outcome(record()))
        .unwrap();
    assert!(!answer.reconciled);
    assert!(service
        .reconcile_stale_response_reconciled(
            &request(5),
            &before,
            Err(StoreError::Unavailable("x".to_string()))
        )
        .is_err());
    assert_eq!(
        service
            .reconcile_stale_response_loaded(&request(5), Ok(None), 0)
            .unwrap_err()
            .code,
        Code::NotFound
    );
    let empty = proto::ReconcileStaleResponseRequest {
        response_id: String::new(),
        stale_seconds: 0,
    };
    assert!(service.reconcile_stale_response(&empty).is_err());
}

fn claim_request(count: u32) -> proto::ClaimBackgroundJobsRequest {
    proto::ClaimBackgroundJobsRequest {
        consumer_group: "g".to_string(),
        consumer_name: "w".to_string(),
        count,
        block_ms: 1000,
        autoclaim_min_idle_ms: 0,
    }
}

#[test]
fn claim_requests_are_checked_and_limited() {
    let service = service();
    for (asked, given) in [(0, 1), (1, 1), (100, 100), (101, 100), (u32::MAX, 100)] {
        let (call, action) = service.claim_background_jobs(claim_request(asked)).unwrap();
        assert_eq!(call.options.count, given);
        assert_eq!(call.options.block_ms, 1000);
        assert!(matches!(
            action,
            ClaimCallAction::ReadCursor { key } if key == "stream:meta:autoclaim:g"
        ));
    }
    let mut unnamed = claim_request(1);
    unnamed.consumer_name = String::new();
    assert_eq!(
        service.claim_background_jobs(unnamed).unwrap_err().message,
        "consumer_group and consumer_name are required"
    );
    let mut unnamed = claim_request(1);
    unnamed.consumer_group = String::new();
    assert!(service.claim_background_jobs(unnamed).is_err());
}

#[test]
fn claim_requests_store_the_cursor_before_they_answer() {
    let service = service();
    let mut request = claim_request(1);
    request.autoclaim_min_idle_ms = 50;
    let (call, _) = service.claim_background_jobs(request).unwrap();
    let (call, action) =
        service.claim_step(call, ClaimCallEvent::CursorRead(Ok(Some("3-0".to_string()))));
    assert!(matches!(
        action,
        ClaimCallAction::Claim(ClaimAction::Autoclaim { cursor, .. }) if cursor == "3-0"
    ));
    let entries = vec![StreamEntry {
        id: "5-0".to_string(),
        response_id: Some("resp_1".to_string()),
    }];
    let event = ClaimEvent::Autoclaimed(Ok(("6-0".to_string(), entries)));
    let (call, action) = service.claim_step(call, ClaimCallEvent::Claim(event));
    assert!(matches!(action, ClaimCallAction::Claim(ClaimAction::Load { .. })));
    assert!(!call.awaits(&ClaimCallEvent::CursorStored(Ok(()))));
    let event = ClaimCallEvent::Claim(ClaimEvent::Loaded(Ok(Some(record()))));
    assert!(call.awaits(&event));
    let (call, action) = service.claim_step(call, event);
    assert!(matches!(
        action,
        ClaimCallAction::StoreCursor(update)
            if update.cursor == "6-0" && update.key == "stream:meta:autoclaim:g"
    ));
    let (call, action) = service.claim_step(call, ClaimCallEvent::CursorStored(Ok(())));
    let ClaimCallAction::Answer(Ok(response)) = action else {
        panic!("the jobs should be handed over");
    };
    assert_eq!(response.jobs.len(), 1);
    assert_eq!(response.jobs[0].stream_id, "5-0");
    assert_eq!(response.jobs[0].record, Some(message()));
    assert!(response.jobs[0].autoclaimed);
    assert_eq!(response.jobs[0].idle_ms, Some(50));
    assert!(!call.awaits(&ClaimCallEvent::CursorStored(Ok(()))));
}

#[test]
fn claim_requests_fail_with_the_store() {
    let service = service();
    let (call, _) = service.claim_background_jobs(claim_request(1)).unwrap();
    let (_, action) = service.claim_step(call, ClaimCallEvent::CursorRead(Err(redis_error())));
    assert!(matches!(
        action,
        ClaimCallAction::Answer(Err(status)) if status.code == Code::Unavailable
    ));

    let (call, _) = service.claim_background_jobs(claim_request(1)).unwrap();
    let (call, action) = service.claim_step(call, ClaimCallEvent::CursorRead(Ok(None)));
    assert!(matches!(action, ClaimCallAction::Claim(ClaimAction::ReadGroup(_))));
    let event = ClaimCallEvent::Claim(ClaimEvent::Read(Err(redis_error())));
    let (_, action) = service.claim_step(call, event);
    assert!(matches!(
        action,
        ClaimCallAction::Answer(Err(status)) if status.code == Code::Unavailable
    ));

    let (call, _) = service.claim_background_jobs(claim_request(1)).unwrap();
    let (call, _) = service.claim_step(call, ClaimCallEvent::CursorRead(Ok(None)));
    let event = ClaimCallEvent::Claim(ClaimEvent::Read(Ok(vec![])));
    let (call, action) = service.claim_step(call, event);
    assert!(matches!(
        action,
        ClaimCallAction::StoreCursor(update) if update.cursor == "0-0"
    ));
    let (_, action) = service.claim_step(call, ClaimCallEvent::CursorStored(Err(redis_error())));
    assert!(matches!(
        action,
        ClaimCallAction::Answer(Err(status)) if status.code == Code::Unavailable
    ));
}

use std::collections::HashMap;

use responses_api_store::claim::{ClaimAction, ClaimEvent, ClaimRun, StreamEntry};
use responses_api_store::error::RedisFailure;
use responses_api_store::queue::{
    acknowledged, find_group, group_created, stored_cursor, GroupInfo, StatsAction, StatsEvent,
    StatsRun, AUTOCLAIM_CURSOR_SCRIPT,
};
use responses_api_store::store::{ClaimBackgroundPayload, Reconciliation};
use responses_api_store::transaction::{Action, Event, Outcome, Transaction};
use responses_api_store::{
    build_cancelled_response, build_queued_response, is_in_progress_background,
    is_terminal_background_status, unix_seconds_now, BackgroundQueue, BackgroundQueueStats,
    ClaimBatchResult, ClaimOptions, ResponseStore, StoreError, StoredResponse,
};
use serde_json::Value;

fn json(text: &str) -> Value {
    serde_json::from_str(text).unwrap()
}

fn failure(message: &'static str) -> RedisFailure {
    RedisFailure::of(&redis::RedisError::from((redis::ErrorKind::Client, message)))
}

fn redis_error() -> RedisFailure {
    failure("no luck")
}

/// A store whose server is a map: records with their lifetimes, and how often each was written.
struct Server {
    store: ResponseStore,
    records: HashMap<String, (StoredResponse, i64, u64)>,
    texts: Vec<StoredResponse>,
    resets: u32,
}

impl Server {
    fn new() -> Server {
        Server {
            store: ResponseStore::connect("redis://localhost", "test".to_string(), 300, 60)
                .unwrap(),
            records: HashMap::new(),
            texts: Vec::new(),
            resets: 0,
        }
    }

    fn put(&mut self, key: String, record: StoredResponse, ttl_seconds: i64) {
        let writes = self.records.get(&key).map_or(0, |(_, _, writes)| *writes);
        self.records.insert(key, (record, ttl_seconds, writes + 1));
    }

    fn store(&mut self, response_id: &str, record: &StoredResponse) {
        let write = self.store.store(response_id, record, None).unwrap();
        self.put(write.key, write.record, write.ttl_seconds as i64);
    }

    fn load(&self, response_id: &str) -> Option<StoredResponse> {
        let key = self.store.load(response_id);
        self.records.get(&key).map(|(record, _, _)| record.clone())
    }

    /// Runs a transaction; before each action `meddle` may touch the server.
    fn run(
        &mut self,
        transaction: Transaction,
        meddle: &mut dyn FnMut(&mut Server, &Action),
    ) -> Result<Outcome, StoreError> {
        let mut transaction = transaction;
        let mut action = Action::Discard;
        let mut watched: Option<(String, u64)> = None;
        let mut queued: Option<(String, StoredResponse, i64)> = None;
        loop {
            meddle(self, &action);
            let event = match action {
                Action::Discard => Event::Replied(Err(redis_error())),
                Action::Watch { key } => {
                    let writes = self.records.get(&key).map_or(0, |(_, _, writes)| *writes);
                    watched = Some((key, writes));
                    Event::Replied(Ok(()))
                }
                Action::Read { key } | Action::Reload { key } => Event::Loaded(Ok(self
                    .records
                    .get(&key)
                    .map(|(record, _, _)| record.clone()))),
                Action::Unwatch => {
                    watched = None;
                    Event::Replied(Ok(()))
                }
                Action::Encode { record } => {
                    self.texts.push(record);
                    Event::Encoded(Ok((self.texts.len() - 1).to_string()))
                }
                Action::ReadTtl { key } => {
                    Event::Ttl(Ok(self.records.get(&key).map_or(-2, |(_, ttl, _)| *ttl)))
                }
                Action::Multi => Event::Replied(Ok(())),
                Action::SetEx {
                    key,
                    ttl_seconds,
                    payload,
                } => {
                    let text: usize = payload.parse().unwrap();
                    queued = Some((key, self.texts[text].clone(), ttl_seconds as i64));
                    Event::Replied(Ok(()))
                }
                Action::Exec => {
                    let (key, writes) = watched.take().unwrap();
                    let now = self.records.get(&key).map_or(0, |(_, _, writes)| *writes);
                    let (key, record, ttl) = queued.take().unwrap();
                    if now == writes {
                        self.put(key, record, ttl);
                    }
                    Event::Executed(Ok(now == writes))
                }
                Action::ResetConnection => {
                    self.resets += 1;
                    Event::Reset(Ok(()))
                }
                Action::Finish(result) => return result,
            };
            assert!(transaction.awaits(&event));
            let next = transaction.step(event);
            transaction = next.0;
            action = next.1;
        }
    }

    fn claim(
        &mut self,
        response_id: &str,
    ) -> Result<(StoredResponse, ClaimBackgroundPayload), StoreError> {
        let start = self.store.claim_background_response(response_id);
        self.run(start, &mut |_, _| {})
            .map(|outcome| (outcome.record, outcome.payload.unwrap()))
    }

    fn complete(&mut self, response_id: &str, response: Value) -> Result<StoredResponse, StoreError> {
        let start = self.store.complete_background_response(response_id, response);
        self.run(start, &mut |_, _| {}).map(|outcome| outcome.record)
    }
}

fn request() -> Value {
    json(
        r#"{
            "model": "demo",
            "input": "hello",
            "background": true,
            "store": true
        }"#,
    )
}

fn queued_record(response_id: &str) -> StoredResponse {
    StoredResponse {
        upstream: "http://model/v1".to_string(),
        response: build_queued_response(response_id, "demo", &request()),
        input: vec![json(r#"{"role": "user", "content": "hello"}"#)],
        pending_upstream_request: Some(json(r#"{"model": "demo", "input": "hello"}"#)),
        upstream_authorization: Some("Bearer token".to_string()),
        enqueued_at: Some(1_746_500_000),
    }
}

#[test]
fn claim_background_response_transitions_queued_to_in_progress() {
    let mut server = Server::new();
    let response_id = "resp_1";
    server.store(response_id, &queued_record(response_id));

    let (record, payload) = server.claim(response_id).expect("claim background response");
    assert!(is_in_progress_background(&record));
    assert!(record.pending_upstream_request.is_some());
    assert_eq!(
        record.upstream_authorization.as_deref(),
        Some("Bearer token")
    );
    assert_eq!(payload.upstream, "http://model/v1");
    assert_eq!(payload.pending_upstream_request["input"], "hello");
    assert_eq!(
        payload.upstream_authorization.as_deref(),
        Some("Bearer token")
    );

    let err = server
        .claim(response_id)
        .expect_err("second claim should fail");
    assert!(matches!(err, StoreError::FailedPrecondition(_)));
}

#[test]
fn complete_background_response_sets_background_marker() {
    let mut server = Server::new();
    let response_id = "resp_1";
    server.store(response_id, &queued_record(response_id));
    server.claim(response_id).expect("claim");

    let upstream_response = json(
        r#"{
            "object": "response",
            "status": "completed",
            "output": [{"type": "message", "content": "done"}]
        }"#,
    );
    server
        .complete(response_id, upstream_response)
        .expect("complete");

    let loaded = server.load(response_id).expect("record exists");
    assert_eq!(loaded.response["background"], json("true"));
    assert_eq!(loaded.response["id"], response_id);
    assert_eq!(loaded.response["status"], "completed");
}

#[test]
fn complete_background_response_forces_completed_status() {
    let mut server = Server::new();
    let response_id = "resp_1";
    server.store(response_id, &queued_record(response_id));
    server.claim(response_id).expect("claim");

    server
        .complete(
            response_id,
            json(
                r#"{
                    "object": "response",
                    "status": "in_progress",
                    "output": [{"type": "message", "content": "done"}]
                }"#,
            ),
        )
        .expect("complete");

    let loaded = server.load(response_id).expect("record exists");
    assert_eq!(loaded.response["status"], "completed");
    assert_eq!(loaded.response["background"], json("true"));
}

#[test]
fn complete_background_response_rejects_non_object_json() {
    let mut server = Server::new();
    let response_id = "resp_1";
    server.store(response_id, &queued_record(response_id));
    server.claim(response_id).expect("claim");

    let err = server
        .complete(response_id, json("[]"))
        .expect_err("complete should reject non-object json");
    assert!(matches!(err, StoreError::InvalidArgument(_)));
}

#[test]
fn complete_background_response_rejects_terminal_cancel() {
    let mut server = Server::new();
    let response_id = "resp_1";
    server.store(response_id, &queued_record(response_id));
    let (in_progress, _) = server.claim(response_id).expect("claim");

    let mut queued = in_progress;
    queued.response = build_cancelled_response(&queued, response_id);
    queued.pending_upstream_request = None;
    queued.upstream_authorization = None;
    server.store(response_id, &queued);

    let err = server
        .complete(
            response_id,
            json(r#"{"id": "resp_1", "status": "completed", "background": true}"#),
        )
        .expect_err("complete should reject cancelled");
    assert!(matches!(err, StoreError::FailedPrecondition(_)));
}

#[test]
fn cancel_during_claim_does_not_restore_in_progress() {
    let mut server = Server::new();
    let response_id = "resp_1";
    server.store(response_id, &queued_record(response_id));

    let start = server.store.claim_background_response(response_id);
    let mut cancels = 0;
    let err = server
        .run(start, &mut |server, action| {
            if matches!(action, Action::Exec) {
                cancels += 1;
                let mut cancelled = queued_record(response_id);
                cancelled.response = build_cancelled_response(&cancelled, response_id);
                cancelled.pending_upstream_request = None;
                cancelled.upstream_authorization = None;
                server.store(response_id, &cancelled);
            }
        })
        .expect_err("the cancellation comes first");
    assert!(matches!(
        err,
        StoreError::FailedPrecondition(_) | StoreError::Unavailable(_)
    ));
    assert_eq!(cancels, 1);
    let loaded = server.load(response_id).expect("record exists");
    assert!(is_terminal_background_status(&loaded));
    assert!(!is_in_progress_background(&loaded));
}

#[test]
fn endless_conflicts_are_given_up() {
    let mut server = Server::new();
    let response_id = "resp_1";
    server.store(response_id, &queued_record(response_id));
    let start = server.store.claim_background_response(response_id);
    let mut tries = 0;
    let err = server
        .run(start, &mut |server, action| {
            if matches!(action, Action::Exec) {
                tries += 1;
                server.store(response_id, &queued_record(response_id));
            }
        })
        .unwrap_err();
    assert_eq!(tries, 16);
    assert_eq!(
        err.message(),
        "storage unavailable: background transition conflict retries exhausted for resp_1"
    );

    let start = server.store.reconcile_stale_response(response_id, queued_record(response_id), 60);
    let Reconciliation::Stale(start) = start else {
        panic!("the response should be stale");
    };
    let outcome = server
        .run(start, &mut |server, action| {
            if matches!(action, Action::Exec) {
                server.store(response_id, &queued_record(response_id));
            }
        })
        .unwrap();
    assert_eq!(outcome.record, queued_record(response_id));
}

#[test]
fn redis_failures_replace_the_connection() {
    let server = Server::new();
    let mut transaction = server.store.fail_background_response("resp_1", "broken");
    for attempt in 0..16 {
        let (next, action) = transaction.step(Event::Replied(Ok(())));
        assert!(matches!(&action, Action::Watch { key } if key == "test:resp_1"));
        let (next, action) = next.step(Event::Replied(Err(redis_error())));
        assert!(matches!(action, Action::ResetConnection));
        let (next, action) = next.step(Event::Reset(Ok(())));
        if attempt < 15 {
            assert!(matches!(action, Action::Discard));
        } else {
            assert!(matches!(action, Action::Finish(Err(StoreError::Storage(_)))));
        }
        transaction = next;
    }
    assert!(!transaction.awaits(&Event::Replied(Ok(()))));

    let transaction = server.store.claim_background_response("resp_1");
    let (next, _) = transaction.step(Event::Replied(Ok(())));
    let (next, _) = next.step(Event::Replied(Err(redis_error())));
    let (_, action) = next.step(Event::Reset(Err(StoreError::Unavailable("down".to_string()))));
    assert!(matches!(action, Action::Finish(Err(StoreError::Unavailable(_)))));
}

#[test]
fn missing_and_unreadable_records_end_a_transaction() {
    let mut server = Server::new();
    let start = server.store.claim_background_response("resp_1");
    let err = server.run(start, &mut |_, _| {}).unwrap_err();
    assert!(matches!(&err, StoreError::NotFound(id) if id == "resp_1"));

    let start = server.store.claim_background_response("resp_1");
    let (next, _) = start.step(Event::Replied(Ok(())));
    let (next, action) = next.step(Event::Replied(Ok(())));
    assert!(matches!(action, Action::Read { .. }));
    let (_, action) = next.step(Event::Loaded(Err(StoreError::Serialization("bad".to_string()))));
    assert!(matches!(action, Action::Finish(Err(StoreError::Serialization(_)))));
}

#[test]
fn changes_keep_what_is_left_of_the_lifetime() {
    for (left, written) in [(17, 17), (0, 1), (-1, 300)] {
        let mut server = Server::new();
        let key = server.store.key("resp_1");
        server.put(key.clone(), queued_record("resp_1"), left);
        server.claim("resp_1").unwrap();
        assert_eq!(server.records[&key].1, written);
        assert_eq!(server.resets, 0);
    }
}

#[test]
fn reconcile_preserves_empty_input_array() {
    let mut server = Server::new();
    let response_id = "resp_test_empty_input";
    let now = unix_seconds_now();
    let stored = StoredResponse {
        upstream: "http://test/v1".to_string(),
        response: json(
            r#"{
                "id": "resp_test_empty_input",
                "status": "queued",
                "background": true
            }"#,
        ),
        input: vec![],
        pending_upstream_request: Some(json(r#"{"model": "demo"}"#)),
        upstream_authorization: None,
        enqueued_at: Some(now - 120),
    };

    let write = server.store.store(response_id, &stored, Some(300)).expect("store test record");
    server.put(write.key, write.record, write.ttl_seconds as i64);
    let Reconciliation::Stale(start) =
        server.store.reconcile_stale_response(response_id, stored, 60)
    else {
        panic!("the response should be stale");
    };
    let updated = server.run(start, &mut |_, _| {}).expect("reconcile stale response").record;
    assert_eq!(updated.input, Vec::<Value>::new());
    assert_eq!(updated.response["status"], "failed");

    let loaded = server.load(response_id).expect("reconciled record should exist");
    assert_eq!(loaded.input, Vec::<Value>::new());
    assert!(matches!(
        server.store.reconcile_stale_response(response_id, loaded, 60),
        Reconciliation::Unchanged(_)
    ));
}

#[test]
fn reconciliation_leaves_a_response_alone_that_was_claimed_meanwhile() {
    let mut server = Server::new();
    server.store("resp_1", &queued_record("resp_1"));
    let Reconciliation::Stale(start) =
        server.store.reconcile_stale_response_at("resp_1", queued_record("resp_1"), 60, 1_746_500_060)
    else {
        panic!("the response should be stale");
    };
    let (claimed, _) = server.claim("resp_1").unwrap();
    let outcome = server.run(start, &mut |_, _| {}).unwrap();
    assert_eq!(outcome.record, claimed);
    assert!(outcome.payload.is_none());
    assert_eq!(server.load("resp_1"), Some(claimed));
}

#[test]
fn store_tells_what_is_written() {
    let store = ResponseStore::connect("redis://localhost", "test".to_string(), 300, 60).unwrap();
    let record = queued_record("resp_1");
    let write = store.store("resp_1", &record, Some(5)).unwrap();
    assert_eq!(write.key, "test:resp_1");
    assert_eq!(write.ttl_seconds, 5);
    assert_eq!(write.record, record);
    assert_eq!(store.store("resp_1", &record, None).unwrap().ttl_seconds, 300);
    assert_eq!(
        store.store("resp_1", &record, Some(0)).unwrap_err().message(),
        "invalid request: ttl_seconds must be greater than 0"
    );
    assert_eq!(store.delete("resp_1"), "test:resp_1");
    assert!(ResponseStore::connect("nonsense", "test".to_string(), 300, 60).is_err());
    assert_eq!(
        ResponseStore::build_stored_from_parts(
            record.upstream.clone(),
            record.response.clone(),
            record.input.clone(),
            record.pending_upstream_request.clone(),
            record.upstream_authorization.clone(),
            record.enqueued_at,
        ),
        record
    );
}

#[test]
fn reads_and_updates_do_not_find_deleted_responses() {
    let store = ResponseStore::connect("redis://localhost", "test".to_string(), 300, 60).unwrap();
    let record = queued_record("resp_1");
    let mark = store.tombstone_deleted_background("resp_1", &record).unwrap();
    assert_eq!(
        mark.record.response,
        json(
            r#"{"id":"resp_1","object":"response","status":"deleted","background":true,
                "deleted":true}"#
        )
    );
    assert_eq!(mark.record.pending_upstream_request, None);
    assert_eq!(mark.record.upstream_authorization, None);
    assert_eq!(mark.record.input, record.input);
    for gone in [None, Some(mark.record)] {
        assert!(matches!(
            store.get("resp_1", true, gone.clone()),
            Err(StoreError::NotFound(id)) if id == "resp_1"
        ));
        assert!(matches!(
            store.update("resp_1", &record, None, &gone),
            Err(StoreError::NotFound(id)) if id == "resp_1"
        ));
    }
    assert!(matches!(
        store.get("resp_1", false, Some(record.clone())),
        Ok(Reconciliation::Unchanged(found)) if found == record
    ));
    assert!(matches!(
        store.get("resp_1", true, Some(record.clone())),
        Ok(Reconciliation::Stale(_))
    ));
    assert!(matches!(
        store.get_at("resp_1", true, Some(record.clone()), 1_746_500_059),
        Ok(Reconciliation::Unchanged(_))
    ));
    assert!(store.update("resp_1", &record, None, &Some(record.clone())).is_ok());
}

/// A queue whose server is a list of entries: for each its ID, its response, and the consumer that
/// holds it.
struct Stream {
    queue: BackgroundQueue,
    entries: Vec<(String, String, Option<String>)>,
    groups: Vec<String>,
    records: HashMap<String, StoredResponse>,
}

impl Stream {
    fn new() -> Stream {
        Stream {
            queue: BackgroundQueue::connect("redis://localhost", "stream".to_string(), 100)
                .unwrap(),
            entries: Vec::new(),
            groups: Vec::new(),
            records: HashMap::new(),
        }
    }

    fn add(&mut self, response_id: &str) {
        let append = self.queue.enqueue(response_id);
        assert_eq!(append.key, "stream");
        assert_eq!(append.approx_maxlen, Some(100));
        assert_eq!(append.entry_id, "*");
        assert_eq!(append.field, "response_id");
        let id = format!("{}-0", self.entries.len() + 1);
        self.records.insert(append.value.clone(), queued_record(&append.value));
        self.entries.push((id, append.value, None));
    }

    fn stats(&mut self, consumer_group: &str) -> Result<BackgroundQueueStats, StoreError> {
        let (mut run, mut action): (StatsRun, StatsAction) = self.queue.stats(consumer_group);
        loop {
            let event = match action {
                StatsAction::StreamExists { key } => {
                    assert_eq!(key, "stream");
                    StatsEvent::Exists(Ok(!self.entries.is_empty() || !self.groups.is_empty()))
                }
                StatsAction::ListGroups { .. } => {
                    let held = self.entries.iter().filter(|entry| entry.2.is_some()).count();
                    StatsEvent::Groups(Ok(self
                        .groups
                        .iter()
                        .map(|name| GroupInfo {
                            name: name.clone(),
                            pending: held,
                            lag: Some(self.entries.len() - held),
                        })
                        .collect()))
                }
                StatsAction::CreateGroup {
                    consumer_group,
                    start_id,
                    ..
                } => {
                    assert_eq!(start_id, "0-0");
                    self.groups.push(consumer_group);
                    StatsEvent::Created(Ok(()))
                }
                StatsAction::Finish(result) => return result,
            };
            assert!(run.awaits(&event));
            let next = run.step(event);
            run = next.0;
            action = next.1;
        }
    }

    fn claim(
        &mut self,
        options: &ClaimOptions,
        cursor: &mut String,
    ) -> Result<ClaimBatchResult, StoreError> {
        let (mut run, mut action): (ClaimRun, ClaimAction) =
            self.queue.claim_jobs(options, cursor);
        loop {
            let event = match action {
                ClaimAction::Autoclaim {
                    consumer_name,
                    count,
                    ..
                } => {
                    let mut entries = Vec::new();
                    for entry in self.entries.iter_mut() {
                        if entry.2.is_some() && entries.len() < count {
                            entry.2 = Some(consumer_name.clone());
                            entries.push(StreamEntry {
                                id: entry.0.clone(),
                                response_id: Some(entry.1.clone()),
                            });
                        }
                    }
                    ClaimEvent::Autoclaimed(Ok(("0-0".to_string(), entries)))
                }
                ClaimAction::ReadGroup(read) => {
                    let mut entries = Vec::new();
                    for entry in self.entries.iter_mut() {
                        if entry.2.is_none() && entries.len() < read.count {
                            entry.2 = Some(read.consumer_name.clone());
                            entries.push(StreamEntry {
                                id: entry.0.clone(),
                                response_id: Some(entry.1.clone()),
                            });
                        }
                    }
                    ClaimEvent::Read(Ok(vec![(read.stream_key, entries)]))
                }
                ClaimAction::Load { response_id } => {
                    ClaimEvent::Loaded(Ok(self.records.get(&response_id).cloned()))
                }
                ClaimAction::Pause { .. } => ClaimEvent::Paused,
                ClaimAction::Acknowledge { stream_id, .. } => {
                    self.entries.retain(|entry| entry.0 != stream_id);
                    ClaimEvent::Acknowledged
                }
                ClaimAction::Finish(result) => {
                    *cursor = run.cursor;
                    return result;
                }
            };
            assert!(run.awaits(&event));
            let next = run.step(event);
            run = next.0;
            action = next.1;
        }
    }
}

fn options(consumer_name: &str, count: usize, block_ms: usize, idle_ms: usize) -> ClaimOptions {
    ClaimOptions {
        consumer_group: "workers".to_string(),
        consumer_name: consumer_name.to_string(),
        count,
        block_ms,
        autoclaim_min_idle_ms: idle_ms,
    }
}

#[test]
fn stats_report_zero_for_empty_queue() {
    let mut stream = Stream::new();
    stream.groups.push("workers".to_string());
    let stats = stream.stats("workers").expect("load queue stats");
    assert_eq!(
        stats,
        BackgroundQueueStats {
            pending: 0,
            in_progress: 0,
            workload: 0,
        }
    );
    assert_eq!(Stream::new().stats("workers").unwrap(), BackgroundQueueStats::default());
}

#[test]
fn stats_auto_create_consumer_group_for_enqueued_jobs() {
    let mut stream = Stream::new();
    stream.add("resp_1");
    let stats = stream
        .stats("workers")
        .expect("load queue stats after auto-creating consumer group");
    assert_eq!(stats.pending, 1);
    assert_eq!(stats.in_progress, 0);
    assert_eq!(stats.workload, 1);
    assert_eq!(stream.groups, ["workers"]);
}

#[test]
fn stats_report_pending_jobs_before_claim() {
    let mut stream = Stream::new();
    stream.groups.push("workers".to_string());
    stream.add("resp_1");
    let stats = stream.stats("workers").expect("load queue stats");
    assert_eq!(stats.pending, 1);
    assert_eq!(stats.in_progress, 0);
    assert_eq!(stats.workload, 1);
}

#[test]
fn stats_report_in_progress_jobs_after_claim() {
    let mut stream = Stream::new();
    stream.groups.push("workers".to_string());
    stream.add("resp_1");
    let mut cursor = stored_cursor(None);
    let batch = stream
        .claim(&options("worker", 1, 0, 0), &mut cursor)
        .expect("claim job");
    assert_eq!(batch.jobs.len(), 1);

    let stats = stream.stats("workers").expect("load queue stats");
    assert_eq!(stats.pending, 0);
    assert_eq!(stats.in_progress, 1);
    assert_eq!(stats.workload, 1);
}

#[test]
fn stats_report_pending_and_in_progress_together() {
    let mut stream = Stream::new();
    stream.groups.push("workers".to_string());
    stream.add("resp_1");
    stream.add("resp2_1");
    let mut cursor = stored_cursor(None);
    let batch = stream
        .claim(&options("worker", 1, 0, 0), &mut cursor)
        .expect("claim job");
    assert_eq!(batch.jobs.len(), 1);

    let stats = stream.stats("workers").expect("load queue stats");
    assert_eq!(stats.pending, 1);
    assert_eq!(stats.in_progress, 1);
    assert_eq!(stats.workload, 2);
}

#[test]
fn stats_fail_for_unknown_groups_and_unknown_lag() {
    let mut stream = Stream::new();
    stream.groups.push("others".to_string());
    let err = stream.stats("workers").unwrap_err();
    assert!(matches!(
        &err,
        StoreError::NotFound(text)
            if text == "consumer group workers not found for stream stream"
    ));
    let groups = vec![
        GroupInfo { name: "a".to_string(), pending: 1, lag: Some(2) },
        GroupInfo { name: "a".to_string(), pending: 3, lag: None },
    ];
    assert_eq!(find_group(&groups, "a"), Some(&groups[0]));
    assert_eq!(find_group(&groups, "b"), None);
    let (run, _) = stream.queue.stats("a");
    let (run, _) = run.step(StatsEvent::Exists(Ok(true)));
    let (_, action) = run.step(StatsEvent::Groups(Ok(vec![GroupInfo {
        name: "a".to_string(),
        pending: 3,
        lag: None,
    }])));
    assert!(matches!(
        action,
        StatsAction::Finish(Err(StoreError::Unavailable(text))) if text
            == "consumer group a lag is unavailable; stream entries may have been trimmed between last-delivered-id and tail"
    ));
}

#[test]
fn stats_handle_redis_errors() {
    let stream = Stream::new();
    let (run, _) = stream.queue.stats("a");
    let (_, action) = run.step(StatsEvent::Exists(Err(redis_error())));
    assert!(matches!(action, StatsAction::Finish(Err(StoreError::Storage(_)))));
    let missing = failure("no such key");
    let (run, _) = stream.queue.stats("a");
    let (run, _) = run.step(StatsEvent::Exists(Ok(true)));
    let (run, action) = run.step(StatsEvent::Groups(Err(missing)));
    assert!(matches!(action, StatsAction::CreateGroup { .. }));
    let busy = failure("BUSYGROUP exists");
    let (run, action) = run.step(StatsEvent::Created(Err(busy)));
    assert!(matches!(action, StatsAction::ListGroups { .. }));
    let (_, action) = run.step(StatsEvent::Groups(Ok(vec![GroupInfo {
        name: "a".to_string(),
        pending: usize::MAX,
        lag: Some(usize::MAX),
    }])));
    assert!(matches!(
        action,
        StatsAction::Finish(Ok(BackgroundQueueStats { workload: u64::MAX, .. }))
    ));
}

#[test]
fn queue_replies_are_read() {
    assert!(group_created(Ok(())).unwrap());
    let busy = failure("BUSYGROUP exists");
    assert!(!group_created(Err(busy)).unwrap());
    let taken = redis::RedisError::from((redis::ErrorKind::Extension, "BUSYGROUP exists"));
    assert!(!group_created(Err(RedisFailure::of(&taken))).unwrap());
    assert!(group_created(Err(redis_error())).is_err());
    assert_eq!(stored_cursor(None), "0-0");
    assert_eq!(stored_cursor(Some("5-1".to_string())), "5-1");
    assert!(acknowledged("g", "1-0", Ok(1)).is_ok());
    assert_eq!(
        acknowledged("g", "1-0", Ok(0)).unwrap_err().message(),
        "invalid request: stream entry 1-0 was not acknowledged for consumer group g"
    );
    assert!(matches!(
        acknowledged("g", "1-0", Err(redis_error())),
        Err(StoreError::Storage(_))
    ));
    let queue = BackgroundQueue::connect("redis://localhost", "s".to_string(), 0).unwrap();
    assert_eq!(queue.enqueue("resp_1").approx_maxlen, None);
    let create = queue.ensure_consumer_group("g", "$");
    assert_eq!((create.key.as_str(), create.start_id.as_str()), ("s", "$"));
    assert_eq!(create.consumer_group, "g");
    assert_eq!(queue.get_autoclaim_cursor("g"), "s:meta:autoclaim:g");
    let update = queue.set_autoclaim_cursor("g", "5-1");
    assert_eq!(update.script, AUTOCLAIM_CURSOR_SCRIPT);
    assert_eq!(update.key, "s:meta:autoclaim:g");
    assert_eq!(update.cursor, "5-1");
    let acknowledgement = queue.acknowledge("g", "1-0");
    assert_eq!(acknowledgement.key, "s");
    assert_eq!(acknowledgement.consumer_group, "g");
    assert_eq!(acknowledgement.stream_id, "1-0");
    assert!(BackgroundQueue::connect("nonsense", "s".to_string(), 0).is_err());
}

#[test]
fn claim_jobs_waits_through_blocking_read_without_client_timeout() {
    let stream = Stream::new();
    let (run, action) = stream.queue.claim_jobs(&options("worker", 1, 1000, 0), "0-0");
    let ClaimAction::ReadGroup(read) = action else {
        panic!("new entries should be read");
    };
    assert_eq!(read.stream_key, "stream");
    assert_eq!(read.consumer_group, "workers");
    assert_eq!(read.consumer_name, "worker");
    assert_eq!(read.count, 1);
    assert_eq!(read.block_ms, Some(1000));
    assert_eq!(read.response_timeout_ms, Some(1500));
    let (run, action) = run.step(ClaimEvent::Read(Ok(vec![])));
    let ClaimAction::Finish(Ok(batch)) = action else {
        panic!("blocking read should not hit redis client response timeout");
    };
    assert!(batch.jobs.is_empty());
    assert!(batch.pending_stream_ids.is_empty());
    assert_eq!(batch, ClaimBatchResult::default());
    assert_eq!(run.cursor, "0-0");
}

#[test]
fn autoclaimed_jobs_include_idle_metadata() {
    let mut stream = Stream::new();
    stream.groups.push("workers".to_string());
    stream.add("resp_1");
    let mut cursor = stored_cursor(None);
    let first_claim = stream
        .claim(&options("worker-a", 1, 0, 0), &mut cursor)
        .expect("first claim");
    assert_eq!(first_claim.jobs.len(), 1);
    assert!(!first_claim.jobs[0].autoclaimed);
    assert_eq!(first_claim.jobs[0].idle_ms, None);

    let autoclaim_min_idle_ms = 50;
    let second_claim = stream
        .claim(&options("worker-b", 1, 0, autoclaim_min_idle_ms), &mut cursor)
        .expect("autoclaim");
    assert_eq!(second_claim.jobs.len(), 1);
    assert!(second_claim.jobs[0].autoclaimed);
    assert_eq!(
        second_claim.jobs[0].idle_ms,
        Some(autoclaim_min_idle_ms as u64)
    );
    assert_eq!(stream.entries[0].2.as_deref(), Some("worker-b"));
}

#[test]
fn autoclaimed_jobs_are_filled_up_with_new_ones() {
    let mut stream = Stream::new();
    for id in ["resp_1", "resp_2", "resp_3", "resp_4"] {
        stream.add(id);
    }
    let mut cursor = "9-9".to_string();
    stream.claim(&options("a", 1, 0, 0), &mut cursor).unwrap();
    assert_eq!(cursor, "9-9");
    let batch = stream.claim(&options("b", 3, 1000, 50), &mut cursor).unwrap();
    let ids: Vec<&str> = batch.jobs.iter().map(|job| job.response_id.as_str()).collect();
    assert_eq!(ids, ["resp_1", "resp_2", "resp_3"]);
    assert_eq!(batch.jobs[0].stream_id, "1-0");
    assert_eq!(batch.jobs[0].record, queued_record("resp_1"));
    assert!(batch.jobs[0].autoclaimed && !batch.jobs[1].autoclaimed);
    assert_eq!(cursor, "0-0");
    assert!(batch.has_claimed_entries());
}

#[test]
fn missing_responses_are_acknowledged_and_left_out() {
    let mut stream = Stream::new();
    stream.add("resp_1");
    stream.add("resp_2");
    stream.records.remove("resp_1");
    let mut cursor = stored_cursor(None);
    let batch = stream.claim(&options("a", 2, 0, 0), &mut cursor).unwrap();
    assert_eq!(batch.jobs.len(), 1);
    assert_eq!(batch.jobs[0].response_id, "resp_2");
    assert!(batch.pending_jobs.is_empty());
    assert_eq!(stream.entries.len(), 1);
}

fn entry(id: &str, response_id: Option<&str>) -> StreamEntry {
    StreamEntry {
        id: id.to_string(),
        response_id: response_id.map(str::to_string),
    }
}

#[test]
fn loads_are_tried_three_times_and_deferred() {
    let stream = Stream::new();
    let (run, action) = stream.queue.claim_jobs(&options("a", 5, 0, 70), "3-0");
    let ClaimAction::Autoclaim {
        stream_key,
        consumer_group,
        consumer_name,
        min_idle_ms,
        cursor,
        count,
    } = action
    else {
        panic!("idle entries should come first");
    };
    assert_eq!(stream_key, "stream");
    assert_eq!(consumer_group, "workers");
    assert_eq!(consumer_name, "a");
    assert_eq!((min_idle_ms, count), (70, 5));
    assert_eq!(cursor, "3-0");
    let entries = vec![
        entry("1-0", None),
        entry("2-0", Some("resp_2")),
        entry("3-0", Some("resp_3")),
    ];
    let (mut run, mut action) =
        run.step(ClaimEvent::Autoclaimed(Ok(("4-0".to_string(), entries))));
    for attempt in 0..3 {
        assert!(matches!(&action, ClaimAction::Load { response_id } if response_id == "resp_2"));
        let next = run.step(ClaimEvent::Loaded(Err(StoreError::Storage(redis_error()))));
        if attempt < 2 {
            assert!(matches!(next.1, ClaimAction::Pause { millis: 50 }));
            let next = next.0.step(ClaimEvent::Paused);
            run = next.0;
            action = next.1;
        } else {
            run = next.0;
            action = next.1;
        }
    }
    assert!(matches!(&action, ClaimAction::Load { response_id } if response_id == "resp_3"));
    let (run, action) =
        run.step(ClaimEvent::Loaded(Err(StoreError::Serialization("bad".to_string()))));
    assert!(matches!(
        &action,
        ClaimAction::Acknowledge { consumer_group, stream_id }
            if consumer_group == "workers" && stream_id == "3-0"
    ));
    let (run, action) = run.step(ClaimEvent::Acknowledged);
    let ClaimAction::ReadGroup(read) = action else {
        panic!("new entries should fill the batch");
    };
    assert_eq!(read.count, 4);
    assert_eq!(read.block_ms, None);
    assert_eq!(read.response_timeout_ms, None);
    let (run, action) = run.step(ClaimEvent::Read(Err(redis_error())));
    let ClaimAction::Finish(Ok(batch)) = action else {
        panic!("the pending job should be handed over");
    };
    assert_eq!(run.cursor, "4-0");
    assert!(batch.jobs.is_empty());
    assert_eq!(batch.pending_stream_ids, ["2-0"]);
    assert_eq!(batch.pending_jobs.len(), 1);
    assert_eq!(batch.pending_jobs[0].response_id, "resp_2");
    assert!(batch.pending_jobs[0].autoclaimed);
    assert_eq!(batch.pending_jobs[0].idle_ms, Some(70));
}

#[test]
fn errors_before_any_job_fail_the_claim() {
    let stream = Stream::new();
    let (run, _) = stream.queue.claim_jobs(&options("a", 1, 0, 70), "0-0");
    let (_, action) = run.step(ClaimEvent::Autoclaimed(Err(redis_error())));
    assert!(matches!(action, ClaimAction::Finish(Err(StoreError::Storage(_)))));

    let (run, _) = stream.queue.claim_jobs(&options("a", 1, 0, 0), "0-0");
    let (_, action) = run.step(ClaimEvent::Read(Err(redis_error())));
    assert!(matches!(action, ClaimAction::Finish(Err(StoreError::Storage(_)))));

    let (run, _) = stream.queue.claim_jobs(&options("a", 1, 0, 0), "0-0");
    let pages = vec![
        ("other".to_string(), vec![entry("9-0", Some("resp_9"))]),
        ("stream".to_string(), vec![entry("1-0", Some("resp_1"))]),
    ];
    let (run, action) = run.step(ClaimEvent::Read(Ok(pages)));
    assert!(matches!(&action, ClaimAction::Load { response_id } if response_id == "resp_1"));
    let (run, action) =
        run.step(ClaimEvent::Loaded(Err(StoreError::Unavailable("down".to_string()))));
    assert!(matches!(action, ClaimAction::Finish(Err(StoreError::Unavailable(_)))));
    assert!(!run.awaits(&ClaimEvent::Paused));
}

#[test]
fn claims_for_no_jobs_end_at_once() {
    let stream = Stream::new();
    let (_, action) = stream.queue.claim_jobs(&options("a", 0, 1000, 70), "0-0");
    assert!(matches!(action, ClaimAction::Finish(Ok(batch)) if batch == ClaimBatchResult::default()));
}

#[test]
fn stores_queues_and_batches_are_copied() {
    let store = ResponseStore::connect("redis://localhost", "test".to_string(), 300, 60).unwrap();
    let copy = store.clone();
    assert_eq!(copy.key("resp_1"), store.key("resp_1"));
    assert_eq!(copy.default_ttl_seconds, 300);
    assert_eq!(copy.stale_seconds, 60);
    assert_eq!(
        copy.redis_client.get_connection_info().addr(),
        store.redis_client.get_connection_info().addr()
    );
    let mut stream = Stream::new();
    stream.add("resp_1");
    assert_eq!(stream.queue.clone().stream_key, "stream");
    assert_eq!(stream.queue.clone().stream_maxlen, 100);
    let mut cursor = stored_cursor(None);
    let batch = stream.claim(&options("a", 1, 0, 0), &mut cursor).unwrap();
    assert_eq!(batch.clone(), batch);
    assert!(matches!(StoreError::from(redis_error()), StoreError::Storage(_)));
}

use responses_api_store::error::RedisFailure;
use responses_api_store::metrics::{
    escape_prometheus_label_value, prometheus_body, stats_for_query, stats_response, HttpStatus,
    StatsQueryError,
};
use responses_api_store::queue::{StatsAction, StatsEvent, StatsPhase};
use responses_api_store::{BackgroundQueue, BackgroundQueueStats, StoreError};

fn queue() -> BackgroundQueue {
    BackgroundQueue::connect("redis://localhost", "stream".to_string(), 100).unwrap()
}

#[test]
fn escapes_prometheus_label_metacharacters() {
    assert_eq!(
        escape_prometheus_label_value(r#"duihua"background\n"#),
        r#"duihua\"background\\n"#
    );
}

#[test]
fn escapes_as_three_replacements_do() {
    for value in ["", "plain", "\\", "\"", "\n", "\\\n\"\\\\n\"", "a\u{e9}\r\n"] {
        let expected = value
            .replace('\\', "\\\\")
            .replace('\n', "\\n")
            .replace('"', "\\\"");
        assert_eq!(escape_prometheus_label_value(value), expected);
    }
}

#[test]
fn maps_store_errors_to_http_status() {
    let cases = [
        (
            StoreError::NotFound("missing-group".into()),
            HttpStatus::NotFound,
            "missing-group",
        ),
        (
            StoreError::InvalidArgument("bad group".into()),
            HttpStatus::BadRequest,
            "bad group",
        ),
        (
            StoreError::Unavailable("lag unsupported".into()),
            HttpStatus::ServiceUnavailable,
            "lag unsupported",
        ),
        (
            StoreError::Serialization("bad json".into()),
            HttpStatus::InternalServerError,
            "bad json",
        ),
        (
            StoreError::FailedPrecondition("conflict".into()),
            HttpStatus::Conflict,
            "conflict",
        ),
    ];
    for (err, status, message) in cases {
        let mapped = StatsQueryError::from_store(err);
        assert_eq!(mapped.status, status);
        assert_eq!(mapped.message, message);
    }
}

#[test]
fn redis_errors_are_service_unavailable() {
    let err = redis::RedisError::from((redis::ErrorKind::Client, "no luck"));
    let expected = format!("storage unavailable: {err}");
    let mapped = StatsQueryError::from_store(StoreError::Storage(RedisFailure::of(&err)));
    assert_eq!(mapped.status, HttpStatus::ServiceUnavailable);
    assert_eq!(mapped.message, expected);
}

#[test]
fn http_statuses_have_their_numbers() {
    assert_eq!(HttpStatus::BadRequest.code(), 400);
    assert_eq!(HttpStatus::NotFound.code(), 404);
    assert_eq!(HttpStatus::Conflict.code(), 409);
    assert_eq!(HttpStatus::InternalServerError.code(), 500);
    assert_eq!(HttpStatus::ServiceUnavailable.code(), 503);
}

#[test]
fn query_must_name_a_consumer_group() {
    for group in [None, Some(String::new())] {
        let err = stats_for_query(&queue(), group).unwrap_err();
        assert_eq!(err.status, HttpStatus::BadRequest);
        assert_eq!(err.message, "consumer_group query parameter is required");
    }
    let (group, run, action) = stats_for_query(&queue(), Some("workers".to_string())).unwrap();
    assert_eq!(group, "workers");
    assert_eq!(run.consumer_group, "workers");
    assert_eq!(run.phase, StatsPhase::CheckingStream);
    assert!(matches!(&action, StatsAction::StreamExists { key } if key == "stream"));
    let (_, action) = run.step(StatsEvent::Exists(Ok(false)));
    let StatsAction::Finish(result) = action else {
        panic!("the collection should be over");
    };
    let response = stats_response(group, result).unwrap();
    assert_eq!(response.consumer_group, "workers");
    assert_eq!((response.pending, response.in_progress, response.workload), (0, 0, 0));
}

#[test]
fn failed_statistics_become_query_errors() {
    let err = stats_response("g".to_string(), Err(StoreError::NotFound("gone".to_string())))
        .unwrap_err();
    assert_eq!(err.status, HttpStatus::NotFound);
    assert_eq!(err.message, "gone");
}

#[test]
fn prometheus_text_lists_three_gauges() {
    let stats = BackgroundQueueStats {
        pending: 3,
        in_progress: 0,
        workload: u64::MAX,
    };
    let escaped_group = "a\\\"b";
    let expected = format!(
        "# HELP responses_api_store_background_queue_workload Background queue workload for autoscaling\n\
         # TYPE responses_api_store_background_queue_workload gauge\n\
         responses_api_store_background_queue_workload{{consumer_group=\"{escaped_group}\"}} {}\n\
         # HELP responses_api_store_background_queue_pending Jobs waiting to be claimed\n\
         # TYPE responses_api_store_background_queue_pending gauge\n\
         responses_api_store_background_queue_pending{{consumer_group=\"{escaped_group}\"}} {}\n\
         # HELP responses_api_store_background_queue_in_progress Jobs claimed but not yet acknowledged\n\
         # TYPE responses_api_store_background_queue_in_progress gauge\n\
         responses_api_store_background_queue_in_progress{{consumer_group=\"{escaped_group}\"}} {}\n",
        stats.workload, stats.pending, stats.in_progress
    );
    assert_eq!(prometheus_body("a\"b", &stats), expected);
}

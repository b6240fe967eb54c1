use responses_api_store::config::{
    parse_env_i64, parse_env_u64, parse_env_usize, validate_grpc_max_message_bytes,
    validate_redis_url, ConfigError, StoreEnvironment,
};
use responses_api_store::probe::probe_endpoint_from_env;
use responses_api_store::{
    grpc_listen_addr_from_env, grpc_max_message_bytes_from_env, metrics_http_enabled_from_env,
    metrics_http_listen_addr_from_env, StoreConfig, DEFAULT_GRPC_MAX_MESSAGE_BYTES,
};

fn some(text: &str) -> Option<String> {
    Some(text.to_string())
}

fn empty_environment() -> StoreEnvironment {
    StoreEnvironment {
        redis_url: None,
        key_prefix: None,
        ttl_seconds: None,
        stream_key: None,
        stale_seconds: None,
        stream_maxlen: None,
    }
}

fn config(ttl_seconds: u64, stale_seconds: i64) -> StoreConfig {
    StoreConfig {
        redis_url: "redis://localhost".to_string(),
        key_prefix: "test".to_string(),
        ttl_seconds,
        stream_key: "stream".to_string(),
        stale_seconds,
        stream_maxlen: 100,
    }
}

#[test]
fn rejects_non_positive_stale_seconds() {
    let config = StoreConfig {
        redis_url: "redis://localhost".to_string(),
        key_prefix: "test".to_string(),
        ttl_seconds: 60,
        stream_key: "stream".to_string(),
        stale_seconds: 0,
        stream_maxlen: 100,
    };
    assert!(config.validate().is_err());
}

#[test]
fn rejects_zero_ttl_seconds() {
    let config = StoreConfig {
        redis_url: "redis://localhost".to_string(),
        key_prefix: "test".to_string(),
        ttl_seconds: 0,
        stream_key: "stream".to_string(),
        stale_seconds: 60,
        stream_maxlen: 100,
    };
    assert!(config.validate().is_err());
}

#[test]
fn rejects_zero_grpc_max_message_bytes() {
    assert!(validate_grpc_max_message_bytes(0).is_err());
}

#[test]
fn accepts_default_grpc_max_message_bytes() {
    assert!(validate_grpc_max_message_bytes(DEFAULT_GRPC_MAX_MESSAGE_BYTES).is_ok());
}

#[test]
fn accepts_valid_config() {
    let config = StoreConfig {
        redis_url: "redis://localhost".to_string(),
        key_prefix: "test".to_string(),
        ttl_seconds: 60,
        stream_key: "stream".to_string(),
        stale_seconds: 60,
        stream_maxlen: 100,
    };
    assert!(config.validate().is_ok());
}

#[test]
fn rejects_invalid_metrics_http_enabled_values() {
    assert!(metrics_http_enabled_from_env(some("treu")).is_err());
}

#[test]
fn accepts_explicit_metrics_http_enabled_values() {
    assert!(!metrics_http_enabled_from_env(some("false")).unwrap());
    assert!(metrics_http_enabled_from_env(some("true")).unwrap());
}

#[test]
fn metrics_switch_ignores_case_and_defaults_to_on() {
    assert!(metrics_http_enabled_from_env(None).unwrap());
    for on in ["1", "TRUE", "True", "yes", "YeS"] {
        assert!(metrics_http_enabled_from_env(some(on)).unwrap());
    }
    for off in ["0", "FALSE", "False", "no", "nO"] {
        assert!(!metrics_http_enabled_from_env(some(off)).unwrap());
    }
    for wrong in ["", " true", "2", "on", "\u{130}es"] {
        assert!(metrics_http_enabled_from_env(some(wrong)).is_err());
    }
}

#[test]
fn wrong_metrics_switch_is_quoted() {
    let err = metrics_http_enabled_from_env(some("tr\"eu\n")).unwrap_err();
    assert!(matches!(&err, ConfigError::InvalidMetricsSwitch { value } if value == "tr\"eu\n"));
    assert_eq!(
        err.message(),
        "invalid METRICS_HTTP_ENABLED value \"tr\\\"eu\\n\"; use true/false"
    );
}

#[test]
fn environment_without_variables_gives_the_defaults() {
    let config = StoreConfig::from_env(empty_environment()).unwrap();
    assert_eq!(config.redis_url, "redis://valkey:6379");
    assert_eq!(config.key_prefix, "responses-api-store:responses");
    assert_eq!(config.ttl_seconds, 86_400);
    assert_eq!(config.stream_key, "responses-api-store:background");
    assert_eq!(config.stale_seconds, 3600);
    assert_eq!(config.stream_maxlen, 10_000);
    assert_eq!(grpc_listen_addr_from_env(None).unwrap(), "0.0.0.0:50051");
    assert_eq!(metrics_http_listen_addr_from_env(None).unwrap(), "0.0.0.0:8080");
    assert_eq!(grpc_max_message_bytes_from_env(None).unwrap(), 67_108_864);
}

#[test]
fn environment_overrides_the_defaults() {
    let config = StoreConfig::from_env(StoreEnvironment {
        redis_url: some("redis://other:1"),
        key_prefix: some("p"),
        ttl_seconds: some("+60"),
        stream_key: some("s"),
        stale_seconds: some("5"),
        stream_maxlen: some("0"),
    })
    .unwrap();
    assert_eq!(config.redis_url, "redis://other:1");
    assert_eq!(config.key_prefix, "p");
    assert_eq!(config.ttl_seconds, 60);
    assert_eq!(config.stream_key, "s");
    assert_eq!(config.stale_seconds, 5);
    assert_eq!(config.stream_maxlen, 0);
    assert_eq!(grpc_listen_addr_from_env(some("[::1]:1")).unwrap(), "[::1]:1");
    assert_eq!(metrics_http_listen_addr_from_env(some("")).unwrap(), "");
    let copy = config.clone();
    assert_eq!(copy.redis_url, config.redis_url);
    assert_eq!(copy.stale_seconds, 5);
}

#[test]
fn environment_errors_name_the_variable() {
    let mut env = empty_environment();
    env.ttl_seconds = some("soon");
    env.stale_seconds = some("late");
    assert_eq!(
        StoreConfig::from_env(env).unwrap_err().message(),
        "invalid RESPONSE_ID_STORE_TTL_SECONDS value \"soon\""
    );
    let mut env = empty_environment();
    env.stale_seconds = some("late");
    env.stream_maxlen = some("-1");
    assert_eq!(
        StoreConfig::from_env(env).unwrap_err().message(),
        "invalid BACKGROUND_RESPONSE_STALE_SECONDS value \"late\""
    );
    let mut env = empty_environment();
    env.ttl_seconds = some("0");
    env.stream_maxlen = some("-1");
    assert_eq!(
        StoreConfig::from_env(env).unwrap_err().message(),
        "invalid BACKGROUND_QUEUE_STREAM_MAXLEN value \"-1\""
    );
    let mut env = empty_environment();
    env.ttl_seconds = some("0");
    env.stale_seconds = some("0");
    assert_eq!(
        StoreConfig::from_env(env).unwrap_err().message(),
        "RESPONSE_ID_STORE_TTL_SECONDS must be greater than 0"
    );
    let mut env = empty_environment();
    env.stale_seconds = some("-7");
    let err = StoreConfig::from_env(env).unwrap_err();
    assert_eq!(
        err.message(),
        "BACKGROUND_RESPONSE_STALE_SECONDS must be greater than 0"
    );
    assert!(matches!(err, ConfigError::NotPositive { .. }));
}

#[test]
fn validation_checks_the_lifetime_first() {
    assert_eq!(
        config(0, 0).validate().unwrap_err().message(),
        "RESPONSE_ID_STORE_TTL_SECONDS must be greater than 0"
    );
    assert_eq!(
        config(1, i64::MIN).validate().unwrap_err().message(),
        "BACKGROUND_RESPONSE_STALE_SECONDS must be greater than 0"
    );
    assert!(config(u64::MAX, i64::MAX).validate().is_ok());
}

#[test]
fn message_limit_must_be_a_positive_number() {
    assert_eq!(grpc_max_message_bytes_from_env(some("1")).unwrap(), 1);
    assert_eq!(
        grpc_max_message_bytes_from_env(some("0")).unwrap_err().message(),
        "GRPC_MAX_MESSAGE_BYTES must be greater than 0"
    );
    let err = grpc_max_message_bytes_from_env(some("64MiB")).unwrap_err();
    assert_eq!(err.message(), "invalid GRPC_MAX_MESSAGE_BYTES value \"64MiB\"");
    assert!(matches!(err, ConfigError::InvalidNumber { .. }));
}

#[test]
fn settings_are_read_as_the_standard_library_reads_numbers() {
    let texts = [
        "", "+", "-", "0", "-0", "+0", "007", "1_000", " 1", "1 ", "+-1", "--1", "0x10", "\u{661}",
        "18446744073709551615", "18446744073709551616", "9223372036854775807",
        "9223372036854775808", "-9223372036854775808", "-9223372036854775809",
        "99999999999999999999999999",
    ];
    for text in texts {
        assert_eq!(parse_env_u64("N", &some(text), 3).ok(), text.parse::<u64>().ok());
        assert_eq!(parse_env_i64("N", &some(text), 3).ok(), text.parse::<i64>().ok());
        assert_eq!(parse_env_usize("N", &some(text), 3).ok(), text.parse::<usize>().ok());
    }
    assert_eq!(parse_env_u64("N", &None, 3).unwrap(), 3);
    assert_eq!(parse_env_i64("N", &None, -3).unwrap(), -3);
    assert_eq!(parse_env_usize("N", &None, 3).unwrap(), 3);
}

#[test]
fn redis_urls_are_checked_by_the_client() {
    assert!(validate_redis_url("redis://valkey:6379").is_ok());
    let err = validate_redis_url("http://valkey:6379").unwrap_err();
    assert_eq!(err.message(), "invalid RESPONSE_ID_STORE_URL http://valkey:6379");
    assert!(matches!(err, ConfigError::InvalidRedisUrl { .. }));
    assert!(validate_redis_url("").is_err());
}

#[test]
fn probe_dials_the_loopback_address() {
    assert_eq!(probe_endpoint_from_env(None).unwrap(), "http://127.0.0.1:50051");
    assert_eq!(
        probe_endpoint_from_env(some("0.0.0.0:50051")).unwrap(),
        "http://127.0.0.1:50051"
    );
    assert_eq!(
        probe_endpoint_from_env(some("http://0.0.0.0:1")).unwrap(),
        "http://127.0.0.1:1"
    );
    assert_eq!(
        probe_endpoint_from_env(some("https://store:443")).unwrap(),
        "https://store:443"
    );
    assert_eq!(
        probe_endpoint_from_env(some("0.0.0.0:0.0.0.0:")).unwrap(),
        "http://127.0.0.1:127.0.0.1:"
    );
    assert_eq!(probe_endpoint_from_env(some("")).unwrap(), "http://");
}

//! Laws on settings: what environment variables mean, where the server is found, and what a Redis
//! server can do.

use vstd::prelude::*;

use super::errors::contains;
use super::texts::{
    decimals_are_read_back, lemma_starts, occurrences_are_replaced, other_texts_stay_as_they_are,
    starts,
};
use crate::capabilities::{
    parse_redis_version, redis_version_at_least, redis_version_supports_exclusive_range,
    redis_version_supports_lag, RedisCapabilities,
};
use crate::capabilities::{first_line, major_part, minor_part};
use crate::client::{ClientError, StoreClient};
use crate::config::{
    grpc_listen_addr_from_env, grpc_max_message_bytes_from_env, metrics_http_enabled_from_env,
    metrics_http_listen_addr_from_env, parse_env_i64, parse_env_u64, parse_env_usize, read_switch,
    validate_grpc_max_message_bytes, validate_redis_url, ConfigError, StoreConfig,
    StoreEnvironment,
};
use crate::config::{ascii_lower, ascii_lowered, is_ascii, lowercased, quoted};
use crate::probe::probe_endpoint_from_env;
use crate::store::opened_client;
use crate::text::{decimal, lemma_position_of, position_of, trimmed, unsigned_number};
use crate::text::{parse_signed, parse_unsigned};

verus! {

/// Whether an error tells that a variable does not hold a number.
pub open spec fn is_no_number(err: ConfigError, name: Seq<char>, value: Seq<char>) -> bool {
    err matches ConfigError::InvalidNumber { name: blamed, value: given } && blamed@ == name
        && given@ == value
}

/// Whether an error tells that a variable must be positive.
pub open spec fn is_not_positive(err: ConfigError, name: Seq<char>) -> bool {
    err matches ConfigError::NotPositive { name: blamed } && blamed@ == name
}

/// A variable that is absent means the default; one that is there means the number that is written
/// in it, and one without a number is refused with its name and its text.
pub proof fn numbers_are_set(
    name: &str,
    value: &Option<String>,
    default: u64,
    number: Result<u64, ConfigError>,
    text: &str,
    parsed: Option<u64>,
)
    requires
        call_ensures(parse_env_u64, (name, value, default), number),
        *value matches Some(value) ==> text@ == value@,
        call_ensures(parse_unsigned, (text, u64::MAX), parsed),
    ensures
        *value is None ==> (number matches Ok(n) && n == default),
        *value is Some ==> match parsed {
            Some(written) => number matches Ok(n) && n == written,
            None => number matches Err(err) && is_no_number(err, name@, text@),
        },
{
}

/// Signed numbers are set by the same rule.
pub proof fn signed_numbers_are_set(
    name: &str,
    value: &Option<String>,
    default: i64,
    number: Result<i64, ConfigError>,
    text: &str,
    parsed: Option<i64>,
)
    requires
        call_ensures(parse_env_i64, (name, value, default), number),
        *value matches Some(value) ==> text@ == value@,
        call_ensures(parse_signed, (text,), parsed),
    ensures
        *value is None ==> (number matches Ok(n) && n == default),
        *value is Some ==> match parsed {
            Some(written) => number matches Ok(n) && n == written,
            None => number matches Err(err) && is_no_number(err, name@, text@),
        },
{
}

/// Sizes are set by the same rule.
pub proof fn sizes_are_set(
    name: &str,
    value: &Option<String>,
    default: usize,
    number: Result<usize, ConfigError>,
    text: &str,
    parsed: Option<u64>,
)
    requires
        call_ensures(parse_env_usize, (name, value, default), number),
        *value matches Some(value) ==> text@ == value@,
        call_ensures(parse_unsigned, (text, usize::MAX as u64), parsed),
    ensures
        *value is None ==> (number matches Ok(n) && n == default),
        *value is Some ==> match parsed {
            Some(written) => number matches Ok(n) && n == written,
            None => number matches Err(err) && is_no_number(err, name@, text@),
        },
{
}

/// A configuration takes each setting from its own variable, or its default where that is absent.
/// A record must live for a while, and the limit of staleness must be positive.
pub proof fn configurations_take_their_variables(
    env: StoreEnvironment,
    config: Result<StoreConfig, ConfigError>,
    ttl_seconds: Result<u64, ConfigError>,
    stale_seconds: Result<i64, ConfigError>,
    stream_maxlen: Result<usize, ConfigError>,
)
    requires
        call_ensures(StoreConfig::from_env, (env,), config),
        call_ensures(
            parse_env_u64,
            ("RESPONSE_ID_STORE_TTL_SECONDS", &env.ttl_seconds, 86_400u64),
            ttl_seconds,
        ),
        call_ensures(
            parse_env_i64,
            ("BACKGROUND_RESPONSE_STALE_SECONDS", &env.stale_seconds, 3600i64),
            stale_seconds,
        ),
        call_ensures(
            parse_env_usize,
            ("BACKGROUND_QUEUE_STREAM_MAXLEN", &env.stream_maxlen, 10_000usize),
            stream_maxlen,
        ),
    ensures
        config is Ok <==> (ttl_seconds matches Ok(ttl) && ttl > 0) && (stale_seconds matches Ok(
            stale,
        ) && stale > 0) && stream_maxlen is Ok,
        config matches Ok(config) ==> {
            &&& ttl_seconds matches Ok(ttl) && config.ttl_seconds == ttl
            &&& stale_seconds matches Ok(stale) && config.stale_seconds == stale
            &&& stream_maxlen matches Ok(maxlen) && config.stream_maxlen == maxlen
            &&& env.redis_url matches Some(url) ==> config.redis_url@ == url@
            &&& env.redis_url is None ==> config.redis_url@ == "redis://valkey:6379"@
            &&& env.key_prefix matches Some(prefix) ==> config.key_prefix@ == prefix@
            &&& env.key_prefix is None ==> config.key_prefix@ == "responses-api-store:responses"@
            &&& env.stream_key matches Some(key) ==> config.stream_key@ == key@
            &&& env.stream_key is None ==> config.stream_key@ == "responses-api-store:background"@
        },
        ttl_seconds matches Err(why) ==> (config matches Err(err) && err@ == why@),
        ttl_seconds is Ok ==> (stale_seconds matches Err(why) ==> (config matches Err(err) && err@
            == why@)),
        ttl_seconds is Ok && stale_seconds is Ok ==> (stream_maxlen matches Err(why) ==> (
        config matches Err(err) && err@ == why@)),
        stale_seconds is Ok && stream_maxlen is Ok ==> (ttl_seconds matches Ok(ttl) && ttl == 0
            ==> config is Err && is_not_positive(
            config->Err_0,
            "RESPONSE_ID_STORE_TTL_SECONDS"@,
        )),
        stream_maxlen is Ok && (ttl_seconds matches Ok(ttl) && ttl > 0) ==> (
        stale_seconds matches Ok(stale) && stale <= 0 ==> config is Err && is_not_positive(
            config->Err_0,
            "BACKGROUND_RESPONSE_STALE_SECONDS"@,
        )),
{
}

/// A configuration is sound exactly if records live for a while and the limit of staleness is
/// positive; the first flaw is named.
pub proof fn flaws_are_named(config: &StoreConfig, result: Result<(), ConfigError>)
    requires
        call_ensures(StoreConfig::validate, (config,), result),
    ensures
        result is Ok <==> config.ttl_seconds > 0 && config.stale_seconds > 0,
        config.ttl_seconds == 0 ==> (result matches Err(err) && is_not_positive(
            err,
            "RESPONSE_ID_STORE_TTL_SECONDS"@,
        )),
        config.ttl_seconds > 0 && config.stale_seconds <= 0 ==> (result matches Err(err)
            && is_not_positive(err, "BACKGROUND_RESPONSE_STALE_SECONDS"@)),
{
}

/// A copy of a configuration holds the same settings.
pub proof fn copied_configurations_hold_the_same(config: &StoreConfig, copy: StoreConfig)
    requires
        call_ensures(StoreConfig::clone, (config,), copy),
    ensures
        copy.redis_url@ == config.redis_url@,
        copy.key_prefix@ == config.key_prefix@,
        copy.ttl_seconds == config.ttl_seconds,
        copy.stream_key@ == config.stream_key@,
        copy.stale_seconds == config.stale_seconds,
        copy.stream_maxlen == config.stream_maxlen,
{
}

/// The addresses on which the server listens are those of the variables, or the defaults.
pub proof fn addresses_are_set(
    value: Option<String>,
    grpc: Result<String, ConfigError>,
    metrics: Result<String, ConfigError>,
)
    requires
        call_ensures(grpc_listen_addr_from_env, (value,), grpc),
        call_ensures(metrics_http_listen_addr_from_env, (value,), metrics),
    ensures
        grpc is Ok,
        metrics is Ok,
        value matches Some(value) ==> grpc->Ok_0@ == value@ && metrics->Ok_0@ == value@,
        value is None ==> grpc->Ok_0@ == "0.0.0.0:50051"@ && metrics->Ok_0@ == "0.0.0.0:8080"@,
{
}

proof fn lemma_switch_names_differ()
    ensures
        "1"@ != "0"@,
        "1"@ != "no"@,
        "1"@ != "false"@,
        "true"@ != "0"@,
        "true"@ != "no"@,
        "true"@ != "false"@,
        "yes"@ != "0"@,
        "yes"@ != "no"@,
        "yes"@ != "false"@,
{
    reveal_strlit("1");
    reveal_strlit("0");
    reveal_strlit("true");
    reveal_strlit("false");
    reveal_strlit("yes");
    reveal_strlit("no");
    assert("1"@.len() == 1);
    assert("0"@.len() == 1);
    assert("true"@.len() == 4);
    assert("false"@.len() == 5);
    assert("yes"@.len() == 3);
    assert("no"@.len() == 2);
    assert("1"@[0] != "0"@[0]);
}

/// Whether a text switches something on.
pub open spec fn says_yes(text: Seq<char>) -> bool {
    text == "1"@ || text == "true"@ || text == "yes"@
}

/// Whether a text switches something off.
pub open spec fn says_no(text: Seq<char>) -> bool {
    text == "0"@ || text == "false"@ || text == "no"@
}

/// A switch is on, off or neither, by its text.
pub proof fn switches_are_read(lower: &str, position: Option<bool>)
    requires
        call_ensures(read_switch, (lower,), position),
    ensures
        says_yes(lower@) ==> position == Some(true),
        says_no(lower@) ==> position == Some(false),
        !says_yes(lower@) && !says_no(lower@) ==> position is None,
{
    lemma_switch_names_differ();
}

/// Metrics are served unless they are switched off; the case of the letters does not matter, and a
/// switch that is neither on nor off is refused.
pub proof fn metrics_are_switched(value: Option<String>, enabled: Result<bool, ConfigError>)
    requires
        call_ensures(metrics_http_enabled_from_env, (value,), enabled),
    ensures
        value is None ==> (enabled matches Ok(on) && on),
        value matches Some(value) ==> {
            &&& says_yes(lowercased(value@)) ==> (enabled matches Ok(on) && on)
            &&& says_no(lowercased(value@)) ==> (enabled matches Ok(on) && !on)
            &&& !says_yes(lowercased(value@)) && !says_no(lowercased(value@)) ==> (
            enabled matches Err(ConfigError::InvalidMetricsSwitch { value: given }) && given@
                == value@)
        },
        value matches Some(value) ==> (is_ascii(value@) ==> {
            &&& says_yes(ascii_lowered(value@)) <==> (enabled matches Ok(on) && on)
            &&& says_no(ascii_lowered(value@)) <==> (enabled matches Ok(on) && !on)
        }),
{
    lemma_switch_names_differ();
}

/// In lower case the capitals of ASCII are replaced by their small letters, and nothing else is.
pub proof fn capitals_are_lowered(c: char)
    ensures
        'A' <= c <= 'Z' ==> ascii_lower(c) as int == c as int + 32,
        !('A' <= c <= 'Z') ==> ascii_lower(c) == c,
        ascii_lowered(seq![c]) == seq![ascii_lower(c)],
{
}

/// The limit on messages is the number of the variable, or 64 MiB; zero is refused.
pub proof fn message_limits_are_set(
    value: Option<String>,
    bytes: Result<usize, ConfigError>,
    parsed: Result<usize, ConfigError>,
)
    requires
        call_ensures(grpc_max_message_bytes_from_env, (value,), bytes),
        call_ensures(
            parse_env_usize,
            ("GRPC_MAX_MESSAGE_BYTES", &value, 67_108_864usize),
            parsed,
        ),
    ensures
        parsed matches Ok(n) ==> (n > 0 ==> (bytes matches Ok(limit) && limit == n)) && (n == 0
            ==> bytes is Err && is_not_positive(bytes->Err_0, "GRPC_MAX_MESSAGE_BYTES"@)),
        parsed matches Err(why) ==> (bytes matches Err(err) && err@ == why@),
{
}

/// A limit on messages is accepted exactly if it is positive.
pub proof fn message_limits_are_positive(bytes: usize, result: Result<(), ConfigError>)
    requires
        call_ensures(validate_grpc_max_message_bytes, (bytes,), result),
    ensures
        result is Ok <==> bytes > 0,
        result matches Err(err) ==> is_not_positive(err, "GRPC_MAX_MESSAGE_BYTES"@),
{
}

/// A URL is accepted exactly if the Redis client accepts it.
pub proof fn urls_are_checked(url: &str, result: Result<(), ConfigError>)
    requires
        call_ensures(validate_redis_url, (url,), result),
    ensures
        result is Ok <==> opened_client(url@) is Ok,
        result matches Err(err) ==> (err matches ConfigError::InvalidRedisUrl { url: given, cause }
            && given@ == url@ && opened_client(url@)->Err_0 == cause),
{
}

/// The sentence of an error names the variable and what is wrong with it.
pub proof fn configuration_errors_name_the_variable(err: &ConfigError, text: String)
    requires
        call_ensures(ConfigError::message, (err,), text),
    ensures
        match *err {
            ConfigError::InvalidNumber { name, value } => text@ == "invalid "@ + name@ + " value "@
                + quoted(value@),
            ConfigError::NotPositive { name } => text@ == name@ + " must be greater than 0"@,
            ConfigError::InvalidMetricsSwitch { value } => text@
                == "invalid METRICS_HTTP_ENABLED value "@ + quoted(value@) + "; use true/false"@,
            ConfigError::InvalidRedisUrl { url, .. } => text@ == "invalid RESPONSE_ID_STORE_URL "@
                + url@,
        },
{
}

/// A client takes its limit from the variable. A wrong value is an error where the client connects
/// itself, and means the default of 64 MiB where the channel is there already.
pub proof fn clients_take_their_limit(
    value: Option<String>,
    connected: Result<StoreClient, ClientError>,
    attached: StoreClient,
    bytes: Result<usize, ConfigError>,
    why: String,
    limit: usize,
    limited: StoreClient,
)
    requires
        call_ensures(StoreClient::connect, (value,), connected),
        call_ensures(StoreClient::from_channel, (value,), attached),
        call_ensures(grpc_max_message_bytes_from_env, (value,), bytes),
        bytes matches Err(err) ==> call_ensures(ConfigError::message, (&err,), why),
        call_ensures(StoreClient::from_channel_with_limit, (limit,), limited),
    ensures
        limited.max_message_bytes == limit,
        bytes matches Ok(n) ==> (connected matches Ok(client) && client.max_message_bytes == n)
            && attached.max_message_bytes == n,
        bytes is Err ==> (connected matches Err(ClientError::Configuration(message)) && message@
            == why@) && attached.max_message_bytes == 67_108_864,
{
}

proof fn lemma_http()
    ensures
        "http://"@.len() == 7,
        "https://"@.len() == 8,
        "0.0.0.0:"@.len() == 8,
        "127.0.0.1:"@.len() == 10,
        "0.0.0.0:"@[0] == '0',
        "127.0.0.1:"@[0] == '1',
        "http://"@[0] == 'h',
        "https://"@[0] == 'h',
{
    reveal_strlit("http://");
    reveal_strlit("https://");
    reveal_strlit("0.0.0.0:");
    reveal_strlit("127.0.0.1:");
}

/// The probe dials the address on which the server listens. Where that is every address it dials
/// the loopback address at the same port; it speaks HTTP unless the address names a scheme.
pub proof fn probes_dial_the_server(
    value: Option<String>,
    address: Result<String, ConfigError>,
    port: Seq<char>,
)
    requires
        call_ensures(probe_endpoint_from_env, (value,), address),
    ensures
        address is Ok,
        value matches Some(listen) ==> (listen@ == "0.0.0.0:"@ + port && !contains(
            port,
            "0.0.0.0:"@,
        ) ==> address->Ok_0@ == "http://"@ + ("127.0.0.1:"@ + port)),
        value matches Some(listen) ==> (!contains(listen@, "0.0.0.0:"@) ==> if starts(
            listen@,
            "http://"@,
        ) || starts(listen@, "https://"@) {
            address->Ok_0@ == listen@
        } else {
            address->Ok_0@ == "http://"@ + listen@
        }),
        value is None ==> address->Ok_0@ == "http://"@ + "127.0.0.1:50051"@,
{
    lemma_http();
    let listen = match value {
        Some(listen) => listen@,
        None => "127.0.0.1:50051"@,
    };
    let from = "0.0.0.0:"@;
    let to = "127.0.0.1:"@;
    if listen == from + port && !contains(port, from) {
        occurrences_are_replaced(from, to, port, '0');
        other_texts_stay_as_they_are(port, from, to);
        let dial = to + port;
        lemma_starts(dial, "http://"@);
        lemma_starts(dial, "https://"@);
        if starts(dial, "http://"@) {
            assert(dial.take(7)[0] == dial[0]);
        }
        if starts(dial, "https://"@) {
            assert(dial.take(8)[0] == dial[0]);
        }
    }
    if value is None {
        lemma_default_listen();
    }
    if !contains(listen, from) {
        other_texts_stay_as_they_are(listen, from, to);
        lemma_starts(listen, "http://"@);
        lemma_starts(listen, "https://"@);
        if value is None {
            if starts(listen, "http://"@) {
                assert(listen.take(7)[0] == listen[0]);
            }
            if starts(listen, "https://"@) {
                assert(listen.take(8)[0] == listen[0]);
            }
        }
    }
}

proof fn lemma_default_listen()
    ensures
        !contains("127.0.0.1:50051"@, "0.0.0.0:"@),
        "127.0.0.1:50051"@[0] == '1',
        "127.0.0.1:50051"@.len() == 15,
{
    reveal_strlit("127.0.0.1:50051");
    reveal_strlit("0.0.0.0:");
    let text = "127.0.0.1:50051"@;
    let part = "0.0.0.0:"@;
    assert forall|at: int| 0 <= at && at + part.len() <= text.len() implies #[trigger] text.subrange(
        at,
        at + part.len(),
    ) != part by {
        let found = text.subrange(at, at + part.len());
        assert(found[0] == text[at]);
        assert(found[2] == text[at + 2]);
        assert(found[4] == text[at + 4]);
        assert(found[6] == text[at + 6]);
        assert(found[7] == text[at + 7]);
        assert(part[0] == '0');
        assert(part[4] == '0');
        assert(part[6] == '0');
        assert(part[7] == ':');
    }
}

/// A dotted version: its first two numbers and what follows them.
pub open spec fn dotted(major: nat, minor: nat, rest: Seq<char>) -> Seq<char> {
    decimal(major) + seq!['.'] + decimal(minor) + rest
}

proof fn lemma_position(text: Seq<char>, c: char, at: int)
    requires
        0 <= at <= text.len(),
        forall|i: int| 0 <= i < at ==> text[i] != c,
        at < text.len() ==> text[at] == c,
    ensures
        position_of(text, c) == at,
{
    lemma_position_of(text, c);
    if position_of(text, c) < at {
        assert(text[position_of(text, c)] == c);
    }
}

/// A dotted version is at least another one exactly if its first number is larger, or the same with
/// a second number that is not smaller. What follows the two numbers does not count.
pub proof fn versions_are_compared(
    version: &str,
    min_major: u32,
    min_minor: u32,
    answer: bool,
    major: nat,
    minor: nat,
    rest: Seq<char>,
)
    requires
        call_ensures(redis_version_at_least, (version, min_major, min_minor), answer),
        major <= u32::MAX,
        minor <= u32::MAX,
        rest.len() > 0 ==> rest[0] == '.',
        version@ == dotted(major, minor, rest),
    ensures
        answer <==> major > min_major || (major == min_major && minor >= min_minor),
{
    lemma_dotted(version@, major, minor, rest);
}

proof fn lemma_dotted(version: Seq<char>, major: nat, minor: nat, rest: Seq<char>)
    requires
        major <= u32::MAX,
        minor <= u32::MAX,
        rest.len() > 0 ==> rest[0] == '.',
        version == dotted(major, minor, rest),
    ensures
        unsigned_number(major_part(version), u32::MAX as nat) == Some(major),
        minor_part(version) is Some,
        unsigned_number(minor_part(version)->0, u32::MAX as nat) == Some(minor),
{
    decimals_are_read_back(major);
    decimals_are_read_back(minor);
    let dot = decimal(major).len() as int;
    assert forall|i: int| 0 <= i < dot implies version[i] != '.' by {
        assert(version[i] == decimal(major)[i]);
    }
    lemma_position(version, '.', dot);
    assert(major_part(version) == decimal(major));
    let tail = version.skip(dot + 1);
    let end = decimal(minor).len() as int;
    assert(tail == decimal(minor) + rest);
    assert forall|i: int| 0 <= i < end implies tail[i] != '.' by {
        assert(tail[i] == decimal(minor)[i]);
    }
    lemma_position(tail, '.', end);
    assert(tail.take(end) == decimal(minor));
    assert(decimal(major)[0] != '+');
    assert(decimal(minor)[0] != '+');
}

/// A version of one number is above another version only by that number, and a text that is no
/// version is above none.
pub proof fn incomplete_versions_are_compared(
    version: &str,
    min_major: u32,
    min_minor: u32,
    answer: bool,
    major: nat,
)
    requires
        call_ensures(redis_version_at_least, (version, min_major, min_minor), answer),
    ensures
        version@ == decimal(major) && major <= u32::MAX ==> (answer <==> major > min_major),
        version@.len() == 0 ==> !answer,
        version@.len() > 0 && !('0' <= version@[0] <= '9') && version@[0] != '+' ==> !answer,
{
    decimals_are_read_back(major);
    if version@ == decimal(major) {
        lemma_position(version@, '.', version@.len() as int);
        assert(version@.take(version@.len() as int) == version@);
        assert(decimal(major)[0] != '+');
    }
    lemma_position_of(version@, '.');
    let head = major_part(version@);
    if version@.len() > 0 && head.len() > 0 {
        assert(head[0] == version@[0]);
    }
}

/// Lag is reported from version 7.0 on, and exclusive ranges are accepted from version 6.2 on.
pub proof fn capabilities_come_with_the_version(
    version: &str,
    lag: bool,
    range: bool,
    at_least_seven: bool,
    at_least_six_two: bool,
)
    requires
        call_ensures(redis_version_supports_lag, (version,), lag),
        call_ensures(redis_version_supports_exclusive_range, (version,), range),
        call_ensures(redis_version_at_least, (version, 7u32, 0u32), at_least_seven),
        call_ensures(redis_version_at_least, (version, 6u32, 2u32), at_least_six_two),
    ensures
        lag == at_least_seven,
        range == at_least_six_two,
{
}

/// The capabilities of a server are those of the version that it names, and none where it names
/// none.
pub proof fn servers_tell_their_capabilities(
    info: &str,
    version: Option<String>,
    capabilities: RedisCapabilities,
    text: &str,
    lag: bool,
    range: bool,
)
    requires
        call_ensures(RedisCapabilities::from_info, (info,), capabilities),
        call_ensures(parse_redis_version, (info,), version),
        text@ == capabilities.version@,
        call_ensures(redis_version_supports_lag, (text,), lag),
        call_ensures(redis_version_supports_exclusive_range, (text,), range),
    ensures
        version matches Some(version) ==> capabilities.version@ == version@,
        version is None ==> capabilities.version@.len() == 0 && !capabilities.lag_supported
            && !capabilities.exclusive_range_supported,
        capabilities.lag_supported == lag,
        capabilities.exclusive_range_supported == range,
{
    if version is None {
        lemma_position_of(capabilities.version@, '.');
        assert(major_part(capabilities.version@).len() == 0);
    }
}

/// A server's version is what follows `redis_version:` at the beginning of a line, without the white
/// space around it; the first such line counts.
pub proof fn versions_are_found(
    info: &str,
    version: Option<String>,
    line: Seq<char>,
    rest: Seq<char>,
    later: &str,
    later_version: Option<String>,
)
    requires
        call_ensures(parse_redis_version, (info,), version),
        forall|i: int| 0 <= i < line.len() ==> line[i] != '\n' && line[i] != '\r',
        info@ == line + seq!['\n'] + rest,
        later@ == rest,
        call_ensures(parse_redis_version, (later,), later_version),
    ensures
        starts(line, "redis_version:"@) ==> (version matches Some(found) && found@ == trimmed(
            line.skip(14),
        )),
        !starts(line, "redis_version:"@) ==> (version is Some <==> later_version is Some),
        !starts(line, "redis_version:"@) ==> (version matches Some(found) ==> (
        later_version matches Some(same) && found@ == same@)),
{
    reveal_strlit("redis_version:");
    assert("redis_version:"@.len() == 14);
    let end = line.len() as int;
    assert forall|i: int| 0 <= i < end implies info@[i] != '\n' by {
        assert(info@[i] == line[i]);
    }
    lemma_position(info@, '\n', end);
    if end > 0 {
        assert(info@[end - 1] == line[end - 1]);
    }
    assert(info@.take(end) == line);
    assert(first_line(info@) == line);
    lemma_starts(line, "redis_version:"@);
    assert(info@.skip(end + 1) == rest);
}

/// The last line counts as well, though no line end follows it, and a reply without such a line
/// names no version.
pub proof fn the_last_line_counts(info: &str, version: Option<String>)
    requires
        call_ensures(parse_redis_version, (info,), version),
        forall|i: int| 0 <= i < info@.len() ==> info@[i] != '\n',
    ensures
        starts(info@, "redis_version:"@) ==> (version matches Some(found) && found@ == trimmed(
            info@.skip(14),
        )),
        !starts(info@, "redis_version:"@) ==> version is None,
{
    reveal_strlit("redis_version:");
    assert("redis_version:"@.len() == 14);
    lemma_position(info@, '\n', info@.len() as int);
    assert(info@.take(info@.len() as int) == info@);
    lemma_starts(info@, "redis_version:"@);
}

} // verus!

//! Configuration: what the values of environment variables mean. The caller reads the variables;
//! one that is unset, or is no valid text, counts as absent.

use vstd::prelude::*;

use crate::store::{open_client, opened_client};
use crate::text::{parse_signed, parse_unsigned, same_text};
use crate::text::{signed_number, text_option, unsigned_number};

verus! {

/// Default limit on the size of gRPC messages in both directions: 64 MiB.
pub const DEFAULT_GRPC_MAX_MESSAGE_BYTES: usize = 64 * 1024 * 1024;

/// The text that `Debug` prints for a text.
pub uninterp spec fn quoted(text: Seq<char>) -> Seq<char>;

/// The `Debug` form of `str`, as `format!` prints it, puts a text between quotation marks and
/// escapes what cannot be printed; it depends on the text alone.
#[verifier::external_body]
fn quote(text: &str) -> (quotation: String)
    ensures
        quotation@ == quoted(text@),
{
    format!("{text:?}")
}

/// The lower-case form of a text.
pub uninterp spec fn lowercased(text: Seq<char>) -> Seq<char>;

/// The lower-case form of an ASCII character.
pub open spec fn ascii_lower(c: char) -> char {
    if 'A' <= c <= 'Z' {
        (c as u32 + 32) as char
    } else {
        c
    }
}

/// A text with its ASCII characters in lower case.
pub open spec fn ascii_lowered(text: Seq<char>) -> Seq<char> {
    text.map_values(|c: char| ascii_lower(c))
}

/// Whether a text is made of ASCII characters.
pub open spec fn is_ascii(text: Seq<char>) -> bool {
    forall|i: int| 0 <= i < text.len() ==> (#[trigger] text[i]) as u32 <= 127
}

/// `str::to_lowercase` depends on the text alone; in a text of ASCII characters it changes `A` to
/// `Z` into `a` to `z` and nothing else.
#[verifier::external_body]
fn lowercase(text: &str) -> (lower: String)
    ensures
        lower@ == lowercased(text@),
        is_ascii(text@) ==> lower@ == ascii_lowered(text@),
{
    text.to_lowercase()
}

/// Why a configuration is refused.
#[derive(Debug)]
pub enum ConfigError {
    /// A variable that must hold a number does not.
    InvalidNumber { name: String, value: String },
    /// A variable that must hold a positive number holds another one.
    NotPositive { name: String },
    /// The metrics switch is neither on nor off.
    InvalidMetricsSwitch { value: String },
    /// The Redis client refuses the URL.
    InvalidRedisUrl { url: String, cause: redis::RedisError },
}

/// A configuration error as a mathematical value.
pub enum ConfigErrorView {
    InvalidNumber { name: Seq<char>, value: Seq<char> },
    NotPositive { name: Seq<char> },
    InvalidMetricsSwitch { value: Seq<char> },
    InvalidRedisUrl { url: Seq<char>, cause: redis::RedisError },
}

impl View for ConfigError {
    type V = ConfigErrorView;

    open spec fn view(&self) -> ConfigErrorView {
        match *self {
            ConfigError::InvalidNumber { name, value } => ConfigErrorView::InvalidNumber {
                name: name@,
                value: value@,
            },
            ConfigError::NotPositive { name } => ConfigErrorView::NotPositive { name: name@ },
            ConfigError::InvalidMetricsSwitch { value } => ConfigErrorView::InvalidMetricsSwitch {
                value: value@,
            },
            ConfigError::InvalidRedisUrl { url, cause } => ConfigErrorView::InvalidRedisUrl {
                url: url@,
                cause,
            },
        }
    }
}

impl ConfigErrorView {
    /// The error as a sentence.
    pub open spec fn sentence(self) -> Seq<char> {
        match self {
            ConfigErrorView::InvalidNumber { name, value } => "invalid "@ + name + " value "@
                + quoted(value),
            ConfigErrorView::NotPositive { name } => name + " must be greater than 0"@,
            ConfigErrorView::InvalidMetricsSwitch { value } =>
                "invalid METRICS_HTTP_ENABLED value "@ + quoted(value) + "; use true/false"@,
            ConfigErrorView::InvalidRedisUrl { url, .. } => "invalid RESPONSE_ID_STORE_URL "@ + url,
        }
    }
}

impl ConfigError {
    /// The error as a sentence.
    pub fn message(&self) -> (text: String)
        ensures
            text@ == self@.sentence(),
    {
        match self {
            ConfigError::InvalidNumber { name, value } => "invalid ".to_owned().concat(
                name.as_str(),
            ).concat(" value ").concat(quote(value.as_str()).as_str()),
            ConfigError::NotPositive { name } => name.clone().concat(" must be greater than 0"),
            ConfigError::InvalidMetricsSwitch { value } =>
                "invalid METRICS_HTTP_ENABLED value ".to_owned().concat(
                quote(value.as_str()).as_str(),
            ).concat("; use true/false"),
            ConfigError::InvalidRedisUrl { url, .. } =>
                "invalid RESPONSE_ID_STORE_URL ".to_owned().concat(url.as_str()),
        }
    }
}

/// The number that a variable sets, or the default where it is absent.
pub open spec fn unsigned_setting(
    name: Seq<char>,
    value: Option<Seq<char>>,
    default: nat,
    max: nat,
) -> Result<nat, ConfigErrorView> {
    match value {
        Some(value) => match unsigned_number(value, max) {
            Some(number) => Ok(number),
            None => Err(ConfigErrorView::InvalidNumber { name, value }),
        },
        None => Ok(default),
    }
}

/// The signed number that a variable sets, or the default where it is absent.
pub open spec fn signed_setting(name: Seq<char>, value: Option<Seq<char>>, default: int) -> Result<
    int,
    ConfigErrorView,
> {
    match value {
        Some(value) => match signed_number(value) {
            Some(number) => Ok(number),
            None => Err(ConfigErrorView::InvalidNumber { name, value }),
        },
        None => Ok(default),
    }
}

/// Reads a variable as a number of 64 bits.
pub fn parse_env_u64(name: &str, value: &Option<String>, default: u64) -> (number: Result<
    u64,
    ConfigError,
>)
    ensures
        match number {
            Ok(number) => unsigned_setting(
                name@,
                text_option(*value),
                default as nat,
                u64::MAX as nat,
            ) == Ok::<nat, ConfigErrorView>(number as nat),
            Err(err) => unsigned_setting(
                name@,
                text_option(*value),
                default as nat,
                u64::MAX as nat,
            ) == Err::<nat, ConfigErrorView>(err@),
        },
{
    match value {
        Some(value) => match parse_unsigned(value.as_str(), u64::MAX) {
            Some(number) => Ok(number),
            None => Err(
                ConfigError::InvalidNumber { name: name.to_owned(), value: value.clone() },
            ),
        },
        None => Ok(default),
    }
}

/// Reads a variable as a signed number of 64 bits.
pub fn parse_env_i64(name: &str, value: &Option<String>, default: i64) -> (number: Result<
    i64,
    ConfigError,
>)
    ensures
        match number {
            Ok(number) => signed_setting(name@, text_option(*value), default as int) == Ok::<
                int,
                ConfigErrorView,
            >(number as int),
            Err(err) => signed_setting(name@, text_option(*value), default as int) == Err::<
                int,
                ConfigErrorView,
            >(err@),
        },
{
    match value {
        Some(value) => match parse_signed(value.as_str()) {
            Some(number) => Ok(number),
            None => Err(
                ConfigError::InvalidNumber { name: name.to_owned(), value: value.clone() },
            ),
        },
        None => Ok(default),
    }
}

/// Reads a variable as a size.
pub fn parse_env_usize(name: &str, value: &Option<String>, default: usize) -> (number: Result<
    usize,
    ConfigError,
>)
    ensures
        match number {
            Ok(number) => unsigned_setting(
                name@,
                text_option(*value),
                default as nat,
                usize::MAX as nat,
            ) == Ok::<nat, ConfigErrorView>(number as nat),
            Err(err) => unsigned_setting(
                name@,
                text_option(*value),
                default as nat,
                usize::MAX as nat,
            ) == Err::<nat, ConfigErrorView>(err@),
        },
{
    match value {
        Some(value) => match parse_unsigned(value.as_str(), usize::MAX as u64) {
            Some(number) => Ok(number as usize),
            None => Err(
                ConfigError::InvalidNumber { name: name.to_owned(), value: value.clone() },
            ),
        },
        None => Ok(default),
    }
}

/// The variables that configure the store.
#[derive(Debug)]
pub struct StoreEnvironment {
    /// `RESPONSE_ID_STORE_URL`
    pub redis_url: Option<String>,
    /// `RESPONSE_ID_STORE_KEY_PREFIX`
    pub key_prefix: Option<String>,
    /// `RESPONSE_ID_STORE_TTL_SECONDS`
    pub ttl_seconds: Option<String>,
    /// `BACKGROUND_QUEUE_STREAM_KEY`
    pub stream_key: Option<String>,
    /// `BACKGROUND_RESPONSE_STALE_SECONDS`
    pub stale_seconds: Option<String>,
    /// `BACKGROUND_QUEUE_STREAM_MAXLEN`
    pub stream_maxlen: Option<String>,
}

/// Where and how responses and jobs are stored.
#[derive(Debug)]
pub struct StoreConfig {
    pub redis_url: String,
    pub key_prefix: String,
    pub ttl_seconds: u64,
    pub stream_key: String,
    pub stale_seconds: i64,
    pub stream_maxlen: usize,
}

/// A configuration as a mathematical value.
#[verifier::ext_equal]
pub struct ConfigView {
    pub redis_url: Seq<char>,
    pub key_prefix: Seq<char>,
    pub ttl_seconds: int,
    pub stream_key: Seq<char>,
    pub stale_seconds: int,
    pub stream_maxlen: int,
}

impl View for StoreConfig {
    type V = ConfigView;

    open spec fn view(&self) -> ConfigView {
        ConfigView {
            redis_url: self.redis_url@,
            key_prefix: self.key_prefix@,
            ttl_seconds: self.ttl_seconds as int,
            stream_key: self.stream_key@,
            stale_seconds: self.stale_seconds as int,
            stream_maxlen: self.stream_maxlen as int,
        }
    }
}

impl Clone for StoreConfig {
    fn clone(&self) -> (copy: Self)
        ensures
            copy@ == self@,
    {
        StoreConfig {
            redis_url: self.redis_url.clone(),
            key_prefix: self.key_prefix.clone(),
            ttl_seconds: self.ttl_seconds,
            stream_key: self.stream_key.clone(),
            stale_seconds: self.stale_seconds,
            stream_maxlen: self.stream_maxlen,
        }
    }
}

impl ConfigView {
    /// What is wrong with the configuration: the lifetime of a record and the time after which
    /// a response is stale must be positive.
    pub open spec fn flaw(self) -> Option<ConfigErrorView> {
        if self.ttl_seconds == 0 {
            Some(ConfigErrorView::NotPositive { name: "RESPONSE_ID_STORE_TTL_SECONDS"@ })
        } else if self.stale_seconds <= 0 {
            Some(ConfigErrorView::NotPositive { name: "BACKGROUND_RESPONSE_STALE_SECONDS"@ })
        } else {
            None
        }
    }
}

/// The text that a variable sets, or the default where it is absent.
pub open spec fn text_setting(value: Option<String>, default: Seq<char>) -> Seq<char> {
    match value {
        Some(value) => value@,
        None => default,
    }
}

fn text_or(value: Option<String>, default: &str) -> (text: String)
    ensures
        text@ == text_setting(value, default@),
{
    match value {
        Some(value) => value,
        None => default.to_owned(),
    }
}

/// The configuration that variables make, or what is wrong with them.
pub open spec fn configured(env: StoreEnvironment) -> Result<ConfigView, ConfigErrorView> {
    let ttl_seconds = unsigned_setting(
        "RESPONSE_ID_STORE_TTL_SECONDS"@,
        text_option(env.ttl_seconds),
        86_400,
        u64::MAX as nat,
    );
    let stale_seconds = signed_setting(
        "BACKGROUND_RESPONSE_STALE_SECONDS"@,
        text_option(env.stale_seconds),
        3600,
    );
    let stream_maxlen = unsigned_setting(
        "BACKGROUND_QUEUE_STREAM_MAXLEN"@,
        text_option(env.stream_maxlen),
        10_000,
        usize::MAX as nat,
    );
    match (ttl_seconds, stale_seconds, stream_maxlen) {
        (Err(err), _, _) => Err(err),
        (_, Err(err), _) => Err(err),
        (_, _, Err(err)) => Err(err),
        (Ok(ttl_seconds), Ok(stale_seconds), Ok(stream_maxlen)) => {
            let config = ConfigView {
                redis_url: text_setting(env.redis_url, "redis://valkey:6379"@),
                key_prefix: text_setting(env.key_prefix, "responses-api-store:responses"@),
                ttl_seconds: ttl_seconds as int,
                stream_key: text_setting(env.stream_key, "responses-api-store:background"@),
                stale_seconds,
                stream_maxlen: stream_maxlen as int,
            };
            match config.flaw() {
                Some(err) => Err(err),
                None => Ok(config),
            }
        },
    }
}

impl StoreConfig {
    /// Makes a configuration of the variables' values.
    pub fn from_env(env: StoreEnvironment) -> (config: Result<StoreConfig, ConfigError>)
        ensures
            match config {
                Ok(config) => configured(env) == Ok::<ConfigView, ConfigErrorView>(config@),
                Err(err) => configured(env) == Err::<ConfigView, ConfigErrorView>(err@),
            },
    {
        let ttl_seconds = match parse_env_u64(
            "RESPONSE_ID_STORE_TTL_SECONDS",
            &env.ttl_seconds,
            86_400,
        ) {
            Ok(number) => number,
            Err(err) => return Err(err),
        };
        let stale_seconds = match parse_env_i64(
            "BACKGROUND_RESPONSE_STALE_SECONDS",
            &env.stale_seconds,
            3600,
        ) {
            Ok(number) => number,
            Err(err) => return Err(err),
        };
        let stream_maxlen = match parse_env_usize(
            "BACKGROUND_QUEUE_STREAM_MAXLEN",
            &env.stream_maxlen,
            10_000,
        ) {
            Ok(number) => number,
            Err(err) => return Err(err),
        };
        let config = StoreConfig {
            redis_url: text_or(env.redis_url, "redis://valkey:6379"),
            key_prefix: text_or(env.key_prefix, "responses-api-store:responses"),
            ttl_seconds,
            stream_key: text_or(env.stream_key, "responses-api-store:background"),
            stale_seconds,
            stream_maxlen,
        };
        match config.validate() {
            Ok(_) => Ok(config),
            Err(err) => Err(err),
        }
    }

    /// Checks the configuration.
    pub fn validate(&self) -> (result: Result<(), ConfigError>)
        ensures
            match result {
                Ok(_) => self@.flaw() is None,
                Err(err) => self@.flaw() == Some(err@),
            },
    {
        if self.ttl_seconds == 0 {
            return Err(
                ConfigError::NotPositive { name: "RESPONSE_ID_STORE_TTL_SECONDS".to_owned() },
            );
        }
        if self.stale_seconds <= 0 {
            return Err(
                ConfigError::NotPositive { name: "BACKGROUND_RESPONSE_STALE_SECONDS".to_owned() },
            );
        }
        Ok(())
    }
}

/// The address on which gRPC requests are served, by `GRPC_LISTEN_ADDR`. Every text is accepted.
pub fn grpc_listen_addr_from_env(value: Option<String>) -> (addr: Result<
    String,
    ConfigError,
>)
    ensures
        match addr {
            Ok(addr) => addr@ == text_setting(value, "0.0.0.0:50051"@),
            Err(_) => false,
        },
{
    Ok(text_or(value, "0.0.0.0:50051"))
}

/// What a switch says, by its lower-case form.
pub open spec fn switch_position(lower: Seq<char>) -> Option<bool> {
    if lower == "1"@ || lower == "true"@ || lower == "yes"@ {
        Some(true)
    } else if lower == "0"@ || lower == "false"@ || lower == "no"@ {
        Some(false)
    } else {
        None
    }
}

/// Reads a switch, by its lower-case form.
pub fn read_switch(lower: &str) -> (position: Option<bool>)
    ensures
        position == switch_position(lower@),
{
    if same_text(lower, "1") || same_text(lower, "true") || same_text(lower, "yes") {
        Some(true)
    } else if same_text(lower, "0") || same_text(lower, "false") || same_text(lower, "no") {
        Some(false)
    } else {
        None
    }
}

/// Whether metrics are served over HTTP, by `METRICS_HTTP_ENABLED`. They are unless the variable
/// switches them off; upper and lower case count the same.
pub fn metrics_http_enabled_from_env(value: Option<String>) -> (enabled: Result<bool, ConfigError>)
    ensures
        match value {
            Some(value) => match enabled {
                Ok(enabled) => switch_position(lowercased(value@)) == Some(enabled),
                Err(err) => switch_position(lowercased(value@)) is None && err@ == (
                ConfigErrorView::InvalidMetricsSwitch { value: value@ }),
            },
            None => enabled == Ok::<bool, ConfigError>(true),
        },
        match value {
            Some(value) => is_ascii(value@) ==> match enabled {
                Ok(enabled) => switch_position(ascii_lowered(value@)) == Some(enabled),
                Err(_) => switch_position(ascii_lowered(value@)) is None,
            },
            None => true,
        },
{
    match value {
        Some(value) => {
            let lower = lowercase(value.as_str());
            match read_switch(lower.as_str()) {
                Some(enabled) => Ok(enabled),
                None => Err(ConfigError::InvalidMetricsSwitch { value }),
            }
        },
        None => Ok(true),
    }
}

/// The address on which metrics are served, by `METRICS_HTTP_LISTEN_ADDR`. Every text is
/// accepted.
pub fn metrics_http_listen_addr_from_env(value: Option<String>) -> (addr: Result<
    String,
    ConfigError,
>)
    ensures
        match addr {
            Ok(addr) => addr@ == text_setting(value, "0.0.0.0:8080"@),
            Err(_) => false,
        },
{
    Ok(text_or(value, "0.0.0.0:8080"))
}

/// The limit on the size of gRPC messages that a variable sets.
pub open spec fn max_message_setting(value: Option<Seq<char>>) -> Result<nat, ConfigErrorView> {
    match unsigned_setting(
        "GRPC_MAX_MESSAGE_BYTES"@,
        value,
        DEFAULT_GRPC_MAX_MESSAGE_BYTES as nat,
        usize::MAX as nat,
    ) {
        Ok(bytes) => if bytes == 0 {
            Err(ConfigErrorView::NotPositive { name: "GRPC_MAX_MESSAGE_BYTES"@ })
        } else {
            Ok(bytes)
        },
        Err(err) => Err(err),
    }
}

/// The limit on the size of gRPC messages, by `GRPC_MAX_MESSAGE_BYTES`.
pub fn grpc_max_message_bytes_from_env(value: Option<String>) -> (bytes: Result<
    usize,
    ConfigError,
>)
    ensures
        match bytes {
            Ok(bytes) => max_message_setting(text_option(value)) == Ok::<nat, ConfigErrorView>(
                bytes as nat,
            ),
            Err(err) => max_message_setting(text_option(value)) == Err::<nat, ConfigErrorView>(
                err@,
            ),
        },
{
    let bytes = match parse_env_usize(
        "GRPC_MAX_MESSAGE_BYTES",
        &value,
        DEFAULT_GRPC_MAX_MESSAGE_BYTES,
    ) {
        Ok(bytes) => bytes,
        Err(err) => return Err(err),
    };
    match validate_grpc_max_message_bytes(bytes) {
        Ok(_) => Ok(bytes),
        Err(err) => Err(err),
    }
}

/// Checks the limit on the size of gRPC messages.
pub fn validate_grpc_max_message_bytes(bytes: usize) -> (result: Result<(), ConfigError>)
    ensures
        match result {
            Ok(_) => bytes > 0,
            Err(err) => bytes == 0 && err@ == (ConfigErrorView::NotPositive {
                name: "GRPC_MAX_MESSAGE_BYTES"@,
            }),
        },
{
    if bytes == 0 {
        return Err(ConfigError::NotPositive { name: "GRPC_MAX_MESSAGE_BYTES".to_owned() });
    }
    Ok(())
}

/// Checks whether the Redis client accepts a URL.
pub fn validate_redis_url(url: &str) -> (result: Result<(), ConfigError>)
    ensures
        match result {
            Ok(_) => opened_client(url@) is Ok,
            Err(err) => match opened_client(url@) {
                Ok(_) => false,
                Err(cause) => err@ == (ConfigErrorView::InvalidRedisUrl { url: url@, cause }),
            },
        },
{
    match open_client(url) {
        Ok(_) => Ok(()),
        Err(cause) => Err(ConfigError::InvalidRedisUrl { url: url.to_owned(), cause }),
    }
}

/// A configuration that variables make has no flaw: records live for a while, and a response
/// does not go stale at once.
pub proof fn configurations_are_sound(env: StoreEnvironment)
    ensures
        configured(env) matches Ok(config) ==> config.flaw() is None && config.ttl_seconds > 0
            && config.stale_seconds > 0,
{
}

/// Without any variable there is a configuration, with the default values.
pub proof fn defaults_are_sound(env: StoreEnvironment)
    requires
        env.redis_url is None,
        env.key_prefix is None,
        env.ttl_seconds is None,
        env.stream_key is None,
        env.stale_seconds is None,
        env.stream_maxlen is None,
    ensures
        configured(env) == Ok::<ConfigView, ConfigErrorView>(
            ConfigView {
                redis_url: "redis://valkey:6379"@,
                key_prefix: "responses-api-store:responses"@,
                ttl_seconds: 86_400,
                stream_key: "responses-api-store:background"@,
                stale_seconds: 3600,
                stream_maxlen: 10_000,
            },
        ),
        max_message_setting(None) == Ok::<nat, ConfigErrorView>(
            DEFAULT_GRPC_MAX_MESSAGE_BYTES as nat,
        ),
{
}

} // verus!

//! What a Redis server can do, as its version tells.

use vstd::prelude::*;

use crate::text::{chars_of, find_char, parse_unsigned, text_between, trimmed_between};
use crate::text::{has_prefix, lemma_position_of, position_of, trimmed, unsigned_number};

verus! {

/// The version of a Redis server and what that version supports.
#[derive(Debug, PartialEq, Eq)]
pub struct RedisCapabilities {
    pub version: String,
    pub lag_supported: bool,
    pub exclusive_range_supported: bool,
}

impl Clone for RedisCapabilities {
    fn clone(&self) -> (copy: Self)
        ensures
            copy == *self,
    {
        RedisCapabilities {
            version: self.version.clone(),
            lag_supported: self.lag_supported,
            exclusive_range_supported: self.exclusive_range_supported,
        }
    }
}

/// The first line of `info` without its line ending: a line feed, alone or after a carriage
/// return.
pub open spec fn first_line(info: Seq<char>) -> Seq<char> {
    let end = position_of(info, '\n');
    if 0 < end < info.len() && info[end - 1] == '\r' {
        info.take(end - 1)
    } else {
        info.take(end)
    }
}

/// The version named in the first line of `info` that begins with `redis_version:`.
pub open spec fn redis_version_in(info: Seq<char>) -> Option<Seq<char>>
    decreases info.len(),
{
    let end = position_of(info, '\n');
    if has_prefix(first_line(info), "redis_version:"@) {
        Some(trimmed(first_line(info).skip("redis_version:"@.len() as int)))
    } else if 0 <= end < info.len() {
        redis_version_in(info.skip(end + 1))
    } else {
        None
    }
}

/// Finds the server's version in the reply to `INFO server`.
pub fn parse_redis_version(info: &str) -> (version: Option<String>)
    ensures
        match version {
            Some(found) => redis_version_in(info@) == Some(found@),
            None => redis_version_in(info@) is None,
        },
{
    let chars = chars_of(info);
    let prefix = chars_of("redis_version:");
    let mut start: usize = 0;
    assert(chars@.skip(0) == info@);
    loop
        invariant
            start <= chars@.len(),
            prefix@ == "redis_version:"@,
            redis_version_in(info@) == redis_version_in(chars@.skip(start as int)),
        decreases chars@.len() - start,
    {
        let ghost rest = chars@.skip(start as int);
        proof {
            lemma_position_of(rest, '\n');
        }
        let end = find_char(&chars, start, '\n');
        let stop: usize = if start < end && end < chars.len() && chars[end - 1] == '\r' {
            end - 1
        } else {
            end
        };
        let ghost line = chars@.subrange(start as int, stop as int);
        assert(line == first_line(rest));
        if stop - start >= prefix.len() {
            let head = text_between(&chars, start, start + prefix.len());
            if head == "redis_version:".to_owned() {
                assert(line.subrange(0, prefix@.len() as int) == head@);
                assert(line.skip(prefix@.len() as int) == chars@.subrange(
                    start + prefix@.len(),
                    stop as int,
                ));
                return Some(trimmed_between(&chars, start + prefix.len(), stop));
            }
            assert(line.subrange(0, prefix@.len() as int) == head@);
        }
        if end == chars.len() {
            return None;
        }
        assert(rest.skip(end - start + 1) == chars@.skip(end + 1));
        start = end + 1;
    }
}

/// The first part of a dotted version.
pub open spec fn major_part(version: Seq<char>) -> Seq<char> {
    version.take(position_of(version, '.'))
}

/// The second part of a dotted version, if there is one.
pub open spec fn minor_part(version: Seq<char>) -> Option<Seq<char>> {
    let dot = position_of(version, '.');
    if dot < version.len() {
        let rest = version.skip(dot + 1);
        Some(rest.take(position_of(rest, '.')))
    } else {
        None
    }
}

/// Whether a version is at least `min_major.min_minor`. A version whose second part is missing
/// or no number counts as the smallest of its first part; one whose first part is no number
/// counts as below all others.
pub open spec fn version_at_least(version: Seq<char>, min_major: nat, min_minor: nat) -> bool {
    let minor = match minor_part(version) {
        Some(part) => unsigned_number(part, u32::MAX as nat),
        None => None,
    };
    match unsigned_number(major_part(version), u32::MAX as nat) {
        Some(major) => major > min_major || (major == min_major && minor is Some && minor->0
            >= min_minor),
        None => false,
    }
}

/// Whether a version is at least `min_major.min_minor`.
pub fn redis_version_at_least(version: &str, min_major: u32, min_minor: u32) -> (answer: bool)
    ensures
        answer == version_at_least(version@, min_major as nat, min_minor as nat),
{
    let chars = chars_of(version);
    proof {
        assert(chars@.skip(0) == version@);
        lemma_position_of(version@, '.');
    }
    let dot = find_char(&chars, 0, '.');
    let major = parse_unsigned(text_between(&chars, 0, dot).as_str(), u32::MAX as u64);
    let minor = if dot < chars.len() {
        let ghost rest = version@.skip(dot + 1);
        proof {
            lemma_position_of(rest, '.');
        }
        let end = find_char(&chars, dot + 1, '.');
        assert(chars@.subrange(dot + 1, end as int) == rest.take(position_of(rest, '.')));
        parse_unsigned(text_between(&chars, dot + 1, end).as_str(), u32::MAX as u64)
    } else {
        None
    };
    match (major, minor) {
        (Some(major), Some(minor)) => major > min_major as u64 || (major == min_major as u64
            && minor >= min_minor as u64),
        (Some(major), None) => major > min_major as u64,
        _ => false,
    }
}

/// Whether the server reports the lag of a consumer group.
pub fn redis_version_supports_lag(version: &str) -> (answer: bool)
    ensures
        answer == version_at_least(version@, 7, 0),
{
    redis_version_at_least(version, 7, 0)
}

/// Whether the server accepts exclusive ranges on streams.
pub fn redis_version_supports_exclusive_range(version: &str) -> (answer: bool)
    ensures
        answer == version_at_least(version@, 6, 2),
{
    redis_version_at_least(version, 6, 2)
}

impl RedisCapabilities {
    /// Reads the capabilities out of the reply to `INFO server`. A reply that names no version
    /// counts as the empty version.
    pub fn from_info(info: &str) -> (capabilities: RedisCapabilities)
        ensures
            capabilities.version@ == match redis_version_in(info@) {
                Some(version) => version,
                None => Seq::empty(),
            },
            capabilities.lag_supported == version_at_least(capabilities.version@, 7, 0),
            capabilities.exclusive_range_supported == version_at_least(
                capabilities.version@,
                6,
                2,
            ),
    {
        let version = match parse_redis_version(info) {
            Some(version) => version,
            None => String::new(),
        };
        let lag_supported = redis_version_supports_lag(version.as_str());
        let exclusive_range_supported = redis_version_supports_exclusive_range(version.as_str());
        RedisCapabilities { version, lag_supported, exclusive_range_supported }
    }
}

/// A server that reports group lag also accepts exclusive ranges.
pub proof fn lag_implies_exclusive_range(version: Seq<char>)
    ensures
        version_at_least(version, 7, 0) ==> version_at_least(version, 6, 2),
{
}

} // verus!

//! The health probe: where it finds the server.

use vstd::prelude::*;

use crate::config::{text_setting, ConfigError};
use crate::text::{begins_with, replace_text};
use crate::text::{has_prefix, replaced};

verus! {

/// Where the server is dialled that listens on `listen_addr`: on the loopback address where it
/// listens on all of them, over HTTP unless the address says otherwise.
pub open spec fn endpoint(listen_addr: Seq<char>) -> Seq<char> {
    let dial_addr = replaced(listen_addr, "0.0.0.0:"@, "127.0.0.1:"@);
    if has_prefix(dial_addr, "http://"@) || has_prefix(dial_addr, "https://"@) {
        dial_addr
    } else {
        "http://"@ + dial_addr
    }
}

/// Where the probe finds the server, by `GRPC_LISTEN_ADDR`. Every text is accepted.
pub fn probe_endpoint_from_env(value: Option<String>) -> (address: Result<
    String,
    ConfigError,
>)
    ensures
        match address {
            Ok(address) => address@ == endpoint(text_setting(value, "127.0.0.1:50051"@)),
            Err(_) => false,
        },
{
    let listen_addr = match value {
        Some(listen_addr) => listen_addr,
        None => "127.0.0.1:50051".to_owned(),
    };
    proof {
        reveal_strlit("0.0.0.0:");
    }
    let dial_addr = replace_text(listen_addr.as_str(), "0.0.0.0:", "127.0.0.1:");
    if begins_with(dial_addr.as_str(), "http://") || begins_with(dial_addr.as_str(), "https://") {
        Ok(dial_addr)
    } else {
        Ok("http://".to_owned().concat(dial_addr.as_str()))
    }
}

/// The endpoint always names its scheme.
pub proof fn endpoints_name_their_scheme(listen_addr: Seq<char>)
    ensures
        has_prefix(endpoint(listen_addr), "http://"@) || has_prefix(
            endpoint(listen_addr),
            "https://"@,
        ),
{
    let dial_addr = replaced(listen_addr, "0.0.0.0:"@, "127.0.0.1:"@);
    assert(("http://"@ + dial_addr).subrange(0, "http://"@.len() as int) == "http://"@);
}

} // verus!

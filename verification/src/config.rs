//! Client configuration.

use crate::endpoint::NozomiEndpoint;
use vstd::prelude::*;

verus! {

/// `String::from` on a string slice: the new string holds the same characters.
pub assume_specification<'a>[ <String as core::convert::From<&'a str>>::from ](
    s: &str,
) -> (text: String)
    ensures
        text@ == s@,
;

/// `From` on a value that already has the wanted type: it comes back unchanged.
pub assume_specification<V>[ <V as core::convert::From<V>>::from ](v: V) -> (same: V)
    ensures
        same == v,
;

/// The port of a configuration that names none.
pub const DEFAULT_PORT: u16 = 443;

/// Client configuration.
pub struct NozomiConfig {
    /// Host name without protocol (e.g. `"pit1.nozomi.temporal.xyz"`).
    pub host: String,
    /// Port. Defaults to `443`.
    pub port: u16,
    /// API key for authentication (passed as `?c=<key>` query parameter).
    pub api_key: String,
}

impl NozomiConfig {
    /// Creates a configuration with defaults (port 443).
    pub fn new<H: Into<String>, K: Into<String>>(host: H, api_key: K) -> (config: Self)
        ensures
            call_ensures(<H as Into<String>>::into, (host,), config.host),
            config.port == DEFAULT_PORT,
            call_ensures(<K as Into<String>>::into, (api_key,), config.api_key),
    {
        NozomiConfig { host: host.into(), port: DEFAULT_PORT, api_key: api_key.into() }
    }

    /// Creates a configuration from a [`NozomiEndpoint`].
    pub fn from_endpoint<K: Into<String>>(endpoint: NozomiEndpoint, api_key: K) -> (config: Self)
        ensures
            config.host@ == endpoint.host_name(),
            config.port == DEFAULT_PORT,
            call_ensures(<K as Into<String>>::into, (api_key,), config.api_key),
    {
        NozomiConfig {
            host: String::from(endpoint.host()),
            port: DEFAULT_PORT,
            api_key: api_key.into(),
        }
    }
}

} // verus!

//! Where the proxy listens and where it forwards to.
use vstd::prelude::*;
use crate::text::{chars_of, decimal, push_decimal, push_str, string_from_chars};

verus! {

broadcast use vstd::string::group_string_axioms;

/// A host and a port.
#[derive(Debug)]
pub struct Address {
    pub address: String,
    pub port: u16,
}

impl Address {
    /// `host:port`, the form sockets are opened with.
    pub fn to_string(&self) -> (s: String)
        ensures
            s@ == self.address@ + ":"@ + decimal(self.port as nat),
    {
        let mut out = chars_of(self.address.as_str());
        push_str(&mut out, ":");
        push_decimal(&mut out, self.port as u64);
        string_from_chars(out.as_slice())
    }
}

/// The addresses of the proxy.
#[derive(Debug)]
pub struct ProxyConfig {
    /// Where clients connect.
    pub listen: Address,
    /// Where their traffic goes.
    pub upstream: Address,
}

/// The settings used when none are given: listen on 127.0.0.1:8080 and
/// forward to 127.0.0.1:9090.
pub open spec fn is_default_config(c: ProxyConfig) -> bool {
    &&& c.listen.address@ == "127.0.0.1"@
    &&& c.listen.port == 8080
    &&& c.upstream.address@ == "127.0.0.1"@
    &&& c.upstream.port == 9090
}

impl Default for ProxyConfig {
    fn default() -> (c: Self)
        ensures
            is_default_config(c),
    {
        ProxyConfig {
            listen: Address { address: "127.0.0.1".to_owned(), port: 8080 },
            upstream: Address {
                address: "127.0.0.1".to_owned(),
                port: 9090,
            },
        }
    }
}

/// The settings to run with: those read from the configuration file when
/// it could be read and parsed, the defaults otherwise.
pub fn load_config(parsed: Option<ProxyConfig>) -> (c: ProxyConfig)
    ensures
        parsed matches Some(p) ==> c == p,
        parsed is None ==> is_default_config(c),
{
    match parsed {
        Some(p) => p,
        None => ProxyConfig::default(),
    }
}

} // verus!

//! Settings of the echo server.
use vstd::prelude::*;

verus! {

/// Tunable limits of the echo server.
#[derive(Debug, Clone, Copy, PartialEq, Eq)]
pub struct Config {
    /// Longest line, in bytes, that is echoed back.
    pub max_message_size: usize,
    /// Seconds granted to open connections on shutdown.
    pub drain_timeout_secs: u64,
    /// Seconds a connection may stay silent.
    pub idle_timeout_secs: u64,
}

/// The settings the server starts with.
pub open spec fn default_config() -> Config {
    Config { max_message_size: 4096, drain_timeout_secs: 5, idle_timeout_secs: 60 }
}

impl Default for Config {
    fn default() -> (c: Self)
        ensures
            c == default_config(),
    {
        Config { max_message_size: 4096, drain_timeout_secs: 5, idle_timeout_secs: 60 }
    }
}

} // verus!

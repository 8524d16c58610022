//! The protocol logic of a family of small TCP servers — two echo servers,
//! an echo server with counters and a health endpoint, and a pooling TCP
//! proxy — with contracts proved by Verus. Sockets, tasks and timers are
//! left to the caller; these modules decide what is sent and kept.
pub mod text;

pub mod basic_echo;
pub mod raw_echo;

pub mod config;
pub mod echo;
pub mod health;
pub mod metrics;

pub mod pool;
pub mod proxy_config;
pub mod relay;
pub mod upstream;

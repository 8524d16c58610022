//! Moving bytes between a client and the upstream server, and what a
//! proxied session ends with.
use vstd::prelude::*;
use crate::text::{chars_of, push_str, string_from_chars};

verus! {

broadcast use vstd::string::group_string_axioms;

/// Counts the bytes copied in one direction.
pub struct CopyCounter {
    total: u64,
}

impl CopyCounter {
    /// Bytes copied so far.
    pub closed spec fn copied(self) -> u64 {
        self.total
    }

    /// Nothing copied yet.
    pub fn new() -> (c: Self)
        ensures
            c.copied() == 0,
    {
        CopyCounter { total: 0 }
    }

    /// Takes the result of one read: `false` when it found the end of the
    /// stream (copying stops), `true` when the `bytes_read` bytes are to be
    /// forwarded, which are then counted.
    pub fn on_read(&mut self, bytes_read: usize) -> (forward: bool)
        requires
            old(self).copied() + bytes_read <= u64::MAX,
        ensures
            forward == (bytes_read > 0),
            final(self).copied() == old(self).copied() + bytes_read,
    {
        if bytes_read == 0 {
            false
        } else {
            self.total = self.total + bytes_read as u64;
            true
        }
    }

    /// Bytes copied so far.
    pub fn total(&self) -> (t: u64)
        ensures
            t == self.copied(),
    {
        self.total
    }
}

/// Whether a connection silent for `elapsed_nanos` has passed its idle
/// limit of `idle_timeout_nanos`.
pub fn idle_expired(elapsed_nanos: u128, idle_timeout_nanos: u128) -> (b: bool)
    ensures
        b == (elapsed_nanos > idle_timeout_nanos),
{
    elapsed_nanos > idle_timeout_nanos
}

/// How asking the pool for an upstream connection ended.
#[derive(Debug)]
pub enum UpstreamOutcome {
    /// A connection was handed out.
    Connected,
    /// The pool failed with the error described by the text.
    Failed(String),
    /// No connection came within the connect timeout.
    TimedOut,
}

/// What the proxy does once the upstream connection was asked for.
#[derive(Debug)]
pub enum ConnectVerdict {
    /// Relay the traffic.
    Relay,
    /// Tell the client `notice` and end the session as not connected.
    NotConnected { notice: String },
    /// End the session as timed out, with `message`.
    TimedOut { message: String },
}

/// Decides how a session goes on after asking for an upstream connection.
pub fn connect_verdict(o: &UpstreamOutcome) -> (v: ConnectVerdict)
    ensures
        o is Connected ==> v is Relay,
        o matches UpstreamOutcome::Failed(e) ==> (v matches ConnectVerdict::NotConnected { notice }
            && notice@ == "Failed to connecto to upstream: "@ + e@),
        o is TimedOut ==> (v matches ConnectVerdict::TimedOut { message } && message@
            == "upstream connection timeout"@),
{
    match o {
        UpstreamOutcome::Connected => ConnectVerdict::Relay,
        UpstreamOutcome::Failed(e) => {
            let mut out = chars_of("Failed to connecto to upstream: ");
            push_str(&mut out, e.as_str());
            ConnectVerdict::NotConnected { notice: string_from_chars(out.as_slice()) }
        },
        UpstreamOutcome::TimedOut => ConnectVerdict::TimedOut {
            message: "upstream connection timeout".to_owned(),
        },
    }
}

/// How relaying the traffic ended.
#[derive(Debug, Clone, Copy)]
pub enum TransferOutcome {
    /// Both directions reached their end; bytes sent up and down.
    Done(u64, u64),
    /// Copying failed with an I/O error.
    Failed,
    /// The relay passed the idle limit.
    IdleTimeout,
}

/// What a session reports once relaying ended.
#[derive(Debug)]
pub enum SessionResult {
    /// Bytes sent up to the server and down to the client.
    Complete(u64, u64),
    /// The copying error is reported as it is.
    CopyError,
    /// The session timed out with `message`.
    TimedOut { message: String },
}

/// Decides what a session reports after relaying.
pub fn session_result(t: TransferOutcome) -> (r: SessionResult)
    ensures
        t matches TransferOutcome::Done(up, down) ==> (r matches SessionResult::Complete(u, d)
            && u == up && d == down),
        t is Failed ==> r is CopyError,
        t is IdleTimeout ==> (r matches SessionResult::TimedOut { message } && message@
            == "idle timeout"@),
{
    match t {
        TransferOutcome::Done(up, down) => SessionResult::Complete(up, down),
        TransferOutcome::Failed => SessionResult::CopyError,
        TransferOutcome::IdleTimeout => SessionResult::TimedOut {
            message: "idle timeout".to_owned(),
        },
    }
}

} // verus!

//! Connection and traffic counters of the echo server.
use vstd::prelude::*;

verus! {

/// A copy of the counters taken at one moment.
#[derive(Debug, Clone, Copy, PartialEq, Eq)]
pub struct MetricsSnapshot {
    pub active_connections: usize,
    pub total_connections: usize,
    pub bytes_received: usize,
    pub bytes_sent: usize,
}

/// Live counters: connections open now, connections ever opened, and the
/// bytes received and sent over all of them.
pub struct Metrics {
    active_connections: usize,
    total_connections: usize,
    bytes_received: usize,
    bytes_sent: usize,
}

impl View for Metrics {
    type V = MetricsSnapshot;

    closed spec fn view(&self) -> MetricsSnapshot {
        MetricsSnapshot {
            active_connections: self.active_connections,
            total_connections: self.total_connections,
            bytes_received: self.bytes_received,
            bytes_sent: self.bytes_sent,
        }
    }
}

/// The counters of a fresh server.
pub open spec fn zero_counters() -> MetricsSnapshot {
    MetricsSnapshot { active_connections: 0, total_connections: 0, bytes_received: 0, bytes_sent: 0 }
}

/// The counters after a connection opened.
pub open spec fn opened(s: MetricsSnapshot) -> MetricsSnapshot {
    MetricsSnapshot {
        active_connections: (s.active_connections + 1) as usize,
        total_connections: (s.total_connections + 1) as usize,
        ..s
    }
}

/// The counters after a connection closed.
pub open spec fn closed(s: MetricsSnapshot) -> MetricsSnapshot {
    MetricsSnapshot { active_connections: (s.active_connections - 1) as usize, ..s }
}

/// The counters after `bytes` more were received.
pub open spec fn received(s: MetricsSnapshot, bytes: usize) -> MetricsSnapshot {
    MetricsSnapshot { bytes_received: (s.bytes_received + bytes) as usize, ..s }
}

/// The counters after `bytes` more were sent.
pub open spec fn sent(s: MetricsSnapshot, bytes: usize) -> MetricsSnapshot {
    MetricsSnapshot { bytes_sent: (s.bytes_sent + bytes) as usize, ..s }
}

/// No more connections are open than were ever opened.
pub open spec fn consistent(s: MetricsSnapshot) -> bool {
    s.active_connections <= s.total_connections
}

impl Metrics {
    #[verifier::type_invariant]
    spec fn inv(self) -> bool {
        self.active_connections <= self.total_connections
    }

    /// Counters that are all zero.
    pub fn new() -> (m: Self)
        ensures
            m@ == zero_counters(),
            consistent(m@),
    {
        Metrics { active_connections: 0, total_connections: 0, bytes_received: 0, bytes_sent: 0 }
    }

    /// Counts a new connection; returns the active and total connections
    /// including it.
    pub fn connection_started(&mut self) -> (r: (usize, usize))
        requires
            old(self)@.total_connections < usize::MAX,
        ensures
            final(self)@ == opened(old(self)@),
            final(self)@ == apply(old(self)@, MetricsOp::Start),
            r == (final(self)@.active_connections, final(self)@.total_connections),
            consistent(final(self)@),
    {
        proof {
            use_type_invariant(&*self);
        }
        self.total_connections = self.total_connections + 1;
        self.active_connections = self.active_connections + 1;
        (self.active_connections, self.total_connections)
    }

    /// Counts a closed connection; returns the active connections left and
    /// the total connections.
    pub fn connection_ended(&mut self) -> (r: (usize, usize))
        requires
            old(self)@.active_connections > 0,
        ensures
            final(self)@ == closed(old(self)@),
            final(self)@ == apply(old(self)@, MetricsOp::End),
            r == (final(self)@.active_connections, final(self)@.total_connections),
            consistent(final(self)@),
    {
        proof {
            use_type_invariant(&*self);
        }
        self.active_connections = self.active_connections - 1;
        (self.active_connections, self.total_connections)
    }

    /// Adds `bytes` to the received bytes; returns the new count.
    pub fn record_bytes_received(&mut self, bytes: usize) -> (r: usize)
        requires
            old(self)@.bytes_received + bytes <= usize::MAX,
        ensures
            final(self)@ == received(old(self)@, bytes),
            final(self)@ == apply(old(self)@, MetricsOp::Received(bytes)),
            r == final(self)@.bytes_received,
            consistent(final(self)@),
    {
        proof {
            use_type_invariant(&*self);
        }
        self.bytes_received = self.bytes_received + bytes;
        self.bytes_received
    }

    /// Adds `bytes` to the sent bytes; returns the new count.
    pub fn record_bytes_sent(&mut self, bytes: usize) -> (r: usize)
        requires
            old(self)@.bytes_sent + bytes <= usize::MAX,
        ensures
            final(self)@ == sent(old(self)@, bytes),
            final(self)@ == apply(old(self)@, MetricsOp::Sent(bytes)),
            r == final(self)@.bytes_sent,
            consistent(final(self)@),
    {
        proof {
            use_type_invariant(&*self);
        }
        self.bytes_sent = self.bytes_sent + bytes;
        self.bytes_sent
    }

    /// Connections open now.
    pub fn active_connections(&self) -> (r: usize)
        ensures
            r == self@.active_connections,
    {
        self.active_connections
    }

    /// Connections ever opened.
    pub fn total_connections(&self) -> (r: usize)
        ensures
            r == self@.total_connections,
    {
        self.total_connections
    }

    /// Bytes received so far.
    pub fn bytes_received(&self) -> (r: usize)
        ensures
            r == self@.bytes_received,
    {
        self.bytes_received
    }

    /// Bytes sent so far.
    pub fn bytes_sent(&self) -> (r: usize)
        ensures
            r == self@.bytes_sent,
    {
        self.bytes_sent
    }

    /// The current counters.
    pub fn snapshot(&self) -> (s: MetricsSnapshot)
        ensures
            s == self@,
            consistent(s),
    {
        proof {
            use_type_invariant(self);
        }
        MetricsSnapshot {
            active_connections: self.active_connections(),
            total_connections: self.total_connections(),
            bytes_received: self.bytes_received(),
            bytes_sent: self.bytes_sent(),
        }
    }
}

/// A connection that opens and then closes leaves the active count as it
/// was and the total one higher.
pub proof fn law_open_then_close(s: MetricsSnapshot)
    requires
        consistent(s),
        s.total_connections < usize::MAX,
    ensures
        closed(opened(s)).active_connections == s.active_connections,
        closed(opened(s)).total_connections == s.total_connections + 1,
        closed(opened(s)).bytes_received == s.bytes_received,
        closed(opened(s)).bytes_sent == s.bytes_sent,
{
}

/// Opening and closing connections never touches the byte counters, and
/// counting bytes never touches the connection counters.
pub proof fn law_counters_independent(s: MetricsSnapshot, n: usize)
    ensures
        opened(s).bytes_received == s.bytes_received && opened(s).bytes_sent == s.bytes_sent,
        closed(s).bytes_received == s.bytes_received && closed(s).bytes_sent == s.bytes_sent,
        received(s, n).active_connections == s.active_connections,
        received(s, n).total_connections == s.total_connections,
        received(s, n).bytes_sent == s.bytes_sent,
        sent(s, n).active_connections == s.active_connections,
        sent(s, n).total_connections == s.total_connections,
        sent(s, n).bytes_received == s.bytes_received,
{
}

/// Every operation keeps the active connections at most the total ones.
pub proof fn law_consistency_kept(s: MetricsSnapshot, n: usize)
    requires
        consistent(s),
    ensures
        s.total_connections < usize::MAX ==> consistent(opened(s)),
        s.active_connections > 0 ==> consistent(closed(s)),
        consistent(received(s, n)),
        consistent(sent(s, n)),
        consistent(zero_counters()),
{
}

/// One operation on the counters.
pub enum MetricsOp {
    /// `connection_started`.
    Start,
    /// `connection_ended`.
    End,
    /// `record_bytes_received` with the given amount.
    Received(usize),
    /// `record_bytes_sent` with the given amount.
    Sent(usize),
}

/// The counters after one operation, as the methods' contracts state it.
pub open spec fn apply(s: MetricsSnapshot, op: MetricsOp) -> MetricsSnapshot {
    match op {
        MetricsOp::Start => opened(s),
        MetricsOp::End => closed(s),
        MetricsOp::Received(n) => received(s, n),
        MetricsOp::Sent(n) => sent(s, n),
    }
}

/// Whether an operation may run on counters `s`: what its method requires.
pub open spec fn allowed(s: MetricsSnapshot, op: MetricsOp) -> bool {
    match op {
        MetricsOp::Start => s.total_connections < usize::MAX,
        MetricsOp::End => s.active_connections > 0,
        MetricsOp::Received(n) => s.bytes_received + n <= usize::MAX,
        MetricsOp::Sent(n) => s.bytes_sent + n <= usize::MAX,
    }
}

/// The counters after a series of operations, first to last.
pub open spec fn run(s: MetricsSnapshot, ops: Seq<MetricsOp>) -> MetricsSnapshot
    decreases ops.len(),
{
    if ops.len() == 0 {
        s
    } else {
        apply(run(s, ops.drop_last()), ops.last())
    }
}

/// Every operation of the series is allowed where it runs.
pub open spec fn runnable(s: MetricsSnapshot, ops: Seq<MetricsOp>) -> bool
    decreases ops.len(),
{
    ops.len() == 0 || (runnable(s, ops.drop_last()) && allowed(run(s, ops.drop_last()), ops.last()))
}

/// How many connections the series opens.
pub open spec fn starts(ops: Seq<MetricsOp>) -> nat
    decreases ops.len(),
{
    if ops.len() == 0 {
        0
    } else {
        starts(ops.drop_last()) + if ops.last() is Start {
            1nat
        } else {
            0nat
        }
    }
}

/// How many connections the series closes.
pub open spec fn ends(ops: Seq<MetricsOp>) -> nat
    decreases ops.len(),
{
    if ops.len() == 0 {
        0
    } else {
        ends(ops.drop_last()) + if ops.last() is End {
            1nat
        } else {
            0nat
        }
    }
}

/// The amounts the series records as received, added up.
pub open spec fn sum_received(ops: Seq<MetricsOp>) -> nat
    decreases ops.len(),
{
    if ops.len() == 0 {
        0
    } else {
        sum_received(ops.drop_last()) + match ops.last() {
            MetricsOp::Received(n) => n as nat,
            _ => 0nat,
        }
    }
}

/// The amounts the series records as sent, added up.
pub open spec fn sum_sent(ops: Seq<MetricsOp>) -> nat
    decreases ops.len(),
{
    if ops.len() == 0 {
        0
    } else {
        sum_sent(ops.drop_last()) + match ops.last() {
            MetricsOp::Sent(n) => n as nat,
            _ => 0nat,
        }
    }
}

/// From fresh counters, after any series of allowed operations: the active
/// connections are the starts minus the ends (never more ends than
/// starts), the total is the number of starts, and the byte counters are
/// the sums of the amounts recorded.
pub proof fn law_counts_from_new(ops: Seq<MetricsOp>)
    requires
        runnable(zero_counters(), ops),
    ensures
        ends(ops) <= starts(ops),
        run(zero_counters(), ops).active_connections == starts(ops) - ends(ops),
        run(zero_counters(), ops).total_connections == starts(ops),
        run(zero_counters(), ops).bytes_received == sum_received(ops),
        run(zero_counters(), ops).bytes_sent == sum_sent(ops),
        consistent(run(zero_counters(), ops)),
    decreases ops.len(),
{
    if ops.len() > 0 {
        law_counts_from_new(ops.drop_last());
    }
}

/// The total never falls: after any series of allowed operations it is at
/// least what it was, and it grows by exactly the number of starts.
pub proof fn law_total_never_falls(s: MetricsSnapshot, ops: Seq<MetricsOp>)
    requires
        consistent(s),
        runnable(s, ops),
    ensures
        run(s, ops).total_connections == s.total_connections + starts(ops),
        run(s, ops).total_connections >= s.total_connections,
        consistent(run(s, ops)),
    decreases ops.len(),
{
    if ops.len() > 0 {
        law_total_never_falls(s, ops.drop_last());
    }
}

} // verus!

//! Opening and checking connections to the proxy's upstream server.
use vstd::prelude::*;
use crate::text::{chars_of, push_str, string_from_chars};

verus! {

broadcast use vstd::string::group_string_axioms;

/// Opens connections to one upstream address and numbers them.
pub struct TcpConnectionManager {
    upstream_addr: String,
    created: usize,
}

impl TcpConnectionManager {
    #[verifier::type_invariant]
    spec fn inv(self) -> bool {
        self.created < usize::MAX
    }

    /// The address connections are opened to.
    pub closed spec fn upstream(self) -> Seq<char> {
        self.upstream_addr@
    }

    /// The count of connections recorded as created.
    pub closed spec fn created(self) -> usize {
        self.created
    }

    /// A manager for `upstream_addr` that has created nothing yet.
    pub fn new(upstream_addr: String) -> (m: Self)
        ensures
            m.upstream() == upstream_addr@,
            m.created() == 0,
    {
        TcpConnectionManager { upstream_addr, created: 0 }
    }

    /// The address connections are opened to.
    pub fn upstream_addr(&self) -> (s: &str)
        ensures
            s@ == self.upstream(),
    {
        self.upstream_addr.as_str()
    }

    /// The number reported for the connection about to be created: one
    /// more than the recorded count, which creating does not change.
    pub fn connection_number(&self) -> (n: usize)
        ensures
            n == self.created() + 1,
    {
        proof {
            use_type_invariant(self);
        }
        self.created + 1
    }
}

/// What a one-byte read without waiting found on an idle connection.
#[derive(Debug)]
pub enum ReadProbe {
    /// Nothing to read yet: the connection is open and quiet.
    WouldBlock,
    /// That many bytes were read (zero: the peer closed the connection).
    Read(usize),
    /// The read failed with an error described by the text.
    Failed(String),
}

/// The verdict on an idle connection: reusable, or why it is not.
pub open spec fn recycle_outcome(probe: ReadProbe) -> Result<(), Seq<char>> {
    match probe {
        ReadProbe::WouldBlock => Ok(()),
        ReadProbe::Read(n) => if n == 0 {
            Err("Connection closed"@)
        } else {
            Err("Unexpected data from upstream"@)
        },
        ReadProbe::Failed(e) => Err("Connection Error: "@ + e@),
    }
}

/// Decides whether an idle connection can be handed out again.
pub fn recycle_verdict(probe: &ReadProbe) -> (r: Result<(), String>)
    ensures
        r is Ok <==> recycle_outcome(*probe) is Ok,
        r matches Err(m) ==> recycle_outcome(*probe) == Err::<(), Seq<char>>(m@),
{
    match probe {
        ReadProbe::WouldBlock => Ok(()),
        ReadProbe::Read(n) => if *n == 0 {
            Err("Connection closed".to_owned())
        } else {
            Err("Unexpected data from upstream".to_owned())
        },
        ReadProbe::Failed(e) => {
            let mut out = chars_of("Connection Error: ");
            push_str(&mut out, e.as_str());
            Err(string_from_chars(out.as_slice()))
        },
    }
}

/// Only a quiet connection is reused.
pub proof fn law_only_quiet_connections_reused(probe: ReadProbe)
    ensures
        recycle_outcome(probe) is Ok <==> probe is WouldBlock,
{
}

} // verus!

//! A bounded stock of idle upstream connections that are handed out again
//! before new ones are opened.
use vstd::prelude::*;

verus! {

broadcast use vstd::string::group_string_axioms;

/// The idle connections after `conn` is given back to a pool holding
/// `idle` with room for `max_size`: kept if there is room, dropped if not.
pub open spec fn released<T>(idle: Seq<T>, max_size: usize, conn: T) -> Seq<T> {
    if idle.len() < max_size {
        idle.push(conn)
    } else {
        idle
    }
}

/// What a pool holding `idle` hands out, and what it keeps: the connection
/// given back last, or nothing when none is idle.
pub open spec fn reserved<T>(idle: Seq<T>) -> (Option<T>, Seq<T>) {
    if idle.len() > 0 {
        (Some(idle.last()), idle.drop_last())
    } else {
        (None, idle)
    }
}

/// Idle connections to one upstream address, at most `max_size` of them.
pub struct ConnectionPool<T> {
    upstream_addr: String,
    connections: Vec<T>,
    max_size: usize,
}

impl<T> ConnectionPool<T> {
    #[verifier::type_invariant]
    spec fn inv(self) -> bool {
        self.connections@.len() <= self.max_size
    }

    /// The idle connections, oldest first.
    pub closed spec fn idle(self) -> Seq<T> {
        self.connections@
    }

    /// The most idle connections the pool keeps.
    pub closed spec fn limit(self) -> usize {
        self.max_size
    }

    /// The address new connections are opened to.
    pub closed spec fn upstream(self) -> Seq<char> {
        self.upstream_addr@
    }

    /// An empty pool for `upstream_addr` keeping at most `max_size`
    /// connections.
    pub fn new(upstream_addr: &str, max_size: usize) -> (p: Self)
        ensures
            p.idle() == Seq::<T>::empty(),
            p.limit() == max_size,
            p.upstream() == upstream_addr@,
    {
        ConnectionPool {
            upstream_addr: upstream_addr.to_owned(),
            connections: Vec::with_capacity(max_size),
            max_size,
        }
    }

    /// Takes an idle connection, the one given back last; `None` when none
    /// is idle, and a new connection must be opened to the upstream.
    pub fn reserve(&mut self) -> (c: Option<T>)
        ensures
            (c, final(self).idle()) == reserved(old(self).idle()),
            final(self).limit() == old(self).limit(),
            final(self).upstream() == old(self).upstream(),
            final(self).idle().len() <= final(self).limit(),
    {
        proof {
            use_type_invariant(&*self);
        }
        let mut conns: Vec<T> = Vec::new();
        std::mem::swap(&mut conns, &mut self.connections);
        let c = conns.pop();
        self.connections = conns;
        c
    }

    /// Gives a connection back: it is kept if the pool has room, and
    /// dropped if not.
    pub fn release(&mut self, conn: T)
        ensures
            final(self).idle() == released(old(self).idle(), old(self).limit(), conn),
            final(self).limit() == old(self).limit(),
            final(self).upstream() == old(self).upstream(),
            final(self).idle().len() <= final(self).limit(),
    {
        proof {
            use_type_invariant(&*self);
        }
        if self.connections.len() < self.max_size {
            let mut conns: Vec<T> = Vec::new();
            std::mem::swap(&mut conns, &mut self.connections);
            conns.push(conn);
            self.connections = conns;
        }
    }

    /// The number of idle connections.
    pub fn size(&self) -> (n: usize)
        ensures
            n == self.idle().len(),
    {
        self.connections.len()
    }

    /// The address new connections are opened to.
    pub fn upstream_addr(&self) -> (s: &str)
        ensures
            s@ == self.upstream(),
    {
        self.upstream_addr.as_str()
    }
}

/// A connection given back to a pool with room is the next one handed out,
/// and the pool is then as before.
pub proof fn law_release_then_reserve<T>(idle: Seq<T>, max_size: usize, conn: T)
    requires
        idle.len() < max_size,
    ensures
        reserved(released(idle, max_size, conn)) == (Some(conn), idle),
{
    assert(idle.push(conn).drop_last() =~= idle);
}

/// A connection given back to a full pool is dropped: the pool is unchanged.
pub proof fn law_release_to_full_pool<T>(idle: Seq<T>, max_size: usize, conn: T)
    requires
        idle.len() >= max_size,
    ensures
        released(idle, max_size, conn) == idle,
{
}

/// Neither giving back nor handing out makes a pool exceed its limit.
pub proof fn law_limit_kept<T>(idle: Seq<T>, max_size: usize, conn: T)
    requires
        idle.len() <= max_size,
    ensures
        released(idle, max_size, conn).len() <= max_size,
        reserved(idle).1.len() <= max_size,
{
}

} // verus!

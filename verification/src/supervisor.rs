//! Process-wide accounting of active connections against a configured
//! maximum.

use vstd::prelude::*;

verus! {

/// Counts the connections currently being served and enforces a configured
/// ceiling on them.
///
/// `max_connections == 0` means the number of concurrent connections is
/// unbounded; otherwise at most `max_connections` connections may be active
/// at once.
pub struct ConnectionSupervisor {
    /// Configured ceiling; `0` disables the limit.
    pub max_connections: usize,
    /// Connections admitted and not yet released.
    pub active: usize,
}

impl ConnectionSupervisor {
    /// True when one more connection may be admitted.
    pub open spec fn spec_can_accept(self) -> bool {
        self.max_connections == 0 || self.active < self.max_connections
    }

    /// The supervisor after admitting one connection.
    pub open spec fn spec_accept(self) -> Self {
        ConnectionSupervisor { active: (self.active + 1) as usize, ..self }
    }

    /// The supervisor after releasing one connection.
    pub open spec fn spec_release(self) -> Self {
        ConnectionSupervisor { active: (self.active - 1) as usize, ..self }
    }

    /// A supervisor with no active connections.
    pub fn new(max_connections: usize) -> (s: Self)
        ensures
            s.max_connections == max_connections,
            s.active == 0,
    {
        ConnectionSupervisor { max_connections, active: 0 }
    }

    /// Accept one connection when the configured maximum allows it. When it
    /// does not, the count is left exactly as it was: an over-limit
    /// connection commits no resources.
    pub fn accept(&mut self) -> (accepted: bool)
        requires
            old(self).active < usize::MAX,
        ensures
            accepted == old(self).spec_can_accept(),
            accepted ==> *final(self) == old(self).spec_accept(),
            !accepted ==> *final(self) == *old(self),
    {
        let can_accept: bool = self.max_connections == 0 || self.active < self.max_connections;
        if can_accept {
            self.active = self.active + 1;
        }
        can_accept
    }

    /// Release one accepted connection.
    pub fn release(&mut self)
        requires
            old(self).active > 0,
        ensures
            *final(self) == old(self).spec_release(),
            final(self).active == old(self).active - 1,
            final(self).max_connections == old(self).max_connections,
    {
        self.active = self.active - 1;
    }
}

/// Law: one accepted connection and its one matching release restore the active count,
/// so a connection that is released exactly once leaves the supervisor as it
/// found it.
pub proof fn lemma_accept_release_balanced(s: ConnectionSupervisor)
    requires
        s.active < usize::MAX,
    ensures
        s.spec_accept().spec_release() == s,
{
}

} // verus!

//! The gateway's server state: the shared command specification, connection
//! accounting, and construction of one session handler per accepted
//! connection.

use crate::config::CmdConfig;
use crate::session::SessionHandler;
use crate::session::fresh_session;
use crate::supervisor::ConnectionSupervisor;
use vstd::prelude::*;

verus! {

/// Seconds a rejected authentication attempt is delayed.
pub const AUTH_REJECTION_SECS: u64 = 1;

/// Seconds the first authentication attempt of a connection is delayed.
pub const AUTH_REJECTION_INITIAL_SECS: u64 = 0;

/// The server: one command specification shared by every session, the
/// connection supervisor, and the optional cap on session duration.
pub struct TuiSshServer {
    /// The program every connection is forced into.
    pub tui_config: CmdConfig,
    /// Accounting and ceiling of active connections.
    pub supervisor: ConnectionSupervisor,
    /// Longest a session may live, in seconds; `None` means unbounded.
    pub max_session_duration: Option<u64>,
}

impl TuiSshServer {
    /// A server with no active connections.
    pub fn new(tui_config: CmdConfig, max_connections: usize, max_session_duration: Option<
        u64,
    >) -> (s: Self)
        ensures
            s.tui_config == tui_config,
            s.supervisor.max_connections == max_connections,
            s.supervisor.active == 0,
            s.max_session_duration == max_session_duration,
    {
        TuiSshServer {
            tui_config,
            supervisor: ConnectionSupervisor::new(max_connections),
            max_session_duration,
        }
    }

    /// Admit one inbound connection, or reject it before any protocol
    /// handshake.
    ///
    /// On admission the active count rises by one and a fresh session handler
    /// carrying a copy of the command specification is returned. Over the
    /// configured limit nothing is committed: the count is exactly as it was
    /// and no handler exists.
    pub fn new_client(&mut self, client_addr: String) -> (r: Option<SessionHandler>)
        requires
            old(self).supervisor.active < usize::MAX,
        ensures
            final(self).tui_config == old(self).tui_config,
            final(self).max_session_duration == old(self).max_session_duration,
            r is Some <==> old(self).supervisor.spec_can_accept(),
            r is Some ==> final(self).supervisor == old(self).supervisor.spec_accept(),
            r is None ==> *final(self) == *old(self),
            r matches Some(h) ==> h@ == fresh_session() && h.client_addr == client_addr
                && h.tui_config.command@ == old(self).tui_config.command@
                && h.tui_config.args.deep_view() == old(self).tui_config.args.deep_view()
                && h.tui_config.env.deep_view() == old(self).tui_config.env.deep_view(),
    {
        let accepted = self.supervisor.accept();
        if accepted {
            Some(SessionHandler::new(self.tui_config.duplicate(), client_addr))
        } else {
            None
        }
    }

    /// One admitted connection went away, on whatever exit path: release its
    /// slot. Must be called exactly once per admitted connection.
    pub fn connection_closed(&mut self)
        requires
            old(self).supervisor.active > 0,
        ensures
            final(self).supervisor == old(self).supervisor.spec_release(),
            final(self).tui_config == old(self).tui_config,
            final(self).max_session_duration == old(self).max_session_duration,
    {
        self.supervisor.release();
    }

    /// How many connections are active right now.
    pub fn active_connections(&self) -> (n: usize)
        ensures
            n == self.supervisor.active,
    {
        self.supervisor.active
    }
}

/// The transport-level inactivity timeout for a configured value: `0` means
/// no timeout at all.
pub fn inactivity_timeout(timeout_secs: u64) -> (r: Option<u64>)
    ensures
        timeout_secs > 0 ==> r == Some(timeout_secs),
        timeout_secs == 0 ==> r is None,
{
    if timeout_secs > 0 {
        Some(timeout_secs)
    } else {
        None
    }
}

/// The absolute deadline of a session started now, if a duration cap is
/// configured; saturates rather than wraps.
pub fn session_deadline(max_session_duration: Option<u64>, now_secs: u64) -> (r: Option<u64>)
    ensures
        max_session_duration is None ==> r is None,
        max_session_duration matches Some(d) ==> r == Some(
            if now_secs + d <= u64::MAX {
                (now_secs + d) as u64
            } else {
                u64::MAX
            },
        ),
{
    match max_session_duration {
        None => None,
        Some(d) => match now_secs.checked_add(d) {
            Some(t) => Some(t),
            None => Some(u64::MAX),
        },
    }
}

} // verus!

//! Per-connection protocol state machine: a default-deny, explicit-allow
//! arbiter over every SSH channel-level event.
//!
//! The SSH protocol engine delivers events; each method here decides the one
//! action the engine must carry out (answer a request, spawn the configured
//! program, forward bytes, disconnect) and updates the session state. No I/O
//! happens in this module.

use crate::config::CmdConfig;
use crate::dims::DEFAULT_PTY_COLS;
use crate::dims::DEFAULT_PTY_ROWS;
use crate::dims::MAX_PTY_COLS;
use crate::dims::MAX_PTY_ROWS;
use crate::dims::MIN_PTY_COLS;
use crate::dims::MIN_PTY_ROWS;
use crate::dims::spec_clamp_cols;
use crate::dims::spec_clamp_rows;
use vstd::prelude::*;

verus! {

/// Why the gateway tears a connection down.
#[derive(Clone, Copy, Debug, PartialEq, Eq)]
pub enum DisconnectReason {
    /// A shell was requested on a connection that already had one.
    DuplicateShellRequest,
    /// A command-execution request, treated as hostile probing.
    ExecNotPermitted,
    /// A subsystem request, treated as hostile probing.
    SubsystemNotPermitted,
}

impl DisconnectReason {
    /// The reason string sent to the peer with the disconnect.
    pub open spec fn spec_text(self) -> Seq<char> {
        match self {
            DisconnectReason::DuplicateShellRequest => "duplicate shell request"@,
            DisconnectReason::ExecNotPermitted => "exec not permitted"@,
            DisconnectReason::SubsystemNotPermitted => "subsystem not permitted"@,
        }
    }

    /// The reason string sent to the peer with the disconnect.
    pub fn text(&self) -> (r: &'static str)
        ensures
            r@ == self.spec_text(),
    {
        match self {
            DisconnectReason::DuplicateShellRequest => "duplicate shell request",
            DisconnectReason::ExecNotPermitted => "exec not permitted",
            DisconnectReason::SubsystemNotPermitted => "subsystem not permitted",
        }
    }
}

/// The one thing the protocol engine must do in answer to an event.
#[derive(Clone, Copy, Debug, PartialEq, Eq)]
pub enum Action {
    /// Accept the authentication attempt.
    AcceptAuth,
    /// Accept opening the session channel.
    AcceptChannelOpen,
    /// Refuse to open the requested channel.
    DenyChannelOpen,
    /// Answer the channel request with success.
    ChannelSuccess,
    /// Answer the channel request with failure.
    ChannelFailure,
    /// Spawn the configured program on a fresh PTY of the given size, then
    /// report the outcome back as a spawn event.
    SpawnShell {
        /// Columns for the new PTY.
        cols: u16,
        /// Rows for the new PTY.
        rows: u16,
    },
    /// Answer the shell request with success and start the one background
    /// task that forwards PTY output to the channel.
    StartForwarding,
    /// Write the event's payload to the PTY input of this channel.
    WritePty,
    /// Apply new dimensions to the PTY of this channel.
    ResizePty {
        /// Columns after clamping.
        cols: u16,
        /// Rows after clamping.
        rows: u16,
    },
    /// Answer the request negatively; the connection stays open.
    DenyRequest,
    /// No answer and no effect.
    Ignore,
    /// Terminate the whole connection, telling the peer why.
    Disconnect {
        /// The reason sent to the peer.
        reason: DisconnectReason,
    },
}

/// The channels for which a live PTY write end is held: the mathematical
/// content of the writer mapping.
pub open spec fn chan_set(channels: Seq<u64>) -> Set<u64> {
    Set::new(|c: u64| channels.contains(c))
}

/// Abstract state of one session: the last clamped terminal size, whether the
/// single shell of this connection was already requested, and which channels
/// hold a live PTY write end.
#[verifier::ext_equal]
pub struct SessionModel {
    /// Columns of the last clamped PTY allocation.
    pub cols: u16,
    /// Rows of the last clamped PTY allocation.
    pub rows: u16,
    /// Set once the first shell request arrives; never cleared.
    pub shell_requested: bool,
    /// Channels with a live PTY write end.
    pub writers: Set<u64>,
}

/// The state every session starts in: default 80×24 dimensions, no shell
/// requested, no writer held.
pub open spec fn fresh_session() -> SessionModel {
    SessionModel {
        cols: DEFAULT_PTY_COLS,
        rows: DEFAULT_PTY_ROWS,
        shell_requested: false,
        writers: Set::empty(),
    }
}

/// Per-connection handler: holds the shared command specification, the peer's
/// address for reporting, and the session state.
pub struct SessionHandler {
    /// The program this connection is forced into.
    pub tui_config: CmdConfig,
    /// Peer address, kept for reporting.
    pub client_addr: String,
    /// Columns of the last clamped PTY allocation.
    pub pty_cols: u16,
    /// Rows of the last clamped PTY allocation.
    pub pty_rows: u16,
    /// Whether the single shell of this connection was already requested.
    pub shell_requested: bool,
    /// Channels with a live PTY write end.
    pub writer_channels: Vec<u64>,
}

impl View for SessionHandler {
    type V = SessionModel;

    open spec fn view(&self) -> SessionModel {
        SessionModel {
            cols: self.pty_cols,
            rows: self.pty_rows,
            shell_requested: self.shell_requested,
            writers: chan_set(self.writer_channels@),
        }
    }
}

/// Pushing a channel onto the writer list adds exactly it to the writer set.
proof fn lemma_chan_set_push(channels: Seq<u64>, c: u64)
    ensures
        chan_set(channels.push(c)) == chan_set(channels).insert(c),
{
    assert forall|x: u64|
        chan_set(channels.push(c)).contains(x) == chan_set(channels).insert(c).contains(
            x,
        ) by {
        if channels.push(c).contains(x) {
            let i = choose|i: int| 0 <= i < channels.push(c).len() && channels.push(c)[i] == x;
            if i < channels.len() {
                assert(channels[i] == x);
            }
        }
        if channels.contains(x) {
            let i = choose|i: int| 0 <= i < channels.len() && channels[i] == x;
            assert(channels.push(c)[i] == x);
        }
        if x == c {
            assert(channels.push(c)[channels.len() as int] == x);
        }
    }
    assert(chan_set(channels.push(c)) =~= chan_set(channels).insert(c));
}

impl SessionHandler {
    /// A handler for one new connection, in the fresh session state.
    pub fn new(tui_config: CmdConfig, client_addr: String) -> (h: Self)
        ensures
            h@ == fresh_session(),
            h.tui_config == tui_config,
            h.client_addr == client_addr,
    {
        let h = SessionHandler {
            tui_config,
            client_addr,
            pty_cols: DEFAULT_PTY_COLS,
            pty_rows: DEFAULT_PTY_ROWS,
            shell_requested: false,
            writer_channels: Vec::new(),
        };
        proof {
            assert(h@.writers =~= Set::<u64>::empty());
            assert(h@ =~= fresh_session());
        }
        h
    }

    /// Requested dimensions forced into the supported range: columns into
    /// `[MIN_PTY_COLS, MAX_PTY_COLS]`, rows into `[MIN_PTY_ROWS,
    /// MAX_PTY_ROWS]`. Every PTY this gateway creates or resizes goes through
    /// this rule, whatever the request asked for.
    pub fn clamp_pty_size(col_width: u32, row_height: u32) -> (r: (u16, u16))
        ensures
            r.0 == spec_clamp_cols(col_width),
            r.1 == spec_clamp_rows(row_height),
            MIN_PTY_COLS <= r.0 <= MAX_PTY_COLS,
            MIN_PTY_ROWS <= r.1 <= MAX_PTY_ROWS,
    {
        let c16: u16 = (col_width % 0x10000) as u16;
        let r16: u16 = (row_height % 0x10000) as u16;
        let cols: u16 = if c16 < MIN_PTY_COLS {
            MIN_PTY_COLS
        } else if c16 > MAX_PTY_COLS {
            MAX_PTY_COLS
        } else {
            c16
        };
        let rows: u16 = if r16 < MIN_PTY_ROWS {
            MIN_PTY_ROWS
        } else if r16 > MAX_PTY_ROWS {
            MAX_PTY_ROWS
        } else {
            r16
        };
        (cols, rows)
    }

    /// Whether a live PTY write end is held for this channel.
    pub fn has_writer(&self, channel: u64) -> (r: bool)
        ensures
            r == self@.writers.contains(channel),
    {
        let mut i: usize = 0;
        while i < self.writer_channels.len()
            invariant
                i <= self.writer_channels@.len(),
                forall|j: int| 0 <= j < i ==> self.writer_channels@[j] != channel,
            decreases self.writer_channels@.len() - i,
        {
            if self.writer_channels[i] == channel {
                assert(self.writer_channels@.contains(channel));
                return true;
            }
            i = i + 1;
        }
        assert(!self.writer_channels@.contains(channel));
        false
    }

    /// Any authentication without credentials is accepted: this gateway does
    /// no user isolation, access control lives at the deployment layer.
    pub fn auth_none(&self, _user: &str) -> (r: Action)
        ensures
            r == Action::AcceptAuth,
    {
        Action::AcceptAuth
    }

    /// Any password is accepted.
    pub fn auth_password(&self, _user: &str) -> (r: Action)
        ensures
            r == Action::AcceptAuth,
    {
        Action::AcceptAuth
    }

    /// Any public key is accepted.
    pub fn auth_publickey(&self, _user: &str) -> (r: Action)
        ensures
            r == Action::AcceptAuth,
    {
        Action::AcceptAuth
    }

    /// A session channel is always accepted.
    pub fn channel_open_session(&self, _channel: u64) -> (r: Action)
        ensures
            r == Action::AcceptChannelOpen,
    {
        Action::AcceptChannelOpen
    }

    /// A PTY allocation records the clamped dimensions for the coming shell
    /// and succeeds; nothing is spawned yet.
    pub fn pty_request(&mut self, _channel: u64, col_width: u32, row_height: u32) -> (r: Action)
        ensures
            r == Action::ChannelSuccess,
            final(self)@ == (SessionModel {
                cols: spec_clamp_cols(col_width),
                rows: spec_clamp_rows(row_height),
                ..old(self)@
            }),
            final(self).tui_config == old(self).tui_config,
            final(self).client_addr == old(self).client_addr,
    {
        let (cols, rows) = Self::clamp_pty_size(col_width, row_height);
        self.pty_cols = cols;
        self.pty_rows = rows;
        Action::ChannelSuccess
    }

    /// The single state transition that may create a PTY session.
    ///
    /// The first shell request asks for the configured program to be spawned
    /// at the last clamped dimensions. Any later one is a policy violation:
    /// the connection is disconnected and nothing is spawned.
    pub fn shell_request(&mut self, _channel: u64) -> (r: Action)
        ensures
            old(self)@.shell_requested ==> r == (Action::Disconnect {
                reason: DisconnectReason::DuplicateShellRequest,
            }) && *final(self) == *old(self),
            !old(self)@.shell_requested ==> r == (Action::SpawnShell {
                cols: old(self)@.cols,
                rows: old(self)@.rows,
            }) && final(self)@ == (SessionModel { shell_requested: true, ..old(self)@ })
                && final(self).tui_config == old(self).tui_config
                && final(self).client_addr == old(self).client_addr,
    {
        if self.shell_requested {
            return Action::Disconnect { reason: DisconnectReason::DuplicateShellRequest };
        }
        self.shell_requested = true;
        Action::SpawnShell { cols: self.pty_cols, rows: self.pty_rows }
    }

    /// The spawn asked for by a shell request succeeded: keep the write end
    /// for this channel, answer with success and start the forwarding task.
    pub fn shell_spawned(&mut self, channel: u64) -> (r: Action)
        ensures
            r == Action::StartForwarding,
            final(self)@ == (SessionModel {
                writers: old(self)@.writers.insert(channel),
                ..old(self)@
            }),
            final(self).tui_config == old(self).tui_config,
            final(self).client_addr == old(self).client_addr,
    {
        proof {
            lemma_chan_set_push(self.writer_channels@, channel);
        }
        self.writer_channels.push(channel);
        Action::StartForwarding
    }

    /// The spawn asked for by a shell request failed: answer the request with
    /// failure and leave the channel (and the connection) open. The shell
    /// stays used up; no writer is kept and no forwarding task starts.
    pub fn shell_spawn_failed(&self, _channel: u64) -> (r: Action)
        ensures
            r == Action::ChannelFailure,
    {
        Action::ChannelFailure
    }

    /// Client bytes for a channel go to the PTY input exactly when a live
    /// write end is held for that channel; otherwise they are ignored.
    pub fn data(&self, channel: u64, _payload: &[u8]) -> (r: Action)
        ensures
            self@.writers.contains(channel) ==> r == Action::WritePty,
            !self@.writers.contains(channel) ==> r == Action::Ignore,
    {
        if self.has_writer(channel) {
            Action::WritePty
        } else {
            Action::Ignore
        }
    }

    /// A window change resizes the PTY of the channel — clamped, and only
    /// when a live write end is held. The recorded allocation size is not
    /// changed.
    pub fn window_change_request(&self, channel: u64, col_width: u32, row_height: u32) -> (r:
        Action)
        ensures
            self@.writers.contains(channel) ==> r == (Action::ResizePty {
                cols: spec_clamp_cols(col_width),
                rows: spec_clamp_rows(row_height),
            }),
            !self@.writers.contains(channel) ==> r == Action::Ignore,
    {
        if self.has_writer(channel) {
            let (cols, rows) = Self::clamp_pty_size(col_width, row_height);
            Action::ResizePty { cols, rows }
        } else {
            Action::Ignore
        }
    }

    /// Closing a channel releases its PTY write end: the channel leaves the
    /// writer set, so later data or resize events for it have no effect.
    pub fn channel_close(&mut self, channel: u64) -> (r: Action)
        ensures
            r == Action::Ignore,
            final(self)@ == (SessionModel {
                writers: old(self)@.writers.remove(channel),
                ..old(self)@
            }),
            final(self).tui_config == old(self).tui_config,
            final(self).client_addr == old(self).client_addr,
    {
        let mut kept: Vec<u64> = Vec::new();
        let mut i: usize = 0;
        while i < self.writer_channels.len()
            invariant
                i <= self.writer_channels@.len(),
                chan_set(kept@) == chan_set(self.writer_channels@.subrange(0, i as int)).remove(
                    channel,
                ),
                self.writer_channels == old(self).writer_channels,
            decreases self.writer_channels@.len() - i,
        {
            let ghost prefix = self.writer_channels@.subrange(0, i as int);
            let c = self.writer_channels[i];
            proof {
                assert(self.writer_channels@.subrange(0, i as int + 1) =~= prefix.push(c));
                lemma_chan_set_push(prefix, c);
            }
            if c != channel {
                proof {
                    lemma_chan_set_push(kept@, c);
                    assert(chan_set(kept@).insert(c) =~= chan_set(prefix.push(c)).remove(channel));
                }
                kept.push(c);
            } else {
                proof {
                    assert(chan_set(kept@) =~= chan_set(prefix.push(c)).remove(channel));
                }
            }
            i = i + 1;
        }
        proof {
            assert(self.writer_channels@.subrange(0, self.writer_channels@.len() as int)
                =~= self.writer_channels@);
        }
        self.writer_channels = kept;
        Action::Ignore
    }

    /// A client half-close is observed and nothing more: the PTY keeps
    /// running.
    pub fn channel_eof(&self, _channel: u64) -> (r: Action)
        ensures
            r == Action::Ignore,
    {
        Action::Ignore
    }

    /// A command-execution request is hostile probing, whatever its payload —
    /// empty and non-UTF-8 byte sequences included. The connection is
    /// terminated and nothing is ever spawned for it.
    pub fn exec_request(&self, _channel: u64, _payload: &[u8]) -> (r: Action)
        ensures
            r == (Action::Disconnect { reason: DisconnectReason::ExecNotPermitted }),
    {
        Action::Disconnect { reason: DisconnectReason::ExecNotPermitted }
    }

    /// A subsystem request is hostile probing, whatever the name. The
    /// connection is terminated and nothing is ever spawned for it.
    pub fn subsystem_request(&self, _channel: u64, _name: &str) -> (r: Action)
        ensures
            r == (Action::Disconnect { reason: DisconnectReason::SubsystemNotPermitted }),
    {
        Action::Disconnect { reason: DisconnectReason::SubsystemNotPermitted }
    }

    /// Environment requests are benign client defaults: ignored without any
    /// answer, for any name and value.
    pub fn env_request(&self, _channel: u64, _name: &str, _value: &str) -> (r: Action)
        ensures
            r == Action::Ignore,
    {
        Action::Ignore
    }

    /// X11 forwarding is a benign client default: ignored without any answer.
    pub fn x11_request(&self, _channel: u64) -> (r: Action)
        ensures
            r == Action::Ignore,
    {
        Action::Ignore
    }

    /// Signals can be legitimate; they are observed and ignored.
    pub fn signal(&self, _channel: u64) -> (r: Action)
        ensures
            r == Action::Ignore,
    {
        Action::Ignore
    }

    /// Remote port forwarding is denied for any address and port; the
    /// connection stays open.
    pub fn tcpip_forward(&self, _address: &str, _port: u32) -> (r: Action)
        ensures
            r == Action::DenyRequest,
    {
        Action::DenyRequest
    }

    /// Cancelling a remote port forward is denied like the forward itself.
    pub fn cancel_tcpip_forward(&self, _address: &str, _port: u32) -> (r: Action)
        ensures
            r == Action::DenyRequest,
    {
        Action::DenyRequest
    }

    /// A direct TCP/IP channel is refused for any target and originator; the
    /// connection stays open.
    pub fn channel_open_direct_tcpip(
        &self,
        _host_to_connect: &str,
        _port_to_connect: u32,
        _originator_address: &str,
        _originator_port: u32,
    ) -> (r: Action)
        ensures
            r == Action::DenyChannelOpen,
    {
        Action::DenyChannelOpen
    }

    /// A forwarded TCP/IP channel is refused for any target and originator;
    /// the connection stays open.
    pub fn channel_open_forwarded_tcpip(
        &self,
        _host_to_connect: &str,
        _port_to_connect: u32,
        _originator_address: &str,
        _originator_port: u32,
    ) -> (r: Action)
        ensures
            r == Action::DenyChannelOpen,
    {
        Action::DenyChannelOpen
    }

    /// A Unix-domain socket channel is refused for any path; the connection
    /// stays open.
    pub fn channel_open_direct_streamlocal(&self, _socket_path: &str) -> (r: Action)
        ensures
            r == Action::DenyChannelOpen,
    {
        Action::DenyChannelOpen
    }

    /// Unix-domain forwarding is denied for any path; the connection stays
    /// open.
    pub fn streamlocal_forward(&self, _socket_path: &str) -> (r: Action)
        ensures
            r == Action::DenyRequest,
    {
        Action::DenyRequest
    }

    /// Cancelling a Unix-domain forward is denied like the forward itself.
    pub fn cancel_streamlocal_forward(&self, _socket_path: &str) -> (r: Action)
        ensures
            r == Action::DenyRequest,
    {
        Action::DenyRequest
    }

    /// Agent forwarding is denied; the connection stays open.
    pub fn agent_request(&self, _channel: u64) -> (r: Action)
        ensures
            r == Action::DenyRequest,
    {
        Action::DenyRequest
    }
}

} // verus!

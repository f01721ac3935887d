//! The protocol events as data, the session transition and response
//! functions over them, and the single dispatcher that routes every event —
//! the whitelist is auditable here as one table rather than scattered logic.

use crate::dims::spec_clamp_cols;
use crate::dims::spec_clamp_rows;
use crate::session::Action;
use crate::session::DisconnectReason;
use crate::session::SessionHandler;
use crate::session::SessionModel;
use vstd::prelude::*;

verus! {

/// One channel-level event delivered by the SSH protocol engine, or the
/// reported outcome of a spawn this machine asked for.
pub enum Event {
    /// Authentication attempt without credentials.
    AuthNone {
        /// Presented user name.
        user: String,
    },
    /// Authentication attempt with a password.
    AuthPassword {
        /// Presented user name.
        user: String,
    },
    /// Authentication attempt with a public key.
    AuthPublickey {
        /// Presented user name.
        user: String,
    },
    /// The client asks to open a session channel.
    ChannelOpenSession {
        /// Channel identifier.
        channel: u64,
    },
    /// The client asks for a PTY of the given size.
    PtyRequest {
        /// Channel identifier.
        channel: u64,
        /// Requested column count.
        col_width: u32,
        /// Requested row count.
        row_height: u32,
    },
    /// The client asks for the interactive shell.
    ShellRequest {
        /// Channel identifier.
        channel: u64,
    },
    /// The spawn asked for by a shell request succeeded.
    ShellSpawned {
        /// Channel identifier.
        channel: u64,
    },
    /// The spawn asked for by a shell request failed.
    ShellSpawnFailed {
        /// Channel identifier.
        channel: u64,
    },
    /// Bytes from the client for a channel.
    DataReceived {
        /// Channel identifier.
        channel: u64,
        /// The bytes, handed through to the PTY when a writer is held.
        payload: Vec<u8>,
    },
    /// The client reports a new window size.
    WindowChange {
        /// Channel identifier.
        channel: u64,
        /// Requested column count.
        col_width: u32,
        /// Requested row count.
        row_height: u32,
    },
    /// The client closes a channel.
    ChannelClose {
        /// Channel identifier.
        channel: u64,
    },
    /// The client half-closes a channel.
    ChannelEof {
        /// Channel identifier.
        channel: u64,
    },
    /// The client asks to execute a command.
    ExecRequest {
        /// Channel identifier.
        channel: u64,
        /// The attempted command, arbitrary bytes.
        payload: Vec<u8>,
    },
    /// The client asks for a subsystem.
    SubsystemRequest {
        /// Channel identifier.
        channel: u64,
        /// The requested subsystem name.
        name: String,
    },
    /// The client sets an environment variable.
    EnvRequest {
        /// Channel identifier.
        channel: u64,
        /// Variable name.
        name: String,
        /// Variable value.
        value: String,
    },
    /// The client asks for X11 forwarding.
    X11Request {
        /// Channel identifier.
        channel: u64,
    },
    /// The client sends a signal.
    Signal {
        /// Channel identifier.
        channel: u64,
    },
    /// The client asks for remote port forwarding.
    TcpipForward {
        /// Requested bind address.
        address: String,
        /// Requested port.
        port: u32,
    },
    /// The client cancels a remote port forward.
    CancelTcpipForward {
        /// Bind address.
        address: String,
        /// Port.
        port: u32,
    },
    /// The client asks to open a direct TCP/IP channel.
    DirectTcpip {
        /// Target host.
        host_to_connect: String,
        /// Target port.
        port_to_connect: u32,
        /// Originator address.
        originator_address: String,
        /// Originator port.
        originator_port: u32,
    },
    /// The client asks to open a forwarded TCP/IP channel.
    ForwardedTcpip {
        /// Target host.
        host_to_connect: String,
        /// Target port.
        port_to_connect: u32,
        /// Originator address.
        originator_address: String,
        /// Originator port.
        originator_port: u32,
    },
    /// The client asks to open a Unix-domain socket channel.
    DirectStreamlocal {
        /// Target socket path.
        socket_path: String,
    },
    /// The client asks for Unix-domain forwarding.
    StreamlocalForward {
        /// Socket path.
        socket_path: String,
    },
    /// The client cancels a Unix-domain forward.
    CancelStreamlocalForward {
        /// Socket path.
        socket_path: String,
    },
    /// The client asks for agent forwarding.
    AgentRequest {
        /// Channel identifier.
        channel: u64,
    },
}

/// The session state after one event. Only four events ever change the state:
/// a PTY allocation, the first shell request, a reported spawn success, and a
/// channel close. Every other event — every denied one in particular —
/// leaves the session exactly as it was.
pub open spec fn spec_step(m: SessionModel, event: Event) -> SessionModel {
    match event {
        Event::PtyRequest { channel, col_width, row_height } => SessionModel {
            cols: spec_clamp_cols(col_width),
            rows: spec_clamp_rows(row_height),
            ..m
        },
        Event::ShellRequest { channel } => if m.shell_requested {
            m
        } else {
            SessionModel { shell_requested: true, ..m }
        },
        Event::ShellSpawned { channel } => SessionModel {
            writers: m.writers.insert(channel),
            ..m
        },
        Event::ChannelClose { channel } => SessionModel {
            writers: m.writers.remove(channel),
            ..m
        },
        _ => m,
    }
}

/// The action answering one event in a given session state.
pub open spec fn spec_response(m: SessionModel, event: Event) -> Action {
    match event {
        Event::AuthNone { .. } => Action::AcceptAuth,
        Event::AuthPassword { .. } => Action::AcceptAuth,
        Event::AuthPublickey { .. } => Action::AcceptAuth,
        Event::ChannelOpenSession { .. } => Action::AcceptChannelOpen,
        Event::PtyRequest { .. } => Action::ChannelSuccess,
        Event::ShellRequest { .. } => if m.shell_requested {
            Action::Disconnect { reason: DisconnectReason::DuplicateShellRequest }
        } else {
            Action::SpawnShell { cols: m.cols, rows: m.rows }
        },
        Event::ShellSpawned { .. } => Action::StartForwarding,
        Event::ShellSpawnFailed { .. } => Action::ChannelFailure,
        Event::DataReceived { channel, .. } => if m.writers.contains(channel) {
            Action::WritePty
        } else {
            Action::Ignore
        },
        Event::WindowChange { channel, col_width, row_height } => if m.writers.contains(channel) {
            Action::ResizePty {
                cols: spec_clamp_cols(col_width),
                rows: spec_clamp_rows(row_height),
            }
        } else {
            Action::Ignore
        },
        Event::ChannelClose { .. } => Action::Ignore,
        Event::ChannelEof { .. } => Action::Ignore,
        Event::ExecRequest { .. } => Action::Disconnect {
            reason: DisconnectReason::ExecNotPermitted,
        },
        Event::SubsystemRequest { .. } => Action::Disconnect {
            reason: DisconnectReason::SubsystemNotPermitted,
        },
        Event::EnvRequest { .. } => Action::Ignore,
        Event::X11Request { .. } => Action::Ignore,
        Event::Signal { .. } => Action::Ignore,
        Event::TcpipForward { .. } => Action::DenyRequest,
        Event::CancelTcpipForward { .. } => Action::DenyRequest,
        Event::DirectTcpip { .. } => Action::DenyChannelOpen,
        Event::ForwardedTcpip { .. } => Action::DenyChannelOpen,
        Event::DirectStreamlocal { .. } => Action::DenyChannelOpen,
        Event::StreamlocalForward { .. } => Action::DenyRequest,
        Event::CancelStreamlocalForward { .. } => Action::DenyRequest,
        Event::AgentRequest { .. } => Action::DenyRequest,
    }
}

/// The session state after a whole sequence of events, first to last.
pub open spec fn spec_run(m: SessionModel, events: Seq<Event>) -> SessionModel
    decreases events.len(),
{
    if events.len() == 0 {
        m
    } else {
        spec_run(spec_step(m, events[0]), events.subrange(1, events.len() as int))
    }
}

impl SessionHandler {
    /// Route one event to its handler. This is the whole protocol surface in
    /// one place: the state moves exactly as `spec_step` says and the engine
    /// is told exactly what `spec_response` says.
    pub fn handle_event(&mut self, event: Event) -> (r: Action)
        ensures
            final(self)@ == spec_step(old(self)@, event),
            r == spec_response(old(self)@, event),
            final(self).tui_config == old(self).tui_config,
            final(self).client_addr == old(self).client_addr,
    {
        match event {
            Event::AuthNone { user } => self.auth_none(user.as_str()),
            Event::AuthPassword { user } => self.auth_password(user.as_str()),
            Event::AuthPublickey { user } => self.auth_publickey(user.as_str()),
            Event::ChannelOpenSession { channel } => self.channel_open_session(channel),
            Event::PtyRequest { channel, col_width, row_height } => self.pty_request(
                channel,
                col_width,
                row_height,
            ),
            Event::ShellRequest { channel } => self.shell_request(channel),
            Event::ShellSpawned { channel } => self.shell_spawned(channel),
            Event::ShellSpawnFailed { channel } => self.shell_spawn_failed(channel),
            Event::DataReceived { channel, payload } => self.data(channel, payload.as_slice()),
            Event::WindowChange { channel, col_width, row_height } => self.window_change_request(
                channel,
                col_width,
                row_height,
            ),
            Event::ChannelClose { channel } => self.channel_close(channel),
            Event::ChannelEof { channel } => self.channel_eof(channel),
            Event::ExecRequest { channel, payload } => self.exec_request(
                channel,
                payload.as_slice(),
            ),
            Event::SubsystemRequest { channel, name } => self.subsystem_request(
                channel,
                name.as_str(),
            ),
            Event::EnvRequest { channel, name, value } => self.env_request(
                channel,
                name.as_str(),
                value.as_str(),
            ),
            Event::X11Request { channel } => self.x11_request(channel),
            Event::Signal { channel } => self.signal(channel),
            Event::TcpipForward { address, port } => self.tcpip_forward(address.as_str(), port),
            Event::CancelTcpipForward { address, port } => self.cancel_tcpip_forward(
                address.as_str(),
                port,
            ),
            Event::DirectTcpip {
                host_to_connect,
                port_to_connect,
                originator_address,
                originator_port,
            } => self.channel_open_direct_tcpip(
                host_to_connect.as_str(),
                port_to_connect,
                originator_address.as_str(),
                originator_port,
            ),
            Event::ForwardedTcpip {
                host_to_connect,
                port_to_connect,
                originator_address,
                originator_port,
            } => self.channel_open_forwarded_tcpip(
                host_to_connect.as_str(),
                port_to_connect,
                originator_address.as_str(),
                originator_port,
            ),
            Event::DirectStreamlocal { socket_path } => self.channel_open_direct_streamlocal(
                socket_path.as_str(),
            ),
            Event::StreamlocalForward { socket_path } => self.streamlocal_forward(
                socket_path.as_str(),
            ),
            Event::CancelStreamlocalForward { socket_path } => self.cancel_streamlocal_forward(
                socket_path.as_str(),
            ),
            Event::AgentRequest { channel } => self.agent_request(channel),
        }
    }
}

} // verus!

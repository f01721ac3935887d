//! The default-deny whitelist as data: every request kind is mapped to one
//! policy, and the dispatcher is proved to follow that table.

use crate::protocol::Event;
use crate::protocol::spec_response;
use crate::protocol::spec_step;
use crate::session::Action;
use crate::session::SessionModel;
use vstd::prelude::*;

verus! {

/// The kinds of protocol-level requests this gateway distinguishes.
#[derive(Clone, Copy, Debug, PartialEq, Eq)]
pub enum RequestKind {
    /// Any authentication attempt.
    Auth,
    /// Opening a session channel.
    SessionChannel,
    /// PTY allocation.
    PtyAllocate,
    /// The shell request and the reported outcome of its spawn.
    Shell,
    /// Client bytes for a channel.
    Data,
    /// A window-size change.
    WindowChange,
    /// Closing a channel.
    ChannelClose,
    /// Half-closing a channel.
    ChannelEof,
    /// Command execution.
    Exec,
    /// A subsystem.
    Subsystem,
    /// Setting an environment variable.
    Env,
    /// X11 forwarding.
    X11,
    /// A signal.
    Signal,
    /// Remote port forwarding, or cancelling it.
    TcpipForward,
    /// A direct or forwarded TCP/IP channel.
    TcpipChannel,
    /// Unix-domain forwarding, or cancelling it.
    StreamlocalForward,
    /// A Unix-domain socket channel.
    StreamlocalChannel,
    /// Agent forwarding.
    Agent,
}

/// What the gateway does with a kind of request.
#[derive(Clone, Copy, Debug, PartialEq, Eq)]
pub enum Policy {
    /// Permitted: handled by the session state machine.
    AllowAndHandle,
    /// Benign client default: ignored, no answer at all.
    DenySilent,
    /// Benign client default: answered negatively, connection kept open.
    DenyWithResponse,
    /// Hostile probing: the connection is terminated.
    DenyAndDisconnect,
}

/// The whitelist. Everything not explicitly allowed is denied, and only
/// command execution and subsystems are treated as hostile.
pub open spec fn policy_of(kind: RequestKind) -> Policy {
    match kind {
        RequestKind::Auth => Policy::AllowAndHandle,
        RequestKind::SessionChannel => Policy::AllowAndHandle,
        RequestKind::PtyAllocate => Policy::AllowAndHandle,
        RequestKind::Shell => Policy::AllowAndHandle,
        RequestKind::Data => Policy::AllowAndHandle,
        RequestKind::WindowChange => Policy::AllowAndHandle,
        RequestKind::ChannelClose => Policy::AllowAndHandle,
        RequestKind::ChannelEof => Policy::AllowAndHandle,
        RequestKind::Exec => Policy::DenyAndDisconnect,
        RequestKind::Subsystem => Policy::DenyAndDisconnect,
        RequestKind::Env => Policy::DenySilent,
        RequestKind::X11 => Policy::DenySilent,
        RequestKind::Signal => Policy::DenySilent,
        RequestKind::TcpipForward => Policy::DenyWithResponse,
        RequestKind::TcpipChannel => Policy::DenyWithResponse,
        RequestKind::StreamlocalForward => Policy::DenyWithResponse,
        RequestKind::StreamlocalChannel => Policy::DenyWithResponse,
        RequestKind::Agent => Policy::DenyWithResponse,
    }
}

/// The whitelist, executable: what `policy_of` says.
pub fn request_policy(kind: RequestKind) -> (p: Policy)
    ensures
        p == policy_of(kind),
{
    match kind {
        RequestKind::Auth => Policy::AllowAndHandle,
        RequestKind::SessionChannel => Policy::AllowAndHandle,
        RequestKind::PtyAllocate => Policy::AllowAndHandle,
        RequestKind::Shell => Policy::AllowAndHandle,
        RequestKind::Data => Policy::AllowAndHandle,
        RequestKind::WindowChange => Policy::AllowAndHandle,
        RequestKind::ChannelClose => Policy::AllowAndHandle,
        RequestKind::ChannelEof => Policy::AllowAndHandle,
        RequestKind::Exec => Policy::DenyAndDisconnect,
        RequestKind::Subsystem => Policy::DenyAndDisconnect,
        RequestKind::Env => Policy::DenySilent,
        RequestKind::X11 => Policy::DenySilent,
        RequestKind::Signal => Policy::DenySilent,
        RequestKind::TcpipForward => Policy::DenyWithResponse,
        RequestKind::TcpipChannel => Policy::DenyWithResponse,
        RequestKind::StreamlocalForward => Policy::DenyWithResponse,
        RequestKind::StreamlocalChannel => Policy::DenyWithResponse,
        RequestKind::Agent => Policy::DenyWithResponse,
    }
}

/// The kind of each event.
pub open spec fn kind_of(event: Event) -> RequestKind {
    match event {
        Event::AuthNone { .. } => RequestKind::Auth,
        Event::AuthPassword { .. } => RequestKind::Auth,
        Event::AuthPublickey { .. } => RequestKind::Auth,
        Event::ChannelOpenSession { .. } => RequestKind::SessionChannel,
        Event::PtyRequest { .. } => RequestKind::PtyAllocate,
        Event::ShellRequest { .. } => RequestKind::Shell,
        Event::ShellSpawned { .. } => RequestKind::Shell,
        Event::ShellSpawnFailed { .. } => RequestKind::Shell,
        Event::DataReceived { .. } => RequestKind::Data,
        Event::WindowChange { .. } => RequestKind::WindowChange,
        Event::ChannelClose { .. } => RequestKind::ChannelClose,
        Event::ChannelEof { .. } => RequestKind::ChannelEof,
        Event::ExecRequest { .. } => RequestKind::Exec,
        Event::SubsystemRequest { .. } => RequestKind::Subsystem,
        Event::EnvRequest { .. } => RequestKind::Env,
        Event::X11Request { .. } => RequestKind::X11,
        Event::Signal { .. } => RequestKind::Signal,
        Event::TcpipForward { .. } => RequestKind::TcpipForward,
        Event::CancelTcpipForward { .. } => RequestKind::TcpipForward,
        Event::DirectTcpip { .. } => RequestKind::TcpipChannel,
        Event::ForwardedTcpip { .. } => RequestKind::TcpipChannel,
        Event::DirectStreamlocal { .. } => RequestKind::StreamlocalChannel,
        Event::StreamlocalForward { .. } => RequestKind::StreamlocalForward,
        Event::CancelStreamlocalForward { .. } => RequestKind::StreamlocalForward,
        Event::AgentRequest { .. } => RequestKind::Agent,
    }
}

/// Law: the dispatcher follows the policy table, in every session state.
///
/// Silently denied kinds get no answer and leave the state untouched; kinds
/// denied with a response get exactly a negative answer — never a disconnect
/// — and leave the state untouched; hostile kinds always disconnect and
/// leave the state untouched. No denied kind of any flavour ever spawns a
/// process.
pub proof fn lemma_dispatch_follows_policy(m: SessionModel, event: Event)
    ensures
        policy_of(kind_of(event)) == Policy::DenySilent ==> spec_response(m, event)
            == Action::Ignore && spec_step(m, event) == m,
        policy_of(kind_of(event)) == Policy::DenyWithResponse ==> (spec_response(m, event)
            == Action::DenyRequest || spec_response(m, event) == Action::DenyChannelOpen)
            && spec_step(m, event) == m,
        policy_of(kind_of(event)) == Policy::DenyAndDisconnect ==> (spec_response(m, event) matches
            Action::Disconnect { reason }) && spec_step(m, event) == m,
        policy_of(kind_of(event)) != Policy::AllowAndHandle ==> !(spec_response(m, event) matches
            Action::SpawnShell { cols, rows }),
{
}

} // verus!

use tuihost::config::CmdConfig;
use tuihost::protocol::Event;
use tuihost::session::Action;
use tuihost::session::DisconnectReason;
use tuihost::session::SessionHandler;

fn test_handler() -> SessionHandler {
    let cfg = CmdConfig {
        command: "/usr/bin/true".to_string(),
        args: Vec::new(),
        env: Vec::new(),
    };
    SessionHandler::new(cfg, "192.0.2.33:40022".to_string())
}

#[test]
fn dispatched_exec_event_disconnects() {
    let mut h = test_handler();
    let r = h.handle_event(Event::ExecRequest { channel: 1, payload: b"rm -rf /".to_vec() });
    assert_eq!(r, Action::Disconnect { reason: DisconnectReason::ExecNotPermitted });
}

#[test]
fn dispatched_subsystem_event_disconnects() {
    let mut h = test_handler();
    let r = h.handle_event(Event::SubsystemRequest { channel: 1, name: "sftp".to_string() });
    assert_eq!(r, Action::Disconnect { reason: DisconnectReason::SubsystemNotPermitted });
}

#[test]
fn dispatched_benign_events_are_ignored() {
    let mut h = test_handler();
    let env = Event::EnvRequest {
        channel: 1,
        name: "LC_ALL".to_string(),
        value: "C".to_string(),
    };
    assert_eq!(h.handle_event(env), Action::Ignore);
    assert_eq!(h.handle_event(Event::X11Request { channel: 1 }), Action::Ignore);
    assert_eq!(h.handle_event(Event::Signal { channel: 1 }), Action::Ignore);
    assert_eq!(h.handle_event(Event::ChannelEof { channel: 1 }), Action::Ignore);
}

#[test]
fn dispatched_channel_opens_for_forwarding_are_refused() {
    let mut h = test_handler();
    let direct = Event::DirectTcpip {
        host_to_connect: "internal.example".to_string(),
        port_to_connect: 22,
        originator_address: "10.1.1.1".to_string(),
        originator_port: 55000,
    };
    assert_eq!(h.handle_event(direct), Action::DenyChannelOpen);
    let forwarded = Event::ForwardedTcpip {
        host_to_connect: "example.org".to_string(),
        port_to_connect: 8443,
        originator_address: "10.1.1.2".to_string(),
        originator_port: 55001,
    };
    assert_eq!(h.handle_event(forwarded), Action::DenyChannelOpen);
    let streamlocal = Event::DirectStreamlocal { socket_path: "/run/agent.sock".to_string() };
    assert_eq!(h.handle_event(streamlocal), Action::DenyChannelOpen);
}

#[test]
fn dispatched_duplicate_shell_disconnects() {
    let mut h = test_handler();
    assert_eq!(
        h.handle_event(Event::ShellRequest { channel: 2 }),
        Action::SpawnShell { cols: 80, rows: 24 }
    );
    assert_eq!(h.handle_event(Event::ShellSpawned { channel: 2 }), Action::StartForwarding);
    // Denied requests in between change nothing.
    assert_eq!(
        h.handle_event(Event::AgentRequest { channel: 2 }),
        Action::DenyRequest
    );
    assert_eq!(
        h.handle_event(Event::ShellRequest { channel: 2 }),
        Action::Disconnect { reason: DisconnectReason::DuplicateShellRequest }
    );
}

#[test]
fn dispatched_auth_and_channel_open_are_accepted() {
    let mut h = test_handler();
    assert_eq!(
        h.handle_event(Event::AuthNone { user: "guest".to_string() }),
        Action::AcceptAuth
    );
    assert_eq!(
        h.handle_event(Event::AuthPassword { user: "guest".to_string() }),
        Action::AcceptAuth
    );
    assert_eq!(
        h.handle_event(Event::AuthPublickey { user: "guest".to_string() }),
        Action::AcceptAuth
    );
    assert_eq!(
        h.handle_event(Event::ChannelOpenSession { channel: 1 }),
        Action::AcceptChannelOpen
    );
}

#[test]
fn dispatched_window_change_is_clamped() {
    let mut h = test_handler();
    assert_eq!(
        h.handle_event(Event::ShellRequest { channel: 1 }),
        Action::SpawnShell { cols: 80, rows: 24 }
    );
    assert_eq!(h.handle_event(Event::ShellSpawned { channel: 1 }), Action::StartForwarding);
    assert_eq!(
        h.handle_event(Event::WindowChange { channel: 1, col_width: 5000, row_height: 0 }),
        Action::ResizePty { cols: 500, rows: 5 }
    );
}

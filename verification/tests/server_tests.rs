use tuihost::config::CmdConfig;
use tuihost::policy::request_policy;
use tuihost::policy::Policy;
use tuihost::policy::RequestKind;
use tuihost::server::inactivity_timeout;
use tuihost::server::session_deadline;
use tuihost::server::TuiSshServer;
use tuihost::session::Action;
use tuihost::supervisor::ConnectionSupervisor;

fn test_config() -> CmdConfig {
    CmdConfig {
        command: "/usr/bin/true".to_string(),
        args: Vec::new(),
        env: Vec::new(),
    }
}

#[test]
fn server_starts_with_no_connections() {
    let server = TuiSshServer::new(test_config(), 4, None);
    assert_eq!(server.active_connections(), 0);
}

#[test]
fn connection_limit_is_enforced_before_any_handshake() {
    let mut server = TuiSshServer::new(test_config(), 2, None);
    let first = server.new_client("198.51.100.1:40001".to_string());
    assert!(first.is_some());
    let second = server.new_client("198.51.100.2:40002".to_string());
    assert!(second.is_some());
    assert_eq!(server.active_connections(), 2);
    // Over the limit: rejected, and the count is untouched.
    let third = server.new_client("198.51.100.3:40003".to_string());
    assert!(third.is_none());
    assert_eq!(server.active_connections(), 2);
    // One slot freed: the next connection is admitted again.
    server.connection_closed();
    assert_eq!(server.active_connections(), 1);
    let fourth = server.new_client("198.51.100.4:40004".to_string());
    assert!(fourth.is_some());
    assert_eq!(server.active_connections(), 2);
}

#[test]
fn zero_maximum_means_unlimited() {
    let mut server = TuiSshServer::new(test_config(), 0, None);
    for i in 0..50 {
        let client = server.new_client(format!("192.0.2.9:{}", 30000 + i));
        assert!(client.is_some());
    }
    assert_eq!(server.active_connections(), 50);
}

#[test]
fn new_client_hands_out_fresh_sessions_with_the_shared_config() {
    let mut server = TuiSshServer::new(test_config(), 0, Some(300));
    let mut handler = server.new_client("203.0.113.9:2222".to_string()).unwrap();
    assert_eq!(handler.client_addr, "203.0.113.9:2222");
    assert_eq!(handler.tui_config.command, "/usr/bin/true");
    assert_eq!(handler.shell_request(1), Action::SpawnShell { cols: 80, rows: 24 });
}

#[test]
fn scenario_spawn_failure_leaves_connection_and_count_intact() {
    // The configured program fails to spawn: the shell request is answered
    // with failure, no forwarding starts, and the active count is unaffected
    // by that failure.
    let mut server = TuiSshServer::new(test_config(), 10, None);
    let mut handler = server.new_client("203.0.113.5:12345".to_string()).unwrap();
    assert_eq!(server.active_connections(), 1);
    assert_eq!(handler.shell_request(1), Action::SpawnShell { cols: 80, rows: 24 });
    assert_eq!(handler.shell_spawn_failed(1), Action::ChannelFailure);
    // No writer was stored, so nothing is forwarded for this channel.
    assert_eq!(handler.data(1, b"x"), Action::Ignore);
    assert_eq!(server.active_connections(), 1);
    // The one release still happens when the connection finally goes away.
    server.connection_closed();
    assert_eq!(server.active_connections(), 0);
}

#[test]
fn supervisor_accepts_and_releases() {
    let mut sup = ConnectionSupervisor::new(1);
    assert!(sup.accept());
    assert_eq!(sup.active, 1);
    assert!(!sup.accept());
    assert_eq!(sup.active, 1);
    sup.release();
    assert_eq!(sup.active, 0);
    assert!(sup.accept());
}

#[test]
fn inactivity_timeout_zero_means_none() {
    assert_eq!(inactivity_timeout(0), None);
    assert_eq!(inactivity_timeout(300), Some(300));
}

#[test]
fn session_deadline_is_start_plus_cap() {
    assert_eq!(session_deadline(None, 1000), None);
    assert_eq!(session_deadline(Some(300), 1000), Some(1300));
    assert_eq!(session_deadline(Some(u64::MAX), 5), Some(u64::MAX));
}

#[test]
fn policy_table_matches_the_whitelist() {
    assert_eq!(request_policy(RequestKind::Shell), Policy::AllowAndHandle);
    assert_eq!(request_policy(RequestKind::PtyAllocate), Policy::AllowAndHandle);
    assert_eq!(request_policy(RequestKind::Data), Policy::AllowAndHandle);
    assert_eq!(request_policy(RequestKind::Exec), Policy::DenyAndDisconnect);
    assert_eq!(request_policy(RequestKind::Subsystem), Policy::DenyAndDisconnect);
    assert_eq!(request_policy(RequestKind::Env), Policy::DenySilent);
    assert_eq!(request_policy(RequestKind::X11), Policy::DenySilent);
    assert_eq!(request_policy(RequestKind::Signal), Policy::DenySilent);
    assert_eq!(request_policy(RequestKind::TcpipForward), Policy::DenyWithResponse);
    assert_eq!(request_policy(RequestKind::TcpipChannel), Policy::DenyWithResponse);
    assert_eq!(request_policy(RequestKind::StreamlocalForward), Policy::DenyWithResponse);
    assert_eq!(request_policy(RequestKind::StreamlocalChannel), Policy::DenyWithResponse);
    assert_eq!(request_policy(RequestKind::Agent), Policy::DenyWithResponse);
}

use tuihost::forward::after_send;
use tuihost::forward::forward_step;
use tuihost::forward::ForwardAction;
use tuihost::forward::ForwardControl;
use tuihost::forward::PtyReadResult;
use tuihost::forward::PTY_READ_CHUNK;
use tuihost::protocol::Event;
use tuihost::session::Action;
use tuihost::session::SessionHandler;
use tuihost::config::CmdConfig;

#[test]
fn eof_closes_the_channel_and_stops() {
    assert!(matches!(forward_step(PtyReadResult::Eof), ForwardAction::CloseAndStop));
}

#[test]
fn output_is_forwarded_byte_for_byte() {
    let action = forward_step(PtyReadResult::Output(b"prompt> ".to_vec()));
    match action {
        ForwardAction::Send(bytes) => assert_eq!(bytes, b"prompt> ".to_vec()),
        other => panic!("expected a send, got {:?}", other),
    }
}

#[test]
fn would_block_only_retries() {
    assert!(matches!(forward_step(PtyReadResult::WouldBlock), ForwardAction::Retry));
}

#[test]
fn read_errors_close_the_channel_and_stop() {
    assert!(matches!(forward_step(PtyReadResult::ReadError), ForwardAction::CloseAndStop));
}

#[test]
fn a_failed_send_ends_the_task() {
    assert_eq!(after_send(true), ForwardControl::Proceed);
    assert_eq!(after_send(false), ForwardControl::Stop);
}

#[test]
fn read_chunks_are_bounded() {
    assert_eq!(PTY_READ_CHUNK, 4096);
}

#[test]
fn handle_event_routes_like_the_individual_handlers() {
    let cfg = CmdConfig {
        command: "/usr/bin/true".to_string(),
        args: Vec::new(),
        env: Vec::new(),
    };
    let mut h = SessionHandler::new(cfg, "192.0.2.20:1022".to_string());
    assert_eq!(
        h.handle_event(Event::PtyRequest { channel: 1, col_width: 132, row_height: 43 }),
        Action::ChannelSuccess
    );
    assert_eq!(
        h.handle_event(Event::ShellRequest { channel: 1 }),
        Action::SpawnShell { cols: 132, rows: 43 }
    );
    assert_eq!(h.handle_event(Event::ShellSpawned { channel: 1 }), Action::StartForwarding);
    assert_eq!(
        h.handle_event(Event::DataReceived { channel: 1, payload: b"ls\n".to_vec() }),
        Action::WritePty
    );
    assert_eq!(
        h.handle_event(Event::TcpipForward { address: "0.0.0.0".to_string(), port: 8080 }),
        Action::DenyRequest
    );
    assert_eq!(h.handle_event(Event::ChannelClose { channel: 1 }), Action::Ignore);
    assert_eq!(
        h.handle_event(Event::DataReceived { channel: 1, payload: b"ls\n".to_vec() }),
        Action::Ignore
    );
}

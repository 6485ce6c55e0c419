use ssh_core::client::{check_port, ClientHandler, SSHClient};
use ssh_core::errors::SshError;
use ssh_core::events::{classify_connect, ConnectOutcome, ExecOutcome, OutputChunk, SendOutcome};
use ssh_core::session::{combine_chunks, SSHSession};

fn connected_client() -> SSHClient {
    let mut c = SSHClient::init();
    let ok = c.connect_ssh(
        "test-host".to_string(),
        22,
        "user".to_string(),
        "pass".to_string(),
        ConnectOutcome::Authenticated,
    );
    assert!(ok);
    c
}

#[test]
fn connect_success_then_disconnect() {
    let mut c = SSHClient::init();
    assert!(!c.is_connected());
    let ok = c.connect_ssh(
        "test-host".to_string(),
        22,
        "user".to_string(),
        "pass".to_string(),
        ConnectOutcome::Authenticated,
    );
    assert!(ok);
    assert!(c.is_connected());
    c.disconnect();
    assert!(!c.is_connected());
}

#[test]
fn connect_rejected_leaves_disconnected() {
    let mut c = SSHClient::init();
    assert!(!c.connect_ssh(
        "test-host".to_string(),
        22,
        "user".to_string(),
        "wrong".to_string(),
        ConnectOutcome::AuthRejected,
    ));
    assert!(!c.is_connected());
}

#[test]
fn connect_transport_failure_leaves_disconnected() {
    let mut c = SSHClient::init();
    assert!(!c.connect_ssh(
        "unreachable".to_string(),
        22,
        "user".to_string(),
        "pass".to_string(),
        ConnectOutcome::TransportFailed,
    ));
    assert!(!c.is_connected());
}

#[test]
fn connect_auth_protocol_error_leaves_disconnected() {
    let mut c = SSHClient::init();
    assert!(!c.connect_ssh(
        "test-host".to_string(),
        22,
        "user".to_string(),
        "pass".to_string(),
        ConnectOutcome::AuthProtocolError,
    ));
    assert!(!c.is_connected());
}

#[test]
fn connect_invalid_port_rejected_before_any_io() {
    // even an "authenticated" outcome cannot make an invalid port connect:
    // the port is rejected before the driver would touch the network
    let mut c = SSHClient::init();
    assert!(!c.connect_ssh(
        "test-host".to_string(),
        0,
        "user".to_string(),
        "pass".to_string(),
        ConnectOutcome::Authenticated,
    ));
    assert!(!c.is_connected());
    assert!(!c.connect_ssh(
        "test-host".to_string(),
        65536,
        "user".to_string(),
        "pass".to_string(),
        ConnectOutcome::Authenticated,
    ));
    assert!(!c.is_connected());
    assert!(!c.connect_ssh(
        "test-host".to_string(),
        -22,
        "user".to_string(),
        "pass".to_string(),
        ConnectOutcome::Authenticated,
    ));
    assert!(!c.is_connected());
}

#[test]
fn connect_port_bounds_accepted() {
    let mut c = SSHClient::init();
    assert!(c.connect_ssh(
        "test-host".to_string(),
        1,
        "user".to_string(),
        "pass".to_string(),
        ConnectOutcome::Authenticated,
    ));
    assert!(c.is_connected());
    let mut d = SSHClient::init();
    assert!(d.connect_ssh(
        "test-host".to_string(),
        65535,
        "user".to_string(),
        "pass".to_string(),
        ConnectOutcome::Authenticated,
    ));
    assert!(d.is_connected());
}

#[test]
fn check_port_validates_16_bit_range() {
    assert_eq!(check_port(22), Ok(22u16));
    assert_eq!(check_port(1), Ok(1u16));
    assert_eq!(check_port(65535), Ok(65535u16));
    assert_eq!(check_port(0), Err(SshError::InvalidAddress));
    assert_eq!(check_port(65536), Err(SshError::InvalidAddress));
    assert_eq!(check_port(-22), Err(SshError::InvalidAddress));
}

#[test]
fn reconnect_replaces_previous_session() {
    let mut c = connected_client();
    c.append_output("stale");
    // a new connect recreates the session: the old buffer is gone
    assert!(c.connect_ssh(
        "other-host".to_string(),
        2222,
        "user2".to_string(),
        "pass2".to_string(),
        ConnectOutcome::Authenticated,
    ));
    assert!(c.is_connected());
    assert_eq!(c.read_output(), "");
}

#[test]
fn execute_combines_streams_in_arrival_order() {
    let mut c = connected_client();
    let chunks = vec![
        OutputChunk::Stdout("a".to_string()),
        OutputChunk::Stderr("b".to_string()),
        OutputChunk::Stdout("c".to_string()),
    ];
    let out = c.execute_command("cmd".to_string(), ExecOutcome::Completed(chunks));
    assert_eq!(out, "abc");
    assert!(c.is_connected());
}

#[test]
fn execute_with_no_output_returns_empty() {
    let mut c = connected_client();
    let out = c.execute_command("true".to_string(), ExecOutcome::Completed(Vec::new()));
    assert_eq!(out, "");
    assert!(c.is_connected());
}

#[test]
fn execute_while_disconnected_fails_immediately() {
    let mut c = SSHClient::init();
    let out = c.execute_command("echo hi".to_string(), ExecOutcome::Completed(Vec::new()));
    assert_eq!(out, "not connected");
    assert!(!c.is_connected());
    // the answer does not depend on what a network exchange could have said
    let out2 = c.execute_command("echo hi".to_string(), ExecOutcome::ConnectionLost);
    assert_eq!(out2, "not connected");
}

#[test]
fn execute_channel_open_failure_keeps_session() {
    let mut c = connected_client();
    let out = c.execute_command("cmd".to_string(), ExecOutcome::ChannelOpenFailed);
    assert_eq!(out, "channel error: the channel could not be opened");
    assert!(c.is_connected());
}

#[test]
fn execute_dispatch_failure_keeps_session() {
    let mut c = connected_client();
    let out = c.execute_command("cmd".to_string(), ExecOutcome::DispatchFailed);
    assert_eq!(out, "exec error: the command could not be dispatched");
    assert!(c.is_connected());
}

#[test]
fn execute_fatal_transport_failure_disconnects() {
    let mut c = connected_client();
    let out = c.execute_command("cmd".to_string(), ExecOutcome::ConnectionLost);
    assert_eq!(out, "transport error: the connection failed or was lost");
    assert!(!c.is_connected());
}

#[test]
fn read_output_drains_once() {
    let mut c = connected_client();
    assert!(c.send_text("ls\n".to_string(), SendOutcome::Sent));
    c.append_output("file1\nfile2\n");
    assert_eq!(c.read_output(), "file1\nfile2\n");
    // nothing arrived in between: the second read is empty
    assert_eq!(c.read_output(), "");
}

#[test]
fn read_output_appends_are_lossless() {
    let mut c = connected_client();
    c.append_output("a");
    c.append_output("b");
    c.append_output("c");
    assert_eq!(c.read_output(), "abc");
}

#[test]
fn read_output_while_disconnected_is_empty() {
    let mut c = SSHClient::init();
    assert_eq!(c.read_output(), "");
    c.append_output("dropped");
    assert_eq!(c.read_output(), "");
}

#[test]
fn send_text_while_disconnected_fails() {
    let mut c = SSHClient::init();
    assert!(!c.send_text("ls\n".to_string(), SendOutcome::Sent));
}

#[test]
fn send_text_write_failure_keeps_session() {
    let mut c = connected_client();
    assert!(!c.send_text("ls\n".to_string(), SendOutcome::WriteFailed));
    assert!(c.is_connected());
}

#[test]
fn send_text_channel_open_failure_keeps_session() {
    let mut c = connected_client();
    assert!(!c.send_text("ls\n".to_string(), SendOutcome::ChannelOpenFailed));
    assert!(c.is_connected());
}

#[test]
fn send_text_fatal_transport_failure_disconnects() {
    let mut c = connected_client();
    assert!(!c.send_text("ls\n".to_string(), SendOutcome::ConnectionLost));
    assert!(!c.is_connected());
}

#[test]
fn disconnect_is_idempotent() {
    let mut c = connected_client();
    c.disconnect();
    assert!(!c.is_connected());
    c.disconnect();
    assert!(!c.is_connected());
    let mut fresh = SSHClient::init();
    fresh.disconnect();
    assert!(!fresh.is_connected());
}

#[test]
fn full_interactive_scenario() {
    let mut c = SSHClient::init();
    assert!(c.connect_ssh(
        "test-host".to_string(),
        22,
        "user".to_string(),
        "pass".to_string(),
        ConnectOutcome::Authenticated,
    ));
    let out = c.execute_command(
        "echo hi".to_string(),
        ExecOutcome::Completed(vec![OutputChunk::Stdout("hi\n".to_string())]),
    );
    assert!(out.contains("hi"));
    assert!(c.send_text("ls\n".to_string(), SendOutcome::Sent));
    // inbound data arrives on the shell channel after a delay
    c.append_output("Cargo.toml\nsrc\n");
    let listing = c.read_output();
    assert!(!listing.is_empty());
    c.disconnect();
    assert!(!c.is_connected());
}

#[test]
fn serialized_commands_each_get_their_own_output() {
    // the facade's exclusion lock serializes concurrent callers; in the
    // serialized order each command gets exactly its own output
    let mut c = connected_client();
    let out1 = c.execute_command(
        "first".to_string(),
        ExecOutcome::Completed(vec![OutputChunk::Stdout("one".to_string())]),
    );
    let out2 = c.execute_command(
        "second".to_string(),
        ExecOutcome::Completed(vec![OutputChunk::Stdout("two".to_string())]),
    );
    assert_eq!(out1, "one");
    assert_eq!(out2, "two");
    assert!(c.is_connected());
}

#[test]
fn combine_chunks_concatenates_exactly() {
    let chunks = vec![
        OutputChunk::Stdout("hello ".to_string()),
        OutputChunk::Stderr("warning\n".to_string()),
        OutputChunk::Stdout("world".to_string()),
    ];
    assert_eq!(combine_chunks(&chunks), "hello warning\nworld");
    let empty: Vec<OutputChunk> = Vec::new();
    assert_eq!(combine_chunks(&empty), "");
}

#[test]
fn session_executes_and_reports_errors() {
    let mut s = SSHSession::new();
    let ok = s.execute_command(
        "cmd".to_string(),
        ExecOutcome::Completed(vec![OutputChunk::Stdout("x".to_string())]),
    );
    assert_eq!(ok.unwrap(), "x");
    assert!(s.execute_command("cmd".to_string(), ExecOutcome::ChannelOpenFailed).is_err());
    assert!(s.execute_command("cmd".to_string(), ExecOutcome::DispatchFailed).is_err());
    assert!(s.execute_command("cmd".to_string(), ExecOutcome::ConnectionLost).is_err());
}

#[test]
fn session_shell_buffer_and_close() {
    let mut s = SSHSession::new();
    assert!(s.send_text("ls\n".to_string(), SendOutcome::Sent).is_ok());
    assert!(s.send_text("ls\n".to_string(), SendOutcome::WriteFailed).is_err());
    s.append_output("out");
    assert_eq!(s.read_output(), "out");
    assert_eq!(s.read_output(), "");
    s.close();
    // closing twice is a no-op, never an error
    s.close();
}

#[test]
fn client_handler_accepts_every_server_key() {
    let h = ClientHandler::new("pass".to_string());
    assert!(h.check_server_key());
    assert_eq!(h.password(), "pass");
}

#[test]
fn every_error_has_a_nonempty_message() {
    let all = [
        SshError::InvalidAddress,
        SshError::TransportError,
        SshError::AuthFailed,
        SshError::AuthError,
        SshError::ChannelError,
        SshError::ExecError,
        SshError::NotConnected,
        SshError::SendError,
    ];
    for e in all {
        assert!(!e.message().is_empty());
    }
    assert_eq!(SshError::NotConnected.message(), "not connected");
    assert_eq!(
        SshError::InvalidAddress.message(),
        "invalid address: port must be between 1 and 65535"
    );
}

#[test]
fn connect_outcomes_classify_to_their_errors() {
    assert_eq!(classify_connect(ConnectOutcome::Authenticated), None);
    assert_eq!(classify_connect(ConnectOutcome::TransportFailed), Some(SshError::TransportError));
    assert_eq!(classify_connect(ConnectOutcome::AuthRejected), Some(SshError::AuthFailed));
    assert_eq!(classify_connect(ConnectOutcome::AuthProtocolError), Some(SshError::AuthError));
}

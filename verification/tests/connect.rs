use std::io::{Error, ErrorKind};
use tcp_ipc::connect::{
    setup_failure, socket_setup, AttemptOutcome, ConnectAttempts, ConnectVerdict, SocketSetup,
    WaitLimit,
};
use tcp_ipc::protocol_example::ProtocolExample;
use tcp_ipc::tcp_ipc::ConnectErrors;

fn refused() -> Error {
    Error::new(ErrorKind::ConnectionRefused, "refused")
}

fn not_ready() -> Error {
    Error::new(ErrorKind::WouldBlock, "not ready")
}

#[test]
fn empty_socket_list_is_answered_as_empty() {
    assert!(matches!(ConnectAttempts::new().exhausted(), ConnectErrors::SocketListIsEmpty));
}

#[test]
fn client_proceeds_once_connected() {
    let mut attempts = ConnectAttempts::new();
    assert!(matches!(
        attempts.client_attempt(AttemptOutcome::Connected, WaitLimit::Unset),
        ConnectVerdict::Proceed
    ));
    assert!(matches!(
        attempts.client_attempt(AttemptOutcome::Connected, WaitLimit::Exceeded),
        ConnectVerdict::Proceed
    ));
    assert!(matches!(attempts.exhausted(), ConnectErrors::SocketListIsEmpty));
}

#[test]
fn client_keeps_the_last_failure_for_the_end_of_the_list() {
    let mut attempts = ConnectAttempts::new();
    assert!(matches!(
        attempts.client_attempt(AttemptOutcome::Failed(refused()), WaitLimit::Unset),
        ConnectVerdict::NextAddress
    ));
    let later = Error::new(ErrorKind::AddrNotAvailable, "later");
    assert!(matches!(
        attempts.client_attempt(AttemptOutcome::Failed(later), WaitLimit::Within),
        ConnectVerdict::NextAddress
    ));
    match attempts.exhausted() {
        ConnectErrors::ConnectionError(error) => assert_eq!(error.kind(), ErrorKind::AddrNotAvailable),
        other => panic!("{:?}", other),
    }
}

#[test]
fn client_waits_for_a_peer_that_is_not_ready_while_time_is_left() {
    let mut attempts = ConnectAttempts::new();
    assert!(matches!(
        attempts.client_attempt(AttemptOutcome::WouldBlock(not_ready()), WaitLimit::Within),
        ConnectVerdict::Retry
    ));
    assert!(matches!(attempts.exhausted(), ConnectErrors::SocketListIsEmpty));
}

#[test]
fn client_gives_up_when_the_wait_time_is_exceeded() {
    let mut attempts = ConnectAttempts::new();
    assert!(matches!(
        attempts.client_attempt(AttemptOutcome::WouldBlock(not_ready()), WaitLimit::Exceeded),
        ConnectVerdict::GiveUp(ConnectErrors::WaitTimeExceeded)
    ));
}

#[test]
fn client_without_wait_time_treats_not_ready_as_a_failure() {
    let mut attempts = ConnectAttempts::new();
    assert!(matches!(
        attempts.client_attempt(AttemptOutcome::WouldBlock(not_ready()), WaitLimit::Unset),
        ConnectVerdict::NextAddress
    ));
    match attempts.exhausted() {
        ConnectErrors::ConnectionError(error) => assert_eq!(error.kind(), ErrorKind::WouldBlock),
        other => panic!("{:?}", other),
    }
}

#[test]
fn server_asks_again_until_a_peer_comes() {
    let mut attempts = ConnectAttempts::new();
    for _ in 0..3 {
        assert!(matches!(
            attempts.server_attempt(AttemptOutcome::WouldBlock(not_ready())),
            ConnectVerdict::Retry
        ));
    }
    assert!(matches!(attempts.server_attempt(AttemptOutcome::Connected), ConnectVerdict::Proceed));
    assert!(matches!(attempts.exhausted(), ConnectErrors::SocketListIsEmpty));
}

#[test]
fn server_moves_on_after_a_failed_accept() {
    let mut attempts = ConnectAttempts::new();
    assert!(matches!(
        attempts.server_attempt(AttemptOutcome::Failed(refused())),
        ConnectVerdict::NextAddress
    ));
    match attempts.exhausted() {
        ConnectErrors::ConnectionError(error) => assert_eq!(error.kind(), ErrorKind::ConnectionRefused),
        other => panic!("{:?}", other),
    }
}

#[test]
fn socket_is_prepared_with_buffers_of_the_header_size() {
    assert_eq!(
        socket_setup::<ProtocolExample>(),
        vec![
            SocketSetup::Nodelay(true),
            SocketSetup::SendBufferSize(6),
            SocketSetup::ReceiveBufferSize(6),
            SocketSetup::Duplicate,
        ]
    );
}

#[test]
fn each_step_of_the_preparation_fails_with_its_own_error() {
    let error = || Error::new(ErrorKind::PermissionDenied, "denied");
    match setup_failure(SocketSetup::Nodelay(true), error()) {
        ConnectErrors::SetNodelayError(e) => assert_eq!(e.kind(), ErrorKind::PermissionDenied),
        other => panic!("{:?}", other),
    }
    assert!(matches!(
        setup_failure(SocketSetup::SendBufferSize(6), error()),
        ConnectErrors::SetSendBufferSizeError(_)
    ));
    assert!(matches!(
        setup_failure(SocketSetup::ReceiveBufferSize(6), error()),
        ConnectErrors::SetReceiveBufferSizeError(_)
    ));
    assert!(matches!(
        setup_failure(SocketSetup::Duplicate, error()),
        ConnectErrors::TryCloneError(_)
    ));
}

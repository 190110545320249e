//! How an endpoint comes about: the decisions of connecting, of accepting,
//! and of preparing the socket for the reader.

use vstd::prelude::*;
use crate::protocol::Protocol;
use crate::tcp_ipc::ConnectErrors;

verus! {

/// How one attempt to reach the peer at one address went.
#[derive(Debug)]
pub enum AttemptOutcome {
    /// The connection stands.
    Connected,
    /// The peer was not ready yet.
    WouldBlock(std::io::Error),
    /// The attempt failed for another reason.
    Failed(std::io::Error),
}

/// What to do after an attempt.
#[derive(Debug)]
pub enum ConnectVerdict {
    /// Go on with the connection made.
    Proceed,
    /// Try the same address again.
    Retry,
    /// Try the next address.
    NextAddress,
    /// Give up with this error.
    GiveUp(ConnectErrors),
}

/// Whether and how the time to wait for the peer is limited.
#[derive(Debug, Clone, Copy, PartialEq, Eq)]
pub enum WaitLimit {
    /// No time to wait is set: each address is tried once.
    Unset,
    /// The time set is not used up.
    Within,
    /// The time set is used up.
    Exceeded,
}

/// The course of the attempts over the addresses of a socket list. It keeps
/// the error that is answered when the addresses run out.
#[derive(Debug)]
pub struct ConnectAttempts {
    last_error: ConnectErrors,
}

impl View for ConnectAttempts {
    type V = ConnectErrors;

    closed spec fn view(&self) -> ConnectErrors {
        self.last_error
    }
}

impl ConnectAttempts {
    /// What a client does after an attempt on an address, and the error kept
    /// for the end of the list. A peer that is not ready is tried again while
    /// the time set is not used up; once it is, the client gives up with
    /// `WaitTimeExceeded`. With no time set, and after any other failure, the
    /// error is kept as `ConnectionError` and the next address is tried.
    pub open spec fn spec_client_attempt(
        last_error: ConnectErrors,
        outcome: AttemptOutcome,
        limit: WaitLimit,
    ) -> (ConnectErrors, ConnectVerdict) {
        match outcome {
            AttemptOutcome::Connected => (last_error, ConnectVerdict::Proceed),
            AttemptOutcome::WouldBlock(error) => match limit {
                WaitLimit::Unset => (
                    ConnectErrors::ConnectionError(error),
                    ConnectVerdict::NextAddress,
                ),
                WaitLimit::Within => (last_error, ConnectVerdict::Retry),
                WaitLimit::Exceeded => (
                    last_error,
                    ConnectVerdict::GiveUp(ConnectErrors::WaitTimeExceeded),
                ),
            },
            AttemptOutcome::Failed(error) => (
                ConnectErrors::ConnectionError(error),
                ConnectVerdict::NextAddress,
            ),
        }
    }

    /// What a server does after an attempt to accept on a bound address, and
    /// the error kept for the end of the list. While no peer has come, the
    /// server asks again, without limit; any other failure is kept as
    /// `ConnectionError` and the next address is tried.
    pub open spec fn spec_server_attempt(last_error: ConnectErrors, outcome: AttemptOutcome) -> (
        ConnectErrors,
        ConnectVerdict,
    ) {
        match outcome {
            AttemptOutcome::Connected => (last_error, ConnectVerdict::Proceed),
            AttemptOutcome::WouldBlock(_) => (last_error, ConnectVerdict::Retry),
            AttemptOutcome::Failed(error) => (
                ConnectErrors::ConnectionError(error),
                ConnectVerdict::NextAddress,
            ),
        }
    }

    /// The course before the first address: a list that holds no address is
    /// answered with `SocketListIsEmpty`.
    pub fn new() -> (attempts: Self)
        ensures
            attempts@ == ConnectErrors::SocketListIsEmpty,
    {
        ConnectAttempts { last_error: ConnectErrors::SocketListIsEmpty }
    }

    /// What a client does after an attempt on an address.
    pub fn client_attempt(&mut self, outcome: AttemptOutcome, limit: WaitLimit) -> (verdict:
        ConnectVerdict)
        ensures
            (final(self)@, verdict) == Self::spec_client_attempt(old(self)@, outcome, limit),
    {
        match outcome {
            AttemptOutcome::Connected => ConnectVerdict::Proceed,
            AttemptOutcome::WouldBlock(error) => match limit {
                WaitLimit::Unset => {
                    self.last_error = ConnectErrors::ConnectionError(error);
                    ConnectVerdict::NextAddress
                },
                WaitLimit::Within => ConnectVerdict::Retry,
                WaitLimit::Exceeded => ConnectVerdict::GiveUp(ConnectErrors::WaitTimeExceeded),
            },
            AttemptOutcome::Failed(error) => {
                self.last_error = ConnectErrors::ConnectionError(error);
                ConnectVerdict::NextAddress
            },
        }
    }

    /// What a server does after an attempt to accept on a bound address.
    pub fn server_attempt(&mut self, outcome: AttemptOutcome) -> (verdict: ConnectVerdict)
        ensures
            (final(self)@, verdict) == Self::spec_server_attempt(old(self)@, outcome),
    {
        match outcome {
            AttemptOutcome::Connected => ConnectVerdict::Proceed,
            AttemptOutcome::WouldBlock(_) => ConnectVerdict::Retry,
            AttemptOutcome::Failed(error) => {
                self.last_error = ConnectErrors::ConnectionError(error);
                ConnectVerdict::NextAddress
            },
        }
    }

    /// The answer when the addresses have run out: the error of the last
    /// address that failed, or `SocketListIsEmpty` if there was none.
    pub fn exhausted(self) -> (error: ConnectErrors)
        ensures
            error == self@,
    {
        self.last_error
    }
}

/// One step of preparing a connected socket for the reader.
#[derive(Debug, Clone, Copy, PartialEq, Eq)]
pub enum SocketSetup {
    /// Set `TCP_NODELAY` to this.
    Nodelay(bool),
    /// Set the size of the send buffer to this many bytes.
    SendBufferSize(usize),
    /// Set the size of the receive buffer to this many bytes.
    ReceiveBufferSize(usize),
    /// Duplicate the socket: the reader gets a handle of its own.
    Duplicate,
}

/// The steps that prepare a connected socket, in order: no delay, both
/// buffers of exactly the size of the protocol's header, and a second handle.
pub open spec fn spec_socket_setup<P: Protocol>() -> Seq<SocketSetup> {
    seq![
        SocketSetup::Nodelay(true),
        SocketSetup::SendBufferSize(P::header_len() as usize),
        SocketSetup::ReceiveBufferSize(P::header_len() as usize),
        SocketSetup::Duplicate,
    ]
}

/// The steps that prepare a connected socket, in order.
pub fn socket_setup<P: Protocol>() -> (steps: Vec<SocketSetup>)
    ensures
        steps@ == spec_socket_setup::<P>(),
{
    let header_size: usize = P::header_size();
    let mut steps: Vec<SocketSetup> = Vec::new();
    steps.push(SocketSetup::Nodelay(true));
    steps.push(SocketSetup::SendBufferSize(header_size));
    steps.push(SocketSetup::ReceiveBufferSize(header_size));
    steps.push(SocketSetup::Duplicate);
    assert(steps@ =~= spec_socket_setup::<P>());
    steps
}

/// The error with which connecting ends when a step of the preparation
/// fails: each step has its own.
pub fn setup_failure(step: SocketSetup, error: std::io::Error) -> (failure: ConnectErrors)
    ensures
        failure == match step {
            SocketSetup::Nodelay(_) => ConnectErrors::SetNodelayError(error),
            SocketSetup::SendBufferSize(_) => ConnectErrors::SetSendBufferSizeError(error),
            SocketSetup::ReceiveBufferSize(_) => ConnectErrors::SetReceiveBufferSizeError(error),
            SocketSetup::Duplicate => ConnectErrors::TryCloneError(error),
        },
{
    match step {
        SocketSetup::Nodelay(_) => ConnectErrors::SetNodelayError(error),
        SocketSetup::SendBufferSize(_) => ConnectErrors::SetSendBufferSizeError(error),
        SocketSetup::ReceiveBufferSize(_) => ConnectErrors::SetReceiveBufferSizeError(error),
        SocketSetup::Duplicate => ConnectErrors::TryCloneError(error),
    }
}

} // verus!

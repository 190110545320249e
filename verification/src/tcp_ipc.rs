//! The configuration and the results of an endpoint, and the decisions of its
//! handle: what each operation of the handle answers, given what its channels
//! and its socket did.

use vstd::prelude::*;
use crate::protocol::{Message, Protocol};

verus! {

/// `std::io::Error`, the error of a socket operation. The library carries
/// such a value from where it arose to the application and never looks
/// inside: nothing is claimed of it.
#[verifier::external_type_specification]
#[verifier::external_body]
pub struct ExIoError(std::io::Error);

/// The number of bytes that the reader asks of the socket in one read.
pub const BUFFER_SIZE: usize = 128;

/// The time settings of an endpoint. A time that is `None` is not waited.
#[derive(Debug, Clone, Copy, PartialEq)]
pub struct TcpIpcConfig {
    /// How long the endpoint waits, once its reader runs, before it is handed
    /// to the application: time for the peer to get ready.
    pub after_connect_wait_time: Option<std::time::Duration>,
    /// How long the reader sleeps at the end of each iteration. Very small
    /// values make it use much of a processor.
    pub read_iteration_wait_time: Option<std::time::Duration>,
    /// How long `shutdown` waits between telling the reader and closing the
    /// socket.
    pub shutdown_wait_time: Option<std::time::Duration>,
    /// The reader looks at its control channels once every `check_count`
    /// iterations; with 1, and with 0, in each.
    pub check_count: u32,
}

/// What a value taken off a channel without waiting can be.
#[derive(Debug)]
pub enum Polled<T> {
    /// A value was waiting.
    Received(T),
    /// Nothing was waiting.
    Empty,
    /// Nothing was waiting and the other end is gone.
    Disconnected,
}

/// What the reader reports to the handle in place of a message.
#[derive(Debug)]
pub enum ReadThreadErrorsInternal<P: Protocol> {
    /// An immediate reply could not be written to the socket.
    WriteError(std::io::Error),
    /// The socket could not be read.
    ReadError(std::io::Error),
    /// The protocol asked for this immediate reply and could not construct it.
    ImmediateMessageConstructError((P::Commands, Vec<u8>)),
}

/// What `get_message` answers in place of a message.
#[derive(Debug)]
pub enum ReadThreadErrors<P: Protocol> {
    /// An immediate reply could not be written to the socket.
    WriteError(std::io::Error),
    /// The socket could not be read.
    ReadError(std::io::Error),
    /// The protocol asked for this immediate reply and could not construct it.
    ImmediateMessageConstructError((P::Commands, Vec<u8>)),
    /// The reader is gone: the endpoint is of no further use.
    Disconnected,
}

/// Why no endpoint came about.
#[derive(Debug)]
pub enum ConnectErrors {
    /// The addresses could not be parsed.
    SocketListParseError(std::io::Error),
    /// The addresses parsed to none.
    SocketListIsEmpty,
    /// The peer could not be reached; the error is that of the last address
    /// tried.
    ConnectionError(std::io::Error),
    /// The socket could not be duplicated for the reader.
    TryCloneError(std::io::Error),
    /// The address could not be bound.
    BindError(std::io::Error),
    /// The socket refused `TCP_NODELAY`.
    SetNodelayError(std::io::Error),
    /// The socket refused the size of its receive buffer.
    SetReceiveBufferSizeError(std::io::Error),
    /// The socket refused the size of its send buffer.
    SetSendBufferSizeError(std::io::Error),
    /// The peer did not accept within the time allowed.
    WaitTimeExceeded,
}

/// Whether a busy state reached the reader's channel.
#[derive(Debug, Clone, Copy, PartialEq)]
pub enum BusyStateUpdateResult {
    /// It did.
    Success,
    /// The reader is gone.
    Disconnected,
}

/// Why a query for the busy state got no answer.
#[derive(Debug, Clone, Copy, PartialEq)]
pub enum BusyStateQueryResult {
    /// The reader is gone.
    Disconnected,
}

/// Why a message was not sent.
#[derive(Debug)]
pub enum WriteMessageErrors {
    /// The protocol could not construct the message.
    MessageConstructionFailed,
    /// The socket could not be written.
    MessageSendFailed(std::io::Error),
}

/// Which steps of a shutdown succeeded, when not both did.
#[derive(Debug, Clone, Copy, PartialEq)]
pub struct ShutdownError {
    /// Whether the reader was told to stop.
    pub shutdown_requested_succesfully: bool,
    /// Whether the socket was closed in both directions.
    pub shutdown_succesfully: bool,
}

impl<P: Protocol> ReadThreadErrors<P> {
    /// The reader's report as the handle passes it on: unchanged.
    pub open spec fn spec_from_internal(report: ReadThreadErrorsInternal<P>) -> Self {
        match report {
            ReadThreadErrorsInternal::WriteError(error) => ReadThreadErrors::WriteError(error),
            ReadThreadErrorsInternal::ReadError(error) => ReadThreadErrors::ReadError(error),
            ReadThreadErrorsInternal::ImmediateMessageConstructError(reply) => {
                ReadThreadErrors::ImmediateMessageConstructError(reply)
            },
        }
    }

    /// The reader's report as the handle passes it on: unchanged.
    pub fn from_internal(report: ReadThreadErrorsInternal<P>) -> (passed_on: Self)
        ensures
            passed_on == Self::spec_from_internal(report),
    {
        match report {
            ReadThreadErrorsInternal::WriteError(error) => ReadThreadErrors::WriteError(error),
            ReadThreadErrorsInternal::ReadError(error) => ReadThreadErrors::ReadError(error),
            ReadThreadErrorsInternal::ImmediateMessageConstructError(reply) => {
                ReadThreadErrors::ImmediateMessageConstructError(reply)
            },
        }
    }
}

/// What `update_busy_state` answers: success if and only if the reader's
/// channel took the busy state.
pub fn busy_state_update_result(delivered: bool) -> (result: BusyStateUpdateResult)
    ensures
        result == if delivered {
            BusyStateUpdateResult::Success
        } else {
            BusyStateUpdateResult::Disconnected
        },
{
    if delivered {
        BusyStateUpdateResult::Success
    } else {
        BusyStateUpdateResult::Disconnected
    }
}

/// What `get_busy_state` answers: the busy state that came back, if the
/// query was taken and an answer came; else that the reader is gone.
pub fn busy_state_query_result<P: Protocol>(requested: bool, answer: Option<P::BusyStates>) -> (result:
    Result<P::BusyStates, BusyStateQueryResult>)
    ensures
        result == match answer {
            Some(busy_state) if requested => Ok::<P::BusyStates, BusyStateQueryResult>(busy_state),
            _ => Err::<P::BusyStates, BusyStateQueryResult>(BusyStateQueryResult::Disconnected),
        },
{
    match answer {
        Some(busy_state) => if requested {
            Ok(busy_state)
        } else {
            Err(BusyStateQueryResult::Disconnected)
        },
        None => Err(BusyStateQueryResult::Disconnected),
    }
}

/// What `get_message` answers, given what the reader's channel held: the
/// message or the report that was waiting, `Ok(None)` if nothing was, and
/// `Disconnected` if the reader is gone.
pub open spec fn spec_message_from_channel<P: Protocol>(
    polled: Polled<Result<Message<P>, ReadThreadErrorsInternal<P>>>,
) -> Result<Option<Message<P>>, ReadThreadErrors<P>> {
    match polled {
        Polled::Received(Ok(message)) => Ok(Some(message)),
        Polled::Received(Err(report)) => Err(ReadThreadErrors::spec_from_internal(report)),
        Polled::Empty => Ok(None),
        Polled::Disconnected => Err(ReadThreadErrors::Disconnected),
    }
}

/// What `get_message` answers, given what the reader's channel held.
pub fn message_from_channel<P: Protocol>(
    polled: Polled<Result<Message<P>, ReadThreadErrorsInternal<P>>>,
) -> (fetched: Result<Option<Message<P>>, ReadThreadErrors<P>>)
    ensures
        fetched == spec_message_from_channel::<P>(polled),
{
    match polled {
        Polled::Received(Ok(message)) => Ok(Some(message)),
        Polled::Received(Err(report)) => Err(ReadThreadErrors::from_internal(report)),
        Polled::Empty => Ok(None),
        Polled::Disconnected => Err(ReadThreadErrors::Disconnected),
    }
}

/// One round of `clear_message_queue`, given what `get_message` answered: a
/// message is dropped and the clearing goes on (`None`); an empty channel
/// ends it well, and an error ends it with that error.
pub fn clearing_verdict<P: Protocol>(fetched: Result<Option<Message<P>>, ReadThreadErrors<P>>) -> (verdict:
    Option<Result<(), ReadThreadErrors<P>>>)
    ensures
        verdict == match fetched {
            Ok(Some(_)) => None::<Result<(), ReadThreadErrors<P>>>,
            Ok(None) => Some(Ok::<(), ReadThreadErrors<P>>(())),
            Err(error) => Some(Err::<(), ReadThreadErrors<P>>(error)),
        },
{
    match fetched {
        Ok(Some(_)) => None,
        Ok(None) => Some(Ok(())),
        Err(error) => Some(Err(error)),
    }
}

/// One round of `await_message`, given what `get_message` answered: a
/// message or an error is the answer; an empty channel means to wait and
/// look again (`None`) until the time is up, when the answer is `Ok(None)`.
pub fn awaiting_verdict<P: Protocol>(fetched: Result<Option<Message<P>>, ReadThreadErrors<P>>) -> (verdict:
    Option<Result<Option<Message<P>>, ReadThreadErrors<P>>>)
    ensures
        verdict == match fetched {
            Ok(None) => None::<Result<Option<Message<P>>, ReadThreadErrors<P>>>,
            _ => Some(fetched),
        },
{
    match fetched {
        Ok(None) => None,
        Ok(Some(message)) => Some(Ok(Some(message))),
        Err(error) => Some(Err(error)),
    }
}

/// The bytes that `write_message` sends for a command and a payload: the
/// message as the protocol constructs it, or `MessageConstructionFailed` if
/// the protocol cannot.
pub fn message_for_socket<P: Protocol>(command: P::Commands, payload: &[u8]) -> (wire: Result<
    Vec<u8>,
    WriteMessageErrors,
>)
    ensures
        match P::spec_construct_message(command, payload@) {
            Some(bytes) => wire matches Ok(constructed) && constructed@ == bytes,
            None => wire matches Err(WriteMessageErrors::MessageConstructionFailed),
        },
{
    match P::construct_message(command, payload) {
        Some(constructed) => Ok(constructed),
        None => Err(WriteMessageErrors::MessageConstructionFailed),
    }
}

/// What `write_message` answers once the socket was written: success if
/// all bytes were taken, else `MessageSendFailed` with the socket's error.
pub fn write_result(failure: Option<std::io::Error>) -> (result: Result<(), WriteMessageErrors>)
    ensures
        result == match failure {
            None => Ok::<(), WriteMessageErrors>(()),
            Some(error) => Err::<(), WriteMessageErrors>(
                WriteMessageErrors::MessageSendFailed(error),
            ),
        },
{
    match failure {
        None => Ok(()),
        Some(error) => Err(WriteMessageErrors::MessageSendFailed(error)),
    }
}

/// What `shutdown` answers: success if and only if the reader was told to
/// stop and the socket was closed; else which of the two succeeded.
pub fn shutdown_result(requested: bool, completed: bool) -> (result: Result<(), ShutdownError>)
    ensures
        result == if requested && completed {
            Ok::<(), ShutdownError>(())
        } else {
            Err::<(), ShutdownError>(
                ShutdownError {
                    shutdown_requested_succesfully: requested,
                    shutdown_succesfully: completed,
                },
            )
        },
{
    if requested && completed {
        Ok(())
    } else {
        Err(
            ShutdownError {
                shutdown_requested_succesfully: requested,
                shutdown_succesfully: completed,
            },
        )
    }
}

} // verus!

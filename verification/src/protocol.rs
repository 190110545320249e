//! The capability that a user supplies to describe a wire protocol.

use vstd::prelude::*;

verus! {

/// A framed message: the command tag and the payload that followed its header.
pub type Message<P> = (<P as Protocol>::Commands, Vec<u8>);

/// A framed message as a mathematical value.
pub type Frame<P> = (<P as Protocol>::Commands, Seq<u8>);

/// Why a protocol rejected a header.
#[derive(Debug, Clone, Copy, PartialEq, Eq)]
pub enum ParseHeaderError {
    /// The command field names no command of the protocol.
    ParseCommandFailed,
    /// The length field holds no payload length that the protocol accepts.
    ParseLengthFailed,
}

/// The mathematical value of a message.
pub open spec fn message_view<P: Protocol>(message: Message<P>) -> Frame<P> {
    (message.0, message.1@)
}

/// The mathematical value of an optional message.
pub open spec fn optional_message_view<P: Protocol>(message: Option<Message<P>>) -> Option<
    Frame<P>,
> {
    match message {
        Some(m) => Some(message_view::<P>(m)),
        None => None,
    }
}

/// A wire protocol: every message is a header of `header_len()` bytes, from
/// which the command and the payload length are read, followed by the payload.
///
/// Every operation is a function of its arguments alone; the `spec_` functions
/// say which one, and the executable operations must compute them.
pub trait Protocol: Sized {
    /// The tag that tells message kinds apart.
    type Commands: Copy + core::fmt::Debug;

    /// What the application is currently doing.
    type BusyStates: Clone + core::fmt::Debug;

    /// A block of exactly `header_len()` bytes.
    type HeaderArray: core::fmt::Debug;

    /// The number of bytes of a header.
    spec fn header_len() -> nat;

    /// The bytes that a header block holds.
    spec fn header_bytes(header: Self::HeaderArray) -> Seq<u8>;

    /// The busy state of an endpoint before the application reports one.
    spec fn spec_idle() -> Self::BusyStates;

    /// The command and the payload length that a header of `header_len()`
    /// bytes announces, or why it is rejected.
    spec fn spec_parse_header(header: Seq<u8>) -> Result<(Self::Commands, usize), ParseHeaderError>;

    /// The complete wire message for a command and a payload, if the protocol
    /// can express it.
    spec fn spec_construct_message(command: Self::Commands, payload: Seq<u8>) -> Option<Seq<u8>>;

    /// The reply that the reader sends on its own for an incoming message in
    /// the given busy state, or `None` if the message goes to the application.
    spec fn spec_immediate_route(
        command: Self::Commands,
        payload: Seq<u8>,
        busy_state: Self::BusyStates,
    ) -> Option<Frame<Self>>;

    /// A header is never empty.
    proof fn lemma_header_len_positive()
        ensures
            Self::header_len() > 0,
    ;

    /// Constructing and parsing are inverses: a constructed message is a
    /// header that announces the command and the payload's length, followed by
    /// the payload and nothing else.
    proof fn lemma_construct_then_parse(command: Self::Commands, payload: Seq<u8>)
        requires
            Self::spec_construct_message(command, payload) is Some,
        ensures
            payload.len() <= usize::MAX,
            Self::spec_construct_message(command, payload).unwrap().len() == Self::header_len()
                + payload.len(),
            Self::spec_parse_header(
                Self::spec_construct_message(command, payload).unwrap().take(
                    Self::header_len() as int,
                ),
            ) == Ok::<(Self::Commands, usize), ParseHeaderError>((command, payload.len() as usize)),
            Self::spec_construct_message(command, payload).unwrap().skip(Self::header_len() as int)
                == payload,
    ;

    /// The number of bytes of a header.
    fn header_size() -> (size: usize)
        ensures
            size == Self::header_len(),
    ;

    /// The busy state of an endpoint before the application reports one.
    fn idle() -> (state: Self::BusyStates)
        ensures
            state == Self::spec_idle(),
    ;

    /// Splits the first header off `bytes`, if `bytes` holds a whole one.
    fn message_slice_to_header_array(bytes: &[u8]) -> (split: Option<(Self::HeaderArray, &[u8])>)
        ensures
            bytes@.len() < Self::header_len() ==> split is None,
            bytes@.len() >= Self::header_len() ==> split is Some && Self::header_bytes(
                split.unwrap().0,
            ) == bytes@.take(Self::header_len() as int) && split.unwrap().1@ == bytes@.skip(
                Self::header_len() as int,
            ),
    ;

    /// Reads the command and the payload length from a header; a rejected
    /// header is handed back with the reason.
    fn parse_header(header: Self::HeaderArray) -> (parsed: Result<
        (Self::Commands, usize),
        (ParseHeaderError, Self::HeaderArray),
    >)
        ensures
            match Self::spec_parse_header(Self::header_bytes(header)) {
                Ok(announced) => parsed == Ok::<
                    (Self::Commands, usize),
                    (ParseHeaderError, Self::HeaderArray),
                >(announced),
                Err(reason) => parsed == Err::<
                    (Self::Commands, usize),
                    (ParseHeaderError, Self::HeaderArray),
                >((reason, header)),
            },
    ;

    /// Builds the complete wire message for a command and a payload.
    fn construct_message(command: Self::Commands, payload: &[u8]) -> (wire: Option<Vec<u8>>)
        ensures
            match Self::spec_construct_message(command, payload@) {
                Some(bytes) => wire is Some && wire.unwrap()@ == bytes,
                None => wire is None,
            },
    ;

    /// Decides whether the reader answers an incoming message on its own, and
    /// with what.
    fn message_is_answered_via_immediate_route(
        command: &Self::Commands,
        payload: &[u8],
        busy_state: &Self::BusyStates,
    ) -> (reply: Option<Message<Self>>)
        ensures
            match Self::spec_immediate_route(*command, payload@, *busy_state) {
                Some(frame) => reply is Some && reply.unwrap().0 == frame.0 && reply.unwrap().1@
                    == frame.1,
                None => reply is None,
            },
    ;
}

} // verus!

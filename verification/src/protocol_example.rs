//! An example protocol: a header of six bytes, the payload length in the
//! first three and the command number in the last three, both big-endian.

use vstd::prelude::*;
use vstd::slice::{slice_subrange, slice_to_vec};
use crate::protocol::{Frame, Message, ParseHeaderError, Protocol};

verus! {

/// The commands of the example protocol.
#[derive(Debug, Clone, Copy, PartialEq, Eq)]
pub enum ProtocolExampleCommands {
    /// Number 0.
    Unknown,
    /// Number 1.
    Start,
    /// Number 2.
    Stop,
    /// Number 3.
    Pause,
    /// Number 4.
    Continue,
    /// Number 999.
    Error,
    /// Number 12: asks whether the peer is busy. A working peer answers it
    /// without involving its application.
    QueryIsBusy,
}

/// What an endpoint of the example protocol is doing.
#[derive(Debug, Clone, PartialEq, Eq)]
pub enum ProtocolExampleStates {
    /// Nothing: every message goes to the application.
    WaitingForRequest,
    /// Working; the bytes are the answer to `QueryIsBusy`.
    Working(Vec<u8>),
}

/// The example protocol.
#[derive(Debug)]
pub struct ProtocolExample {}

/// The number of bytes of the example protocol's header.
pub const HEADER_SIZE: usize = 6;

/// The first payload length that three bytes cannot hold.
pub const PAYLOAD_LIMIT: usize = 0x100_0000;

impl ProtocolExampleCommands {
    /// The number that stands for the command on the wire.
    pub open spec fn spec_number(self) -> nat {
        match self {
            ProtocolExampleCommands::Unknown => 0,
            ProtocolExampleCommands::Start => 1,
            ProtocolExampleCommands::Stop => 2,
            ProtocolExampleCommands::Pause => 3,
            ProtocolExampleCommands::Continue => 4,
            ProtocolExampleCommands::Error => 999,
            ProtocolExampleCommands::QueryIsBusy => 12,
        }
    }

    /// The command that a number stands for, if any.
    pub open spec fn spec_from_number(number: nat) -> Option<ProtocolExampleCommands> {
        if number == 0 {
            Some(ProtocolExampleCommands::Unknown)
        } else if number == 1 {
            Some(ProtocolExampleCommands::Start)
        } else if number == 2 {
            Some(ProtocolExampleCommands::Stop)
        } else if number == 3 {
            Some(ProtocolExampleCommands::Pause)
        } else if number == 4 {
            Some(ProtocolExampleCommands::Continue)
        } else if number == 999 {
            Some(ProtocolExampleCommands::Error)
        } else if number == 12 {
            Some(ProtocolExampleCommands::QueryIsBusy)
        } else {
            None
        }
    }

    /// The number that stands for the command on the wire.
    pub fn number(self) -> (number: u32)
        ensures
            number == self.spec_number(),
    {
        match self {
            ProtocolExampleCommands::Unknown => 0,
            ProtocolExampleCommands::Start => 1,
            ProtocolExampleCommands::Stop => 2,
            ProtocolExampleCommands::Pause => 3,
            ProtocolExampleCommands::Continue => 4,
            ProtocolExampleCommands::Error => 999,
            ProtocolExampleCommands::QueryIsBusy => 12,
        }
    }

    /// The command that a number stands for, if any.
    pub fn from_number(number: u32) -> (command: Option<ProtocolExampleCommands>)
        ensures
            command == Self::spec_from_number(number as nat),
    {
        if number == 0 {
            Some(ProtocolExampleCommands::Unknown)
        } else if number == 1 {
            Some(ProtocolExampleCommands::Start)
        } else if number == 2 {
            Some(ProtocolExampleCommands::Stop)
        } else if number == 3 {
            Some(ProtocolExampleCommands::Pause)
        } else if number == 4 {
            Some(ProtocolExampleCommands::Continue)
        } else if number == 999 {
            Some(ProtocolExampleCommands::Error)
        } else if number == 12 {
            Some(ProtocolExampleCommands::QueryIsBusy)
        } else {
            None
        }
    }
}

/// The number that three bytes hold, the first the most significant.
pub open spec fn big_endian_3(bytes: Seq<u8>) -> nat
    recommends
        bytes.len() == 3,
{
    (bytes[0] as nat) * 0x1_0000 + (bytes[1] as nat) * 0x100 + (bytes[2] as nat)
}

/// The three bytes that hold a number below `PAYLOAD_LIMIT`, the first the
/// most significant.
pub open spec fn to_big_endian_3(number: nat) -> Seq<u8>
    recommends
        number < PAYLOAD_LIMIT,
{
    seq![(number / 0x1_0000) as u8, ((number / 0x100) % 0x100) as u8, (number % 0x100) as u8]
}

/// Reading back the three bytes of a number gives the number.
pub proof fn lemma_big_endian_3_roundtrip(number: nat)
    requires
        number < PAYLOAD_LIMIT,
    ensures
        to_big_endian_3(number).len() == 3,
        big_endian_3(to_big_endian_3(number)) == number,
{
    let high = number / 0x1_0000;
    let middle = (number / 0x100) % 0x100;
    let low = number % 0x100;
    assert(high < 0x100 && middle < 0x100 && low < 0x100 && high * 0x1_0000 + middle * 0x100 + low
        == number) by (nonlinear_arith)
        requires
            number < 0x100_0000,
            high == number / 0x1_0000,
            middle == (number / 0x100) % 0x100,
            low == number % 0x100,
    ;
}

fn read_big_endian_3(first: u8, second: u8, third: u8) -> (number: u32)
    ensures
        number == big_endian_3(seq![first, second, third]),
        number < PAYLOAD_LIMIT,
{
    (first as u32) * 0x1_0000 + (second as u32) * 0x100 + (third as u32)
}

fn push_big_endian_3(bytes: &mut Vec<u8>, number: u32)
    requires
        number < PAYLOAD_LIMIT,
    ensures
        final(bytes)@ == old(bytes)@ + to_big_endian_3(number as nat),
{
    bytes.push((number / 0x1_0000) as u8);
    bytes.push(((number / 0x100) % 0x100) as u8);
    bytes.push((number % 0x100) as u8);
    assert(bytes@ =~= old(bytes)@ + to_big_endian_3(number as nat));
}

impl Protocol for ProtocolExample {
    type Commands = ProtocolExampleCommands;

    type BusyStates = ProtocolExampleStates;

    type HeaderArray = [u8; 6];

    open spec fn header_len() -> nat {
        HEADER_SIZE as nat
    }

    open spec fn header_bytes(header: [u8; 6]) -> Seq<u8> {
        header@
    }

    open spec fn spec_idle() -> ProtocolExampleStates {
        ProtocolExampleStates::WaitingForRequest
    }

    open spec fn spec_parse_header(header: Seq<u8>) -> Result<
        (ProtocolExampleCommands, usize),
        ParseHeaderError,
    > {
        match ProtocolExampleCommands::spec_from_number(big_endian_3(header.subrange(3, 6))) {
            Some(command) => Ok((command, big_endian_3(header.subrange(0, 3)) as usize)),
            None => Err(ParseHeaderError::ParseCommandFailed),
        }
    }

    open spec fn spec_construct_message(command: ProtocolExampleCommands, payload: Seq<u8>) -> Option<
        Seq<u8>,
    > {
        if payload.len() < PAYLOAD_LIMIT {
            Some(
                to_big_endian_3(payload.len()) + to_big_endian_3(command.spec_number()) + payload,
            )
        } else {
            None
        }
    }

    open spec fn spec_immediate_route(
        command: ProtocolExampleCommands,
        payload: Seq<u8>,
        busy_state: ProtocolExampleStates,
    ) -> Option<Frame<ProtocolExample>> {
        match (command, busy_state) {
            (
                ProtocolExampleCommands::QueryIsBusy,
                ProtocolExampleStates::Working(answer),
            ) => Some((ProtocolExampleCommands::QueryIsBusy, answer@)),
            _ => None,
        }
    }

    proof fn lemma_header_len_positive() {
    }

    proof fn lemma_construct_then_parse(command: ProtocolExampleCommands, payload: Seq<u8>) {
        let length = to_big_endian_3(payload.len());
        let number = to_big_endian_3(command.spec_number());
        let wire = Self::spec_construct_message(command, payload).unwrap();
        lemma_big_endian_3_roundtrip(payload.len());
        lemma_big_endian_3_roundtrip(command.spec_number());
        let header = wire.take(6);
        assert(header.subrange(0, 3) =~= length);
        assert(header.subrange(3, 6) =~= number);
        assert(wire.skip(6) =~= payload);
    }

    fn header_size() -> (size: usize) {
        HEADER_SIZE
    }

    fn idle() -> (state: ProtocolExampleStates) {
        ProtocolExampleStates::WaitingForRequest
    }

    fn message_slice_to_header_array(bytes: &[u8]) -> (split: Option<([u8; 6], &[u8])>) {
        if bytes.len() < HEADER_SIZE {
            None
        } else {
            let header = [bytes[0], bytes[1], bytes[2], bytes[3], bytes[4], bytes[5]];
            let remainder = slice_subrange(bytes, HEADER_SIZE, bytes.len());
            assert(header@ =~= bytes@.take(6));
            assert(remainder@ =~= bytes@.skip(6));
            Some((header, remainder))
        }
    }

    fn parse_header(header: [u8; 6]) -> (parsed: Result<
        (ProtocolExampleCommands, usize),
        (ParseHeaderError, [u8; 6]),
    >) {
        let length = read_big_endian_3(header[0], header[1], header[2]);
        let number = read_big_endian_3(header[3], header[4], header[5]);
        assert(header@.subrange(0, 3) =~= seq![header[0], header[1], header[2]]);
        assert(header@.subrange(3, 6) =~= seq![header[3], header[4], header[5]]);
        match ProtocolExampleCommands::from_number(number) {
            Some(command) => Ok((command, length as usize)),
            None => Err((ParseHeaderError::ParseCommandFailed, header)),
        }
    }

    fn construct_message(command: ProtocolExampleCommands, payload: &[u8]) -> (wire: Option<
        Vec<u8>,
    >) {
        if payload.len() < PAYLOAD_LIMIT {
            let mut bytes: Vec<u8> = Vec::new();
            push_big_endian_3(&mut bytes, payload.len() as u32);
            push_big_endian_3(&mut bytes, command.number());
            bytes.extend_from_slice(payload);
            assert(bytes@ =~= to_big_endian_3(payload@.len()) + to_big_endian_3(
                command.spec_number(),
            ) + payload@);
            Some(bytes)
        } else {
            None
        }
    }

    fn message_is_answered_via_immediate_route(
        command: &ProtocolExampleCommands,
        payload: &[u8],
        busy_state: &ProtocolExampleStates,
    ) -> (reply: Option<Message<ProtocolExample>>) {
        match (command, busy_state) {
            (
                ProtocolExampleCommands::QueryIsBusy,
                ProtocolExampleStates::Working(answer),
            ) => Some((ProtocolExampleCommands::QueryIsBusy, slice_to_vec(answer.as_slice()))),
            _ => None,
        }
    }
}

} // verus!

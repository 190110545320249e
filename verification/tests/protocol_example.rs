use tcp_ipc::protocol::{ParseHeaderError, Protocol};
use tcp_ipc::protocol_example::{
    ProtocolExample, ProtocolExampleCommands, ProtocolExampleStates, HEADER_SIZE, PAYLOAD_LIMIT,
};

const ALL: [(ProtocolExampleCommands, u32); 7] = [
    (ProtocolExampleCommands::Unknown, 0),
    (ProtocolExampleCommands::Start, 1),
    (ProtocolExampleCommands::Stop, 2),
    (ProtocolExampleCommands::Pause, 3),
    (ProtocolExampleCommands::Continue, 4),
    (ProtocolExampleCommands::Error, 999),
    (ProtocolExampleCommands::QueryIsBusy, 12),
];

#[test]
fn command_numbers() {
    for (command, number) in ALL {
        assert_eq!(command.number(), number);
        assert_eq!(ProtocolExampleCommands::from_number(number), Some(command));
    }
    assert_eq!(ProtocolExampleCommands::from_number(5), None);
    assert_eq!(ProtocolExampleCommands::from_number(998), None);
    assert_eq!(ProtocolExampleCommands::from_number(u32::MAX), None);
}

#[test]
fn header_size_is_six() {
    assert_eq!(ProtocolExample::header_size(), 6);
    assert_eq!(HEADER_SIZE, 6);
}

#[test]
fn construct_message_exact_bytes() {
    assert_eq!(
        ProtocolExample::construct_message(ProtocolExampleCommands::Start, b"a"),
        Some(vec![0, 0, 1, 0, 0, 1, 0x61])
    );
    assert_eq!(
        ProtocolExample::construct_message(ProtocolExampleCommands::Error, &[]),
        Some(vec![0, 0, 0, 0, 3, 231])
    );
    let payload = vec![7u8; 0x01_02_03];
    let wire = ProtocolExample::construct_message(ProtocolExampleCommands::QueryIsBusy, &payload)
        .expect("constructible");
    assert_eq!(&wire[..6], &[1, 2, 3, 0, 0, 12]);
    assert_eq!(&wire[6..], &payload[..]);
}

#[test]
fn construct_message_refuses_a_payload_that_three_bytes_cannot_count() {
    let longest = vec![0u8; PAYLOAD_LIMIT - 1];
    let wire = ProtocolExample::construct_message(ProtocolExampleCommands::Stop, &longest)
        .expect("constructible");
    assert_eq!(&wire[..6], &[255, 255, 255, 0, 0, 2]);
    assert_eq!(wire.len(), PAYLOAD_LIMIT + 5);
    let too_long = vec![0u8; PAYLOAD_LIMIT];
    assert_eq!(ProtocolExample::construct_message(ProtocolExampleCommands::Stop, &too_long), None);
}

#[test]
fn parse_header_exact_values() {
    assert_eq!(
        ProtocolExample::parse_header([0, 0, 1, 0, 0, 1]),
        Ok((ProtocolExampleCommands::Start, 1))
    );
    assert_eq!(
        ProtocolExample::parse_header([1, 2, 3, 0, 3, 231]),
        Ok((ProtocolExampleCommands::Error, 66051))
    );
    assert_eq!(
        ProtocolExample::parse_header([255, 255, 255, 0, 0, 0]),
        Ok((ProtocolExampleCommands::Unknown, 16777215))
    );
}

#[test]
fn parse_header_rejects_unknown_command_numbers() {
    assert_eq!(
        ProtocolExample::parse_header([0, 0, 1, 0, 0, 5]),
        Err((ParseHeaderError::ParseCommandFailed, [0, 0, 1, 0, 0, 5]))
    );
    assert_eq!(
        ProtocolExample::parse_header([0, 0, 0, 1, 0, 12]),
        Err((ParseHeaderError::ParseCommandFailed, [0, 0, 0, 1, 0, 12]))
    );
}

#[test]
fn parse_header_inverts_construct_message() {
    for (command, _) in ALL {
        for length in [0usize, 1, 255, 256, 65535, 65536, 70000] {
            let payload = vec![0x5A; length];
            let wire = ProtocolExample::construct_message(command, &payload).expect("constructible");
            let (header, rest) =
                ProtocolExample::message_slice_to_header_array(&wire).expect("a whole header");
            assert_eq!(ProtocolExample::parse_header(header), Ok((command, length)));
            assert_eq!(rest, &payload[..]);
        }
    }
}

#[test]
fn message_slice_to_header_array_needs_six_bytes() {
    assert_eq!(ProtocolExample::message_slice_to_header_array(&[]), None);
    assert_eq!(ProtocolExample::message_slice_to_header_array(&[1, 2, 3, 4, 5]), None);
    assert_eq!(
        ProtocolExample::message_slice_to_header_array(&[1, 2, 3, 4, 5, 6]),
        Some(([1, 2, 3, 4, 5, 6], &[] as &[u8]))
    );
    assert_eq!(
        ProtocolExample::message_slice_to_header_array(&[1, 2, 3, 4, 5, 6, 7, 8]),
        Some(([1, 2, 3, 4, 5, 6], &[7u8, 8][..]))
    );
}

#[test]
fn idle_is_waiting_for_request() {
    assert_eq!(ProtocolExample::idle(), ProtocolExampleStates::WaitingForRequest);
}

#[test]
fn only_a_working_endpoint_answers_the_busy_query_at_once() {
    let working = ProtocolExampleStates::Working(vec![0xAB, 0xCD]);
    let waiting = ProtocolExampleStates::WaitingForRequest;
    assert_eq!(
        ProtocolExample::message_is_answered_via_immediate_route(
            &ProtocolExampleCommands::QueryIsBusy,
            &[1, 2],
            &working
        ),
        Some((ProtocolExampleCommands::QueryIsBusy, vec![0xAB, 0xCD]))
    );
    assert_eq!(
        ProtocolExample::message_is_answered_via_immediate_route(
            &ProtocolExampleCommands::QueryIsBusy,
            &[],
            &waiting
        ),
        None
    );
    for (command, _) in ALL {
        if command != ProtocolExampleCommands::QueryIsBusy {
            assert_eq!(
                ProtocolExample::message_is_answered_via_immediate_route(&command, &[], &working),
                None
            );
        }
    }
}

use tcp_ipc::protocol::{ParseHeaderError, Protocol};
use tcp_ipc::protocol_buffer::ProtocolBuffer;
use tcp_ipc::protocol_example::{ProtocolExample, ProtocolExampleCommands, ProtocolExampleStates};

type Message = (ProtocolExampleCommands, Vec<u8>);

/// Feeds one chunk and fetches until nothing comes.
fn feed(buffer: &mut ProtocolBuffer<ProtocolExample>, chunk: &[u8]) -> Vec<Message> {
    let mut messages = Vec::new();
    let mut incoming = chunk;
    while let Some(message) = buffer.process_new_buffer(incoming) {
        messages.push(message);
        incoming = &[];
    }
    messages
}

fn feed_all(chunks: &[&[u8]]) -> (ProtocolBuffer<ProtocolExample>, Vec<Message>) {
    let mut buffer = ProtocolBuffer::<ProtocolExample>::new();
    let mut messages = Vec::new();
    for chunk in chunks {
        messages.extend(feed(&mut buffer, chunk));
    }
    (buffer, messages)
}

fn wire(command: ProtocolExampleCommands, payload: &[u8]) -> Vec<u8> {
    ProtocolExample::construct_message(command, payload).expect("constructible")
}

#[test]
fn single_complete_message() {
    let mut buffer = ProtocolBuffer::<ProtocolExample>::new();
    let first = buffer.process_new_buffer(&[0, 0, 1, 0, 0, 1, 0x61]);
    assert_eq!(first, Some((ProtocolExampleCommands::Start, vec![0x61])));
    assert_eq!(buffer.process_new_buffer(&[]), None);
}

#[test]
fn message_split_across_reads() {
    let mut buffer = ProtocolBuffer::<ProtocolExample>::new();
    assert_eq!(buffer.process_new_buffer(&[0, 0, 1]), None);
    assert_eq!(buffer.process_new_buffer(&[0, 0, 1]), None);
    assert_eq!(
        buffer.process_new_buffer(&[0x61]),
        Some((ProtocolExampleCommands::Start, vec![0x61]))
    );
    assert_eq!(buffer.process_new_buffer(&[]), None);
}

#[test]
fn two_messages_back_to_back() {
    let mut buffer = ProtocolBuffer::<ProtocolExample>::new();
    let chunk = [0, 0, 1, 0, 0, 1, 0x61, 0, 0, 2, 0, 0, 2, 0x62, 0x63];
    assert_eq!(
        buffer.process_new_buffer(&chunk),
        Some((ProtocolExampleCommands::Start, vec![0x61]))
    );
    assert_eq!(
        buffer.process_new_buffer(&[]),
        Some((ProtocolExampleCommands::Stop, vec![0x62, 0x63]))
    );
    assert_eq!(buffer.process_new_buffer(&[]), None);
}

#[test]
fn one_call_emits_at_most_one_message() {
    let mut buffer = ProtocolBuffer::<ProtocolExample>::new();
    let mut chunk = wire(ProtocolExampleCommands::Start, b"a");
    chunk.extend(wire(ProtocolExampleCommands::Pause, b"bc"));
    chunk.extend(wire(ProtocolExampleCommands::Continue, b""));
    let first = buffer.process_new_buffer(&chunk);
    assert_eq!(first, Some((ProtocolExampleCommands::Start, vec![b'a'])));
    // the two others stay staged, untouched
    assert_eq!(buffer.pending_header(), None);
    assert_eq!(buffer.assembled_payload(), &[] as &[u8]);
    assert_eq!(buffer.staging(), &chunk[7..]);
}

#[test]
fn empty_payload_is_emitted_with_its_header() {
    let mut buffer = ProtocolBuffer::<ProtocolExample>::new();
    assert_eq!(
        buffer.process_new_buffer(&[0, 0, 0, 0, 0, 12]),
        Some((ProtocolExampleCommands::QueryIsBusy, vec![]))
    );
    assert_eq!(buffer.process_new_buffer(&[]), None);
    assert_eq!(buffer.staging(), &[] as &[u8]);
}

#[test]
fn constructed_messages_come_out_in_order_byte_by_byte() {
    let messages: Vec<Message> = vec![
        (ProtocolExampleCommands::Start, b"a".to_vec()),
        (ProtocolExampleCommands::Error, vec![b'a', 0, 1, 2, 3, 4]),
        (ProtocolExampleCommands::QueryIsBusy, vec![]),
        (ProtocolExampleCommands::Start, vec![b'b', 0, 1, 4]),
    ];
    let mut stream = Vec::new();
    for (command, payload) in &messages {
        stream.extend(wire(*command, payload));
    }
    let bytes: Vec<&[u8]> = stream.chunks(1).collect();
    let (buffer, framed) = feed_all(&bytes);
    assert_eq!(framed, messages);
    assert_eq!(buffer.pending_header(), None);
    assert_eq!(buffer.staging(), &[] as &[u8]);
}

#[test]
fn constructed_messages_come_out_in_order_in_one_chunk() {
    let messages: Vec<Message> = vec![
        (ProtocolExampleCommands::Stop, vec![1, 2, 3]),
        (ProtocolExampleCommands::Unknown, vec![]),
        (ProtocolExampleCommands::Continue, vec![9; 300]),
    ];
    let mut stream = Vec::new();
    for (command, payload) in &messages {
        stream.extend(wire(*command, payload));
    }
    let (_, framed) = feed_all(&[&stream]);
    assert_eq!(framed, messages);
}

#[test]
fn chunking_does_not_change_the_output() {
    let mut stream = wire(ProtocolExampleCommands::Start, b"hello");
    stream.extend(wire(ProtocolExampleCommands::Pause, b""));
    stream.extend(wire(ProtocolExampleCommands::Stop, b"wor"));
    // an incomplete fourth message: its header and two of five payload bytes
    stream.extend(&[0, 0, 5, 0, 0, 4, 7, 8]);
    let (whole_buffer, whole) = feed_all(&[&stream]);
    for cut in 0..=stream.len() {
        let (first, second) = stream.split_at(cut);
        let (buffer, framed) = feed_all(&[first, second]);
        assert_eq!(framed, whole, "cut at {}", cut);
        assert_eq!(buffer.pending_header(), whole_buffer.pending_header());
        assert_eq!(buffer.assembled_payload(), whole_buffer.assembled_payload());
        assert_eq!(buffer.staging(), whole_buffer.staging());
    }
    assert_eq!(whole.len(), 3);
    assert_eq!(whole_buffer.pending_header(), Some((ProtocolExampleCommands::Continue, 5)));
    assert_eq!(whole_buffer.assembled_payload(), &[7, 8]);
    let thirds: Vec<&[u8]> = stream.chunks(3).collect();
    assert_eq!(feed_all(&thirds).1, whole);
}

#[test]
fn invariants_hold_after_every_call() {
    let mut stream = wire(ProtocolExampleCommands::Start, b"abcdefgh");
    stream.extend(wire(ProtocolExampleCommands::Stop, b""));
    stream.extend(wire(ProtocolExampleCommands::Pause, b"xy"));
    let mut buffer = ProtocolBuffer::<ProtocolExample>::new();
    let mut seen = 0;
    let mut emitted_bytes = 0;
    for chunk in stream.chunks(4) {
        let mut incoming = chunk;
        seen += chunk.len();
        loop {
            let emitted = buffer.process_new_buffer(incoming);
            incoming = &[];
            if let Some((_, payload)) = &emitted {
                emitted_bytes += 6 + payload.len();
            }
            match buffer.pending_header() {
                Some((_, length)) => {
                    assert!(buffer.assembled_payload().len() < length);
                    assert!(buffer.staging().is_empty());
                    let held = 6 + buffer.assembled_payload().len();
                    assert_eq!(emitted_bytes + held, seen);
                }
                None => {
                    assert!(buffer.assembled_payload().is_empty());
                    if emitted.is_none() {
                        assert!(buffer.staging().len() < 6);
                    }
                    assert_eq!(emitted_bytes + buffer.staging().len(), seen);
                    assert_eq!(buffer.staging(), &stream[emitted_bytes..seen]);
                }
            }
            if emitted.is_none() {
                break;
            }
        }
    }
    assert_eq!(emitted_bytes, stream.len());
}

#[test]
fn partial_payload_is_collected() {
    let mut buffer = ProtocolBuffer::<ProtocolExample>::new();
    assert_eq!(buffer.process_new_buffer(&[0, 0, 4, 0, 0, 3, 10, 11]), None);
    assert_eq!(buffer.pending_header(), Some((ProtocolExampleCommands::Pause, 4)));
    assert_eq!(buffer.assembled_payload(), &[10, 11]);
    assert_eq!(buffer.staging(), &[] as &[u8]);
    // the rest of the payload and the start of the next header
    assert_eq!(
        buffer.process_new_buffer(&[12, 13, 0, 0]),
        Some((ProtocolExampleCommands::Pause, vec![10, 11, 12, 13]))
    );
    assert_eq!(buffer.pending_header(), None);
    assert_eq!(buffer.staging(), &[0, 0]);
    assert_eq!(buffer.process_new_buffer(&[]), None);
    assert_eq!(buffer.staging(), &[0, 0]);
}

#[test]
fn rejected_header_is_handed_back() {
    let mut buffer = ProtocolBuffer::<ProtocolExample>::new();
    // command number 5 names no command
    let result = buffer.try_process_new_buffer(&[0, 0, 1, 0, 0, 5, 0x61]);
    assert_eq!(result, Err((ParseHeaderError::ParseCommandFailed, [0, 0, 1, 0, 0, 5])));
    // nothing was consumed, and the same header is met again
    assert_eq!(buffer.pending_header(), None);
    assert_eq!(buffer.staging(), &[0, 0, 1, 0, 0, 5, 0x61]);
    let again = buffer.try_process_new_buffer(&[1]);
    assert_eq!(again, Err((ParseHeaderError::ParseCommandFailed, [0, 0, 1, 0, 0, 5])));
    assert_eq!(buffer.staging(), &[0, 0, 1, 0, 0, 5, 0x61, 1]);
}

#[test]
fn rejected_header_after_a_good_message() {
    let mut buffer = ProtocolBuffer::<ProtocolExample>::new();
    let mut chunk = wire(ProtocolExampleCommands::Stop, b"ok");
    chunk.extend(&[0, 0, 0, 1, 0, 0]);
    assert_eq!(
        buffer.try_process_new_buffer(&chunk),
        Ok(Some((ProtocolExampleCommands::Stop, b"ok".to_vec())))
    );
    assert_eq!(
        buffer.try_process_new_buffer(&[]),
        Err((ParseHeaderError::ParseCommandFailed, [0, 0, 0, 1, 0, 0]))
    );
}

#[test]
fn try_process_agrees_with_process_on_accepted_headers() {
    let stream = wire(ProtocolExampleCommands::Continue, b"abc");
    let mut one = ProtocolBuffer::<ProtocolExample>::new();
    let mut other = ProtocolBuffer::<ProtocolExample>::new();
    for chunk in stream.chunks(2) {
        assert_eq!(one.try_process_new_buffer(chunk), Ok(other.process_new_buffer(chunk)));
    }
    assert_eq!(one.staging(), other.staging());
}

#[test]
fn busy_state_starts_idle_and_follows_updates() {
    let mut buffer = ProtocolBuffer::<ProtocolExample>::new();
    assert_eq!(*buffer.get_busy_state(), ProtocolExampleStates::WaitingForRequest);
    assert_eq!(*buffer.get_busy_state(), ProtocolExample::idle());
    assert_eq!(buffer.process_new_buffer(&[0, 0, 2, 0, 0, 1, 5]), None);
    buffer.update_busy_state(ProtocolExampleStates::Working(vec![0xAB]));
    assert_eq!(*buffer.get_busy_state(), ProtocolExampleStates::Working(vec![0xAB]));
    // the bytes held are not touched by the update
    assert_eq!(buffer.pending_header(), Some((ProtocolExampleCommands::Start, 2)));
    assert_eq!(buffer.assembled_payload(), &[5]);
    assert_eq!(
        buffer.process_new_buffer(&[6]),
        Some((ProtocolExampleCommands::Start, vec![5, 6]))
    );
}

use ecs_pty::relay::{read_outcome, ReadOutcome, RelayAction, RelayChannel, StopReason, RELAY_BUFFER_SIZE};

fn feed(ch: &mut RelayChannel, chunks: &[&[u8]]) -> Vec<u8> {
    let mut out = Vec::new();
    for c in chunks {
        match ch.on_read(ReadOutcome::Data(c.to_vec())) {
            RelayAction::Forward(bytes) => out.extend_from_slice(&bytes),
            RelayAction::Stop => panic!("relay stopped while data was offered"),
        }
    }
    out
}

#[test]
fn invalid_utf8_and_split_sequences_pass_unchanged() {
    let input: Vec<u8> = vec![0xff, 0xfe, b'a', 0xe2, 0x82, 0xac, 0x1b, b'[', b'A', 0xc3, 0x00, 0x80];
    let mut ch = RelayChannel::new();
    let out = feed(&mut ch, &[&input[0..1], &input[1..4], &input[4..5], &input[5..]]);
    assert_eq!(out, input);
    assert!(ch.is_running());
}

#[test]
fn end_of_stream_stops_after_one_read() {
    let mut ch = RelayChannel::new();
    assert!(matches!(ch.on_read(ReadOutcome::EndOfStream), RelayAction::Stop));
    assert!(!ch.is_running());
    assert_eq!(ch.stopped(), Some(StopReason::EndOfStream));
    assert!(matches!(ch.on_read(ReadOutcome::Data(vec![1])), RelayAction::Stop));
}

#[test]
fn failed_read_stops_with_error() {
    let mut ch = RelayChannel::new();
    feed(&mut ch, &[b"ls\r"]);
    assert!(matches!(ch.on_read(ReadOutcome::Failed), RelayAction::Stop));
    assert_eq!(ch.stopped(), Some(StopReason::IoError));
}

#[test]
fn failed_write_stops_but_keeps_earlier_reason() {
    let mut ch = RelayChannel::new();
    ch.on_write_failed();
    assert_eq!(ch.stopped(), Some(StopReason::IoError));
    let mut ch2 = RelayChannel::new();
    ch2.on_read(ReadOutcome::EndOfStream);
    ch2.on_write_failed();
    assert_eq!(ch2.stopped(), Some(StopReason::EndOfStream));
}

#[test]
fn read_count_selects_prefix_of_buffer() {
    let mut buf = [0u8; RELAY_BUFFER_SIZE];
    buf[0] = 0xf0;
    buf[1] = 0x9f;
    buf[2] = 7;
    match read_outcome(&buf, 2) {
        ReadOutcome::Data(b) => assert_eq!(b, vec![0xf0, 0x9f]),
        _ => panic!("expected data"),
    }
    assert!(matches!(read_outcome(&buf, 0), ReadOutcome::EndOfStream));
    match read_outcome(&buf, RELAY_BUFFER_SIZE) {
        ReadOutcome::Data(b) => assert_eq!(b.len(), 1024),
        _ => panic!("expected data"),
    }
}

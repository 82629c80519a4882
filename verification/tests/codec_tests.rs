use pty_exec::codec::{
    decode_errno, decode_monitor_message, decode_parent_message, encode_errno,
    encode_monitor_message, encode_parent_message, frame_payload_len, FrameFault,
};
use pty_exec::messages::{MonitorMessage, ParentMessage};

#[test]
fn monitor_messages_round_trip() {
    let msgs = vec![
        MonitorMessage::ExecCommand,
        MonitorMessage::Signal(2),
        MonitorMessage::Signal(-2),
        MonitorMessage::Signal(i32::MAX),
        MonitorMessage::Signal(i32::MIN),
        MonitorMessage::Signal(0),
    ];
    for m in msgs {
        let frame = encode_monitor_message(&m);
        assert_eq!(decode_monitor_message(&frame), Ok(m));
    }
}

#[test]
fn parent_messages_round_trip() {
    let msgs = vec![
        ParentMessage::CommandPid(12345),
        ParentMessage::CommandExit(0),
        ParentMessage::CommandExit(42),
        ParentMessage::CommandSignal(15),
        ParentMessage::CommandStatus(0x137f),
        ParentMessage::IoError(2),
        ParentMessage::ShortRead,
    ];
    for m in msgs {
        let frame = encode_parent_message(&m);
        assert_eq!(decode_parent_message(&frame), Ok(m));
    }
}

#[test]
fn exec_command_frame_is_two_bytes() {
    let frame = encode_monitor_message(&MonitorMessage::ExecCommand);
    assert_eq!(frame, vec![0u8, 0u8]);
}

#[test]
fn signal_frame_layout_is_little_endian() {
    let frame = encode_monitor_message(&MonitorMessage::Signal(0x0102_0304));
    assert_eq!(frame, vec![4u8, 1u8, 0x04, 0x03, 0x02, 0x01]);
}

#[test]
fn short_frame_is_underflow() {
    assert_eq!(decode_monitor_message(&vec![]), Err(FrameFault::Underflow));
    assert_eq!(decode_monitor_message(&vec![4u8]), Err(FrameFault::Underflow));
    assert_eq!(
        decode_monitor_message(&vec![4u8, 1u8, 0x00]),
        Err(FrameFault::Underflow)
    );
    assert_eq!(decode_parent_message(&vec![4u8, 0u8, 1, 2]), Err(FrameFault::Underflow));
}

#[test]
fn bad_tag_or_length_is_malformed() {
    // Unknown tag.
    assert_eq!(decode_monitor_message(&vec![0u8, 9u8]), Err(FrameFault::Malformed));
    assert_eq!(decode_parent_message(&vec![0u8, 9u8]), Err(FrameFault::Malformed));
    // Length that does not fit the tag.
    assert_eq!(decode_monitor_message(&vec![1u8, 0u8, 0u8]), Err(FrameFault::Malformed));
    // Trailing garbage after a whole frame.
    assert_eq!(
        decode_monitor_message(&vec![0u8, 0u8, 0u8]),
        Err(FrameFault::Malformed)
    );
}

#[test]
fn errno_frame_is_exactly_four_bytes() {
    let frame = encode_errno(2);
    assert_eq!(frame, vec![2u8, 0u8, 0u8, 0u8]);
    assert_eq!(decode_errno(&frame), 2);
    let frame = encode_errno(-1);
    assert_eq!(frame.len(), 4);
    assert_eq!(decode_errno(&frame), -1);
}

#[test]
fn a_decodable_frame_has_exactly_one_spelling() {
    let frame = vec![4u8, 2u8, 0x0f, 0x00, 0x00, 0x00];
    let m = decode_parent_message(&frame).unwrap();
    assert_eq!(m, ParentMessage::CommandSignal(15));
    assert_eq!(encode_parent_message(&m), frame);
}

#[test]
fn payload_length_follows_header() {
    assert_eq!(frame_payload_len(0), 0);
    assert_eq!(frame_payload_len(4), 4);
    assert_eq!(frame_payload_len(255), 255);
}

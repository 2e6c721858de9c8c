use icm_ipc::error::IpcError;
use icm_ipc::header::IcmIpcHeader;
use icm_ipc::registry::IcmIpcMsgType;
use icm_ipc::session::Session;

#[test]
fn header_serialize_is_little_endian() {
    let h = IcmIpcHeader {
        length: 0x01020304,
        msg_type: 0x0506,
        flags: 0x0708,
        sequence: 0x090a0b0c,
        num_fds: 2,
    };
    let bytes = h.serialize();
    assert_eq!(
        bytes,
        vec![
            0x04, 0x03, 0x02, 0x01, // length
            0x06, 0x05, // msg_type
            0x08, 0x07, // flags
            0x0c, 0x0b, 0x0a, 0x09, // sequence
            0x02, 0x00, 0x00, 0x00, // num_fds
        ]
    );
}

#[test]
fn header_roundtrip() {
    let h = IcmIpcHeader {
        length: 44,
        msg_type: 1,
        flags: 0,
        sequence: 7,
        num_fds: -1,
    };
    let bytes = h.serialize();
    let (h2, n) = IcmIpcHeader::deserialize(&bytes).unwrap();
    assert_eq!(n, 16);
    assert_eq!(h2, h);
}

#[test]
fn header_deserialize_short_input_fails() {
    let bytes = [0u8; 15];
    assert_eq!(IcmIpcHeader::deserialize(&bytes), Err(IpcError::UnexpectedEnd));
}

#[test]
fn header_new_sets_reserved_fields_to_zero() {
    let h = IcmIpcHeader::new(IcmIpcMsgType::DrawRect, 24);
    assert_eq!(h.length, 40);
    assert_eq!(h.msg_type, 6);
    assert_eq!(h.flags, 0);
    assert_eq!(h.sequence, 0);
    assert_eq!(h.num_fds, 0);
}

#[test]
fn frame_header_declares_total_length() {
    let session = Session::new();
    let payload = vec![0xAAu8; 24];
    let frame = session.frame_message(IcmIpcMsgType::DrawRect, &payload).unwrap();
    assert_eq!(frame.len(), 16 + 24);
    let (h, _) = IcmIpcHeader::deserialize(&frame).unwrap();
    assert_eq!(h.length as usize, 16 + payload.len());
    assert_eq!(h.msg_type, 6);
    assert_eq!(&frame[16..], &payload[..]);
}

#[test]
fn frame_empty_payload() {
    let session = Session::new();
    let frame = session.frame_message(IcmIpcMsgType::CompositorShutdown, &[]).unwrap();
    assert_eq!(frame.len(), 16);
    let (h, _) = IcmIpcHeader::deserialize(&frame).unwrap();
    assert_eq!(h.length, 16);
    assert_eq!(h.msg_type, 51);
}

#[test]
fn payload_len_of_short_header_is_framing_violation() {
    // a header that declares length 10 cannot even cover itself
    let session = Session::new();
    let h = IcmIpcHeader {
        length: 10,
        msg_type: 1,
        flags: 0,
        sequence: 0,
        num_fds: 0,
    };
    assert_eq!(session.payload_len(&h), Err(IpcError::FramingViolation));
}

#[test]
fn payload_len_subtracts_header_size() {
    let session = Session::new();
    let h = IcmIpcHeader {
        length: 44,
        msg_type: 1,
        flags: 0,
        sequence: 0,
        num_fds: 0,
    };
    assert_eq!(session.payload_len(&h), Ok(28));
}

#[test]
fn closed_session_refuses_send_and_receive() {
    let mut session = Session::new();
    assert!(session.is_open());
    session.close();
    assert!(!session.is_open());
    let r = session.frame_message(IcmIpcMsgType::DrawRect, &[0u8; 4]);
    assert_eq!(r, Err(IpcError::SessionClosed));
    let h = IcmIpcHeader {
        length: 20,
        msg_type: 6,
        flags: 0,
        sequence: 0,
        num_fds: 0,
    };
    assert_eq!(session.payload_len(&h), Err(IpcError::SessionClosed));
}

#[test]
fn transport_fault_closes_session() {
    let mut session = Session::new();
    session.note_transport_fault();
    assert!(!session.is_open());
}

use icm_ipc::error::IpcError;
use icm_ipc::header::IcmIpcHeader;
use icm_ipc::registry::{validate_header, IcmIpcMsgType, PayloadShape};
use icm_ipc::utf8::is_utf8;
use icm_ipc::{ICM_IPC_VERSION, ICM_MAX_FDS_PER_MSG, ICM_WINDOW_ID_ROOT};

fn header(length: u32, msg_type: u16, num_fds: i32) -> IcmIpcHeader {
    IcmIpcHeader { length, msg_type, flags: 0, sequence: 0, num_fds }
}

#[test]
fn constants() {
    assert_eq!(ICM_IPC_VERSION, 2);
    assert_eq!(ICM_MAX_FDS_PER_MSG, 4);
    assert_eq!(ICM_WINDOW_ID_ROOT, 0);
}

#[test]
fn message_ids_match_the_protocol_table() {
    assert_eq!(IcmIpcMsgType::CreateWindow.id(), 1);
    assert_eq!(IcmIpcMsgType::DrawRect.id(), 6);
    assert_eq!(IcmIpcMsgType::UploadImage.id(), 28);
    assert_eq!(IcmIpcMsgType::CompositorShutdown.id(), 51);
    assert_eq!(IcmIpcMsgType::SetWindowBlur.id(), 78);
    assert_eq!(IcmIpcMsgType::LaunchApp.id(), 93);
}

#[test]
fn out_of_sequence_ids_are_preserved() {
    // ids 58 and 59 sit between earlier-allocated ranges on purpose
    assert_eq!(IcmIpcMsgType::UnregisterGlobalCaptureKeyboard.id(), 58);
    assert_eq!(IcmIpcMsgType::UnregisterGlobalCaptureMouse.id(), 59);
    assert_eq!(IcmIpcMsgType::SetWindowPosition.id(), 47);
    assert_eq!(IcmIpcMsgType::SetWindowLayer.id(), 60);
}

#[test]
fn from_id_inverts_id() {
    for raw in 0u16..=200 {
        match IcmIpcMsgType::from_id(raw) {
            Some(t) => assert_eq!(t.id(), raw),
            None => assert!(raw == 0 || raw > 93),
        }
    }
}

#[test]
fn unknown_id_is_unregistered() {
    assert!(IcmIpcMsgType::from_id(0).is_none());
    assert!(IcmIpcMsgType::from_id(94).is_none());
    assert!(IcmIpcMsgType::from_id(0xFFFF).is_none());
}

#[test]
fn payload_shapes() {
    assert_eq!(IcmIpcMsgType::CreateWindow.payload_shape(), PayloadShape::Exact(28));
    assert_eq!(IcmIpcMsgType::SetScreenEffect.payload_shape(), PayloadShape::Exact(257));
    assert_eq!(IcmIpcMsgType::UploadImage.payload_shape(), PayloadShape::AtLeast(20));
    assert_eq!(IcmIpcMsgType::QueryMonitors.payload_shape(), PayloadShape::Exact(0));
    assert_eq!(IcmIpcMsgType::DrawLine.payload_shape(), PayloadShape::Unspecified);
}

#[test]
fn validate_header_accepts_exact_size() {
    let h = header(16 + 28, 1, 0);
    assert_eq!(validate_header(&h), Ok(28));
}

#[test]
fn validate_header_rejects_wrong_fixed_size() {
    let h = header(16 + 27, 1, 0);
    assert_eq!(validate_header(&h), Err(IpcError::FramingViolation));
}

#[test]
fn validate_header_rejects_short_length() {
    let h = header(10, 1, 0);
    assert_eq!(validate_header(&h), Err(IpcError::FramingViolation));
}

#[test]
fn validate_header_rejects_bad_fd_count() {
    assert_eq!(validate_header(&header(16, 51, 5)), Err(IpcError::FramingViolation));
    assert_eq!(validate_header(&header(16, 51, -1)), Err(IpcError::FramingViolation));
    assert_eq!(validate_header(&header(16, 51, 4)), Ok(0));
}

#[test]
fn validate_header_rejects_unknown_type() {
    let h = header(16, 0, 0);
    assert_eq!(validate_header(&h), Err(IpcError::UnknownMessageType));
    let h = header(16, 99, 0);
    assert_eq!(validate_header(&h), Err(IpcError::UnknownMessageType));
}

#[test]
fn validate_header_minimum_size_for_variable_types() {
    assert_eq!(validate_header(&header(16 + 19, 28, 0)), Err(IpcError::FramingViolation));
    assert_eq!(validate_header(&header(16 + 20, 28, 0)), Ok(20));
    assert_eq!(validate_header(&header(16 + 500, 28, 0)), Ok(500));
}

#[test]
fn utf8_checker_agrees_with_std() {
    let cases: Vec<Vec<u8>> = vec![
        b"".to_vec(),
        b"plain ascii".to_vec(),
        "héllo wörld".as_bytes().to_vec(),
        "日本語テキスト".as_bytes().to_vec(),
        "𝄞 musical".as_bytes().to_vec(),
        vec![0xC0, 0xAF],             // overlong slash
        vec![0xC2],                   // truncated two-byte form
        vec![0xE0, 0x80, 0x80],       // overlong three-byte form
        vec![0xED, 0xA0, 0x80],       // surrogate
        vec![0xED, 0x9F, 0xBF],       // just below the surrogates
        vec![0xEE, 0x80, 0x80],       // private use, valid
        vec![0xF0, 0x8F, 0xBF, 0xBF], // overlong four-byte form
        vec![0xF0, 0x90, 0x80, 0x80], // smallest four-byte scalar
        vec![0xF4, 0x8F, 0xBF, 0xBF], // largest scalar value
        vec![0xF4, 0x90, 0x80, 0x80], // above the largest scalar
        vec![0xF5, 0x80, 0x80, 0x80], // invalid leading byte
        vec![0x80],                   // lone continuation
        vec![0x61, 0xC3],             // valid prefix, truncated tail
        vec![0xE2, 0x82, 0xAC, 0x00, 0x7F], // euro sign plus controls
    ];
    for case in cases {
        assert_eq!(
            is_utf8(&case),
            std::str::from_utf8(&case).is_ok(),
            "disagreement on {:?}",
            case
        );
    }
}

use icm_ipc::draw_msgs::{IcmMsgDrawRect, IcmMsgDrawUploadedImage};
use icm_ipc::error::IpcError;
use icm_ipc::header::IcmIpcHeader;
use icm_ipc::input_msgs::{IcmMsgPointerEvent, IcmMsgRegisterGlobalPointerEvent};
use icm_ipc::query_msgs::{IcmMsgWindowAttributesData, IcmMsgWindowStateData};
use icm_ipc::registry::IcmIpcMsgType;
use icm_ipc::session::Session;
use icm_ipc::window_msgs::{
    IcmMsgAnimateWindow, IcmMsgCreateWindow, IcmMsgSetWindowMatrix, IcmMsgSetWindowOpacity,
    IcmMsgSetWindowVisible, IcmMsgWindowCreated,
};

#[test]
fn create_window_wire_bytes() {
    // the seven fields in declared order, each little-endian
    let m = IcmMsgCreateWindow {
        window_id: 1,
        x: 10,
        y: 20,
        width: 640,
        height: 480,
        layer: 0,
        color_rgba: 0xFF0000FF,
    };
    let payload = m.serialize();
    assert_eq!(
        payload,
        vec![
            0x01, 0x00, 0x00, 0x00, // window_id
            0x0a, 0x00, 0x00, 0x00, // x
            0x14, 0x00, 0x00, 0x00, // y
            0x80, 0x02, 0x00, 0x00, // width
            0xe0, 0x01, 0x00, 0x00, // height
            0x00, 0x00, 0x00, 0x00, // layer
            0xff, 0x00, 0x00, 0xff, // color_rgba
        ]
    );
    let session = Session::new();
    let frame = session.frame_message(IcmIpcMsgType::CreateWindow, &payload).unwrap();
    let (h, _) = IcmIpcHeader::deserialize(&frame).unwrap();
    assert_eq!(h.length as usize, 16 + payload.len());
    assert_eq!(h.msg_type, 1);
}

#[test]
fn create_window_roundtrip() {
    let m = IcmMsgCreateWindow {
        window_id: 9,
        x: -5,
        y: -20,
        width: 1,
        height: 2,
        layer: 3,
        color_rgba: 0xDEADBEEF,
    };
    let bytes = m.serialize();
    let (m2, n) = IcmMsgCreateWindow::deserialize(&bytes).unwrap();
    assert_eq!(n, 28);
    assert_eq!(m2, m);
}

#[test]
fn fixed_record_rejects_short_input() {
    let bytes = [0u8; 23];
    assert_eq!(IcmMsgDrawRect::deserialize(&bytes), Err(IpcError::UnexpectedEnd));
}

#[test]
fn negative_coordinates_roundtrip() {
    let m = IcmMsgPointerEvent {
        window_id: 4,
        time: 123456,
        button: 1,
        state: 0,
        x: -2147483648,
        y: 2147483647,
    };
    let bytes = m.serialize();
    let (m2, _) = IcmMsgPointerEvent::deserialize(&bytes).unwrap();
    assert_eq!(m2, m);
}

#[test]
fn bool_fields_encode_as_one_byte() {
    let m = IcmMsgSetWindowVisible { window_id: 3, visible: true };
    let bytes = m.serialize();
    assert_eq!(bytes, vec![0x03, 0x00, 0x00, 0x00, 0x01]);
    let m = IcmMsgSetWindowVisible { window_id: 3, visible: false };
    let bytes = m.serialize();
    assert_eq!(bytes, vec![0x03, 0x00, 0x00, 0x00, 0x00]);
}

#[test]
fn bool_decode_accepts_any_nonzero_byte() {
    let bytes = [0x03, 0x00, 0x00, 0x00, 0x7F];
    let (m, _) = IcmMsgSetWindowVisible::deserialize(&bytes).unwrap();
    assert!(m.visible);
}

#[test]
fn two_bool_tail_roundtrip() {
    let m = IcmMsgWindowCreated {
        window_id: 8,
        width: 800,
        height: 600,
        decorated: true,
        focused: false,
    };
    let bytes = m.serialize();
    assert_eq!(bytes.len(), 14);
    let (m2, _) = IcmMsgWindowCreated::deserialize(&bytes).unwrap();
    assert_eq!(m2, m);
}

#[test]
fn u8_field_roundtrip() {
    let m = IcmMsgDrawUploadedImage {
        window_id: 1,
        image_id: 2,
        x: -3,
        y: 4,
        width: 5,
        height: 6,
        src_x: 7,
        src_y: 8,
        src_width: 9,
        src_height: 10,
        alpha: 0xCC,
    };
    let bytes = m.serialize();
    assert_eq!(bytes.len(), 41);
    let (m2, _) = IcmMsgDrawUploadedImage::deserialize(&bytes).unwrap();
    assert_eq!(m2, m);
}

#[test]
fn float_bits_roundtrip() {
    let m = IcmMsgSetWindowOpacity {
        window_id: 12,
        opacity: 0.5f32.to_bits(),
    };
    let bytes = m.serialize();
    assert_eq!(&bytes[4..8], &0.5f32.to_le_bytes());
    let (m2, _) = IcmMsgSetWindowOpacity::deserialize(&bytes).unwrap();
    assert_eq!(f32::from_bits(m2.opacity), 0.5);
}

#[test]
fn attributes_data_roundtrip() {
    let m = IcmMsgWindowAttributesData {
        window_id: 2,
        visible: true,
        opacity: 1.0f32.to_bits(),
        scale_x: 2.0f32.to_bits(),
        scale_y: 0.25f32.to_bits(),
        rotation: 90.0f32.to_bits(),
    };
    let bytes = m.serialize();
    assert_eq!(bytes.len(), 21);
    let (m2, _) = IcmMsgWindowAttributesData::deserialize(&bytes).unwrap();
    assert_eq!(m2, m);
}

#[test]
fn state_data_roundtrip() {
    let m = IcmMsgWindowStateData { window_id: 1, state: 4, focused: true };
    let bytes = m.serialize();
    assert_eq!(bytes.len(), 9);
    let (m2, _) = IcmMsgWindowStateData::deserialize(&bytes).unwrap();
    assert_eq!(m2, m);
}

#[test]
fn animate_window_roundtrip() {
    let m = IcmMsgAnimateWindow {
        window_id: 44,
        duration_ms: 300,
        target_x: 10.0f32.to_bits(),
        target_y: 20.0f32.to_bits(),
        target_scale_x: 1.0f32.to_bits(),
        target_scale_y: 1.0f32.to_bits(),
        target_opacity: 0.8f32.to_bits(),
        target_translate_x: 0.0f32.to_bits(),
        target_translate_y: 0.0f32.to_bits(),
        target_translate_z: 0.0f32.to_bits(),
        target_rotate_x: 0.0f32.to_bits(),
        target_rotate_y: 0.0f32.to_bits(),
        target_rotate_z: 45.0f32.to_bits(),
        target_scale_z: 1.0f32.to_bits(),
        flags: 1,
    };
    let bytes = m.serialize();
    assert_eq!(bytes.len(), 60);
    let (m2, n) = IcmMsgAnimateWindow::deserialize(&bytes).unwrap();
    assert_eq!(n, 60);
    assert_eq!(m2, m);
}

#[test]
fn window_matrix_roundtrip() {
    let matrix: Vec<u32> = (0..16).map(|i| (i as f32).to_bits()).collect();
    let m = IcmMsgSetWindowMatrix { window_id: 5, matrix: matrix.clone() };
    let bytes = m.serialize();
    assert_eq!(bytes.len(), 68);
    let (m2, n) = IcmMsgSetWindowMatrix::deserialize(&bytes).unwrap();
    assert_eq!(n, 68);
    assert_eq!(m2.window_id, 5);
    assert_eq!(m2.matrix, matrix);
}

#[test]
fn empty_payload_types() {
    let m = IcmMsgRegisterGlobalPointerEvent;
    assert_eq!(m.serialize(), Vec::<u8>::new());
    let (_, n) = IcmMsgRegisterGlobalPointerEvent::deserialize(&[]).unwrap();
    assert_eq!(n, 0);
}

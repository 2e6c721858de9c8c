use icm_ipc::buffer_msgs::{IcmMsgScreenCopyData, IcmMsgUploadImage};
use icm_ipc::control_msgs::IcmMsgLaunchApp;
use icm_ipc::draw_msgs::IcmMsgDrawText;
use icm_ipc::effect_msgs::{IcmMsgSetScreenEffect, IcmMsgSetWindowEffect};
use icm_ipc::error::IpcError;
use icm_ipc::monitor_msgs::{IcmMonitorInfo, IcmMsgMonitorsData};
use icm_ipc::query_msgs::IcmMsgWindowInfoData;

fn sample_monitor(name: &str) -> IcmMonitorInfo {
    IcmMonitorInfo {
        x: 0,
        y: -1080,
        width: 1920,
        height: 1080,
        physical_width: 527,
        physical_height: 296,
        refresh_rate: 60000,
        scale: 1.5f32.to_bits(),
        enabled: true,
        primary: false,
        name: name.as_bytes().to_vec(),
    }
}

#[test]
fn upload_image_roundtrip() {
    // image data of sixteen zero bytes survives the trip unchanged
    let m = IcmMsgUploadImage {
        image_id: 5,
        width: 2,
        height: 2,
        format: 0,
        data: vec![0u8; 16],
    };
    let bytes = m.serialize();
    assert_eq!(bytes.len(), 20 + 16);
    let (m2, n) = IcmMsgUploadImage::deserialize(&bytes).unwrap();
    assert_eq!(n, 36);
    assert_eq!(m2.data.len(), 16);
    assert!(m2.data.iter().all(|&b| b == 0));
    assert_eq!(m2, m);
}

#[test]
fn upload_image_count_matches_bytes() {
    let m = IcmMsgUploadImage {
        image_id: 1,
        width: 1,
        height: 1,
        format: 7,
        data: vec![1, 2, 3],
    };
    let bytes = m.serialize();
    // the u32 byte count precedes the raw bytes
    assert_eq!(&bytes[16..20], &[3, 0, 0, 0]);
    assert_eq!(&bytes[20..], &[1, 2, 3]);
}

#[test]
fn upload_image_truncated_data_fails() {
    let m = IcmMsgUploadImage {
        image_id: 1,
        width: 1,
        height: 1,
        format: 0,
        data: vec![9u8; 8],
    };
    let mut bytes = m.serialize();
    bytes.pop();
    assert_eq!(IcmMsgUploadImage::deserialize(&bytes), Err(IpcError::UnexpectedEnd));
}

#[test]
fn screen_copy_data_roundtrip() {
    let m = IcmMsgScreenCopyData {
        request_id: 77,
        width: 2,
        height: 1,
        format: 1,
        data: vec![0xAB, 0xCD, 0xEF, 0x01, 0x23, 0x45, 0x67, 0x89],
    };
    let bytes = m.serialize();
    let (m2, _) = IcmMsgScreenCopyData::deserialize(&bytes).unwrap();
    assert_eq!(m2, m);
}

#[test]
fn draw_text_roundtrip() {
    let m = IcmMsgDrawText {
        window_id: 1,
        x: 30,
        y: 40,
        color_rgba: 0xFFFFFFFF,
        font_size: 14,
        text: "héllo wörld".as_bytes().to_vec(),
    };
    let bytes = m.serialize();
    let (m2, n) = IcmMsgDrawText::deserialize(&bytes).unwrap();
    assert_eq!(n, bytes.len());
    assert_eq!(m2, m);
}

#[test]
fn empty_string_encodes_as_single_zero_byte() {
    let m = IcmMsgDrawText {
        window_id: 0,
        x: 0,
        y: 0,
        color_rgba: 0,
        font_size: 0,
        text: Vec::new(),
    };
    let bytes = m.serialize();
    // the string part of the payload is exactly one 0x00 terminator
    assert_eq!(bytes.len(), 21);
    assert_eq!(bytes[20], 0);
    let (m2, _) = IcmMsgDrawText::deserialize(&bytes).unwrap();
    assert_eq!(m2.text, Vec::<u8>::new());
}

#[test]
fn draw_text_invalid_utf8_rejected() {
    let mut bytes = vec![0u8; 20];
    bytes.extend_from_slice(&[0xFF, 0xFE]);
    bytes.push(0);
    assert_eq!(IcmMsgDrawText::deserialize(&bytes), Err(IpcError::InvalidUtf8));
}

#[test]
fn draw_text_missing_terminator_rejected() {
    let mut bytes = vec![0u8; 20];
    bytes.extend_from_slice(b"abc");
    assert_eq!(IcmMsgDrawText::deserialize(&bytes), Err(IpcError::UnexpectedEnd));
}

#[test]
fn screen_effect_truncates_long_equation() {
    // 300 bytes of input: the field keeps exactly the first 256
    let equation: Vec<u8> = vec![b'a'; 300];
    let m = IcmMsgSetScreenEffect { equation: equation.clone(), enabled: true };
    let bytes = m.serialize();
    assert_eq!(bytes.len(), 257);
    assert_eq!(&bytes[..256], &equation[..256]);
    assert_eq!(bytes[256], 0x01);
}

#[test]
fn screen_effect_pads_short_equation() {
    let m = IcmMsgSetScreenEffect { equation: b"x+y".to_vec(), enabled: false };
    let bytes = m.serialize();
    assert_eq!(bytes.len(), 257);
    assert_eq!(&bytes[..3], b"x+y");
    assert!(bytes[3..256].iter().all(|&b| b == 0));
    assert_eq!(bytes[256], 0x00);
    let (m2, n) = IcmMsgSetScreenEffect::deserialize(&bytes).unwrap();
    assert_eq!(n, 257);
    assert_eq!(m2.equation, b"x+y".to_vec());
    assert!(!m2.enabled);
}

#[test]
fn padded_decode_strips_all_trailing_zeros() {
    // a value that itself ends in zeros loses them: stripping never stops
    // early
    let mut field = vec![0u8; 256];
    field[0] = b'z';
    field[1] = 0;
    field[2] = b'q';
    // bytes 3..256 stay zero
    let mut bytes = field.clone();
    bytes.push(1);
    let (m, _) = IcmMsgSetScreenEffect::deserialize(&bytes).unwrap();
    assert_eq!(m.equation, vec![b'z', 0, b'q']);
}

#[test]
fn window_effect_roundtrip() {
    let m = IcmMsgSetWindowEffect {
        window_id: 6,
        equation: b"sin(t)".to_vec(),
        enabled: true,
    };
    let bytes = m.serialize();
    assert_eq!(bytes.len(), 261);
    let (m2, _) = IcmMsgSetWindowEffect::deserialize(&bytes).unwrap();
    assert_eq!(m2, m);
}

#[test]
fn window_info_roundtrip() {
    let m = IcmMsgWindowInfoData {
        window_id: 10,
        x: -4,
        y: 8,
        width: 300,
        height: 200,
        visible: true,
        opacity: 1.0f32.to_bits(),
        scale_x: 1.0f32.to_bits(),
        scale_y: 1.0f32.to_bits(),
        rotation: 0.0f32.to_bits(),
        layer: -1,
        parent_id: 0,
        state: 2,
        focused: false,
        pid: 4242,
        process_name: b"compositor-shell".to_vec(),
    };
    let bytes = m.serialize();
    let (m2, n) = IcmMsgWindowInfoData::deserialize(&bytes).unwrap();
    assert_eq!(n, bytes.len());
    assert_eq!(m2, m);
}

#[test]
fn empty_monitor_list_is_four_zero_bytes() {
    let m = IcmMsgMonitorsData { monitors: Vec::new() };
    let bytes = m.serialize();
    assert_eq!(bytes, vec![0, 0, 0, 0]);
    let (m2, n) = IcmMsgMonitorsData::deserialize(&bytes).unwrap();
    assert_eq!(n, 4);
    assert!(m2.monitors.is_empty());
}

#[test]
fn monitor_list_roundtrip() {
    let m = IcmMsgMonitorsData {
        monitors: vec![sample_monitor("DP-1"), sample_monitor("HDMI-A-2")],
    };
    let bytes = m.serialize();
    assert_eq!(bytes.len(), 4 + 2 * 66);
    let (m2, n) = IcmMsgMonitorsData::deserialize(&bytes).unwrap();
    assert_eq!(n, bytes.len());
    assert_eq!(m2, m);
}

#[test]
fn monitor_name_truncated_to_32_bytes() {
    let long = "a-very-long-monitor-name-that-overflows-the-field";
    let mon = sample_monitor(long);
    let bytes = mon.serialize();
    assert_eq!(bytes.len(), 66);
    assert_eq!(&bytes[34..66], &long.as_bytes()[..32]);
    let (mon2, _) = IcmMonitorInfo::deserialize(&bytes).unwrap();
    assert_eq!(mon2.name, long.as_bytes()[..32].to_vec());
}

#[test]
fn monitor_list_truncated_record_fails() {
    let m = IcmMsgMonitorsData { monitors: vec![sample_monitor("eDP-1")] };
    let mut bytes = m.serialize();
    bytes.truncate(bytes.len() - 1);
    assert_eq!(IcmMsgMonitorsData::deserialize(&bytes), Err(IpcError::UnexpectedEnd));
}

#[test]
fn launch_app_wire_form() {
    let m = IcmMsgLaunchApp { command: b"term --fullscreen".to_vec() };
    let bytes = m.serialize();
    let n = m.command.len();
    assert_eq!(bytes.len(), 5 + n);
    assert_eq!(&bytes[..4], &((n as u32 + 1).to_le_bytes()));
    assert_eq!(&bytes[4..4 + n], m.command.as_slice());
    assert_eq!(bytes[4 + n], 0);
    let (m2, used) = IcmMsgLaunchApp::deserialize(&bytes).unwrap();
    assert_eq!(used, bytes.len());
    assert_eq!(m2, m);
}

#[test]
fn launch_app_missing_terminator_rejected() {
    let mut bytes = Vec::new();
    bytes.extend_from_slice(&4u32.to_le_bytes());
    bytes.extend_from_slice(b"abcd");
    assert_eq!(IcmMsgLaunchApp::deserialize(&bytes), Err(IpcError::FramingViolation));
}

#[test]
fn launch_app_zero_count_rejected() {
    let bytes = 0u32.to_le_bytes();
    assert_eq!(IcmMsgLaunchApp::deserialize(&bytes), Err(IpcError::FramingViolation));
}

use touchhle::capture::{
    camera_check_message, camera_frame_from_payload, check_camera_header, nv21_to_rgba,
    CameraHeader, CameraHeaderCheck,
};
use touchhle::capture_clock::{capture_timestamp_from_nanos, native_capture_timestamp};
use touchhle::capture_status::{
    camera_status_available, capture_log_due, microphone_status_available, status_has_line,
};
use touchhle::microphone::{microphone_buffer_len, reset_microphone_cursor, MicrophoneCursor};

fn header(magic: u32, width: u32, height: u32, timestamp: u64, payload_len: u32) -> Vec<u8> {
    let mut bytes = Vec::new();
    bytes.extend_from_slice(&magic.to_le_bytes());
    bytes.extend_from_slice(&width.to_le_bytes());
    bytes.extend_from_slice(&height.to_le_bytes());
    bytes.extend_from_slice(&timestamp.to_le_bytes());
    bytes.extend_from_slice(&payload_len.to_le_bytes());
    bytes
}

#[test]
fn nv21_conversion_of_a_two_by_two_frame() {
    let rgba = nv21_to_rgba(2, 2, &[16, 235, 128, 81, 200, 60]);
    assert_eq!(
        rgba,
        vec![0, 0, 115, 255, 118, 223, 255, 255, 0, 98, 245, 255, 0, 44, 191, 255]
    );
}

#[test]
fn nv21_conversion_without_chroma_uses_neutral_chroma() {
    assert_eq!(nv21_to_rgba(2, 1, &[100, 50]), vec![98, 98, 98, 255, 40, 40, 40, 255]);
    assert_eq!(nv21_to_rgba(1, 1, &[0]), vec![0, 0, 0, 255]);
}

#[test]
fn header_with_wrong_magic_is_refused() {
    let h = header(0x1234_5678, 2, 2, 7, 6);
    let check = check_camera_header(&h, 0);
    assert_eq!(check, CameraHeaderCheck::BadMagic);
    assert_eq!(
        camera_check_message(check),
        Some("Native camera capture file has an invalid header; ignoring it")
    );
}

#[test]
fn header_with_overflowing_size_is_ignored_silently() {
    let h = header(0x5248_4346, u32::MAX, u32::MAX, 7, 6);
    let check = check_camera_header(&h, 0);
    assert_eq!(check, CameraHeaderCheck::SizeOverflow);
    assert_eq!(camera_check_message(check), None);
}

#[test]
fn header_with_inconsistent_sizes_is_refused() {
    for h in [
        header(0x5248_4346, 0, 2, 7, 0),
        header(0x5248_4346, 2, 0, 7, 0),
        header(0x5248_4346, 2, 2, 7, 5),
        header(0x5248_4346, 4096, 4096, 7, 25_165_824),
    ] {
        let check = check_camera_header(&h, 0);
        assert_eq!(check, CameraHeaderCheck::BadDimensions);
        assert_eq!(
            camera_check_message(check),
            Some("Native camera capture file has invalid dimensions; ignoring it")
        );
    }
}

#[test]
fn header_of_the_last_frame_is_unchanged() {
    let h = header(0x5248_4346, 2, 2, 7, 6);
    assert_eq!(check_camera_header(&h, 7), CameraHeaderCheck::Unchanged);
    assert_eq!(camera_check_message(CameraHeaderCheck::Unchanged), None);
}

#[test]
fn new_frame_is_ready_then_unchanged() {
    let h = header(0x5248_4346, 2, 2, 7, 6);
    let check = check_camera_header(&h, 3);
    let expected = CameraHeader { width: 2, height: 2, timestamp: 7, payload_len: 6 };
    assert_eq!(check, CameraHeaderCheck::Ready(expected));
    let frame = camera_frame_from_payload(expected, &[16, 235, 128, 81, 200, 60]);
    assert_eq!((frame.width, frame.height, frame.timestamp), (2, 2, 7));
    assert_eq!(frame.rgba, nv21_to_rgba(2, 2, &[16, 235, 128, 81, 200, 60]));
    assert_eq!(check_camera_header(&h, frame.timestamp), CameraHeaderCheck::Unchanged);
}

#[test]
fn largest_allowed_payload_is_accepted() {
    let h = header(0x5248_4346, 4096, 2730, 1, 16_773_120);
    assert!(matches!(check_camera_header(&h, 0), CameraHeaderCheck::Ready(_)));
}

#[test]
fn status_lines_are_matched_whole() {
    assert!(camera_status_available("camera=1\nmicrophone=0\n"));
    assert!(!microphone_status_available("camera=1\nmicrophone=0\n"));
    assert!(microphone_status_available("camera=0\r\nmicrophone=1"));
    assert!(camera_status_available("camera=1\r\n"));
    assert!(!camera_status_available("camera=10\n"));
    assert!(!camera_status_available(" camera=1"));
    assert!(!camera_status_available(""));
    assert!(status_has_line("a\n\nb", ""));
    assert!(!status_has_line("camera=1\r", "camera=1"));
}

#[test]
fn capture_warning_is_rate_limited() {
    assert!(capture_log_due(None));
    assert!(!capture_log_due(Some(0)));
    assert!(!capture_log_due(Some(9_999_999_999)));
    assert!(capture_log_due(Some(10_000_000_000)));
}

#[test]
fn capture_timestamp_keeps_low_bits() {
    assert_eq!(capture_timestamp_from_nanos(5), 5);
    assert_eq!(capture_timestamp_from_nanos((1u128 << 64) + 9), 9);
    assert!(native_capture_timestamp() > 0);
}

#[test]
fn microphone_cursor_restarts_after_the_header() {
    let mut cursor = MicrophoneCursor::new();
    assert_eq!(cursor.offset, 16);
    assert_eq!(cursor.read_start(100), 16);
    cursor.advance(50);
    assert_eq!(cursor.offset, 66);
    assert_eq!(cursor.read_start(100), 66);
    assert_eq!(cursor.read_start(40), 16);
    cursor.advance(30);
    assert_eq!(cursor.read_start(8), 16);
    cursor.offset = u64::MAX;
    cursor.advance(3);
    assert_eq!(cursor.offset, 2);
    reset_microphone_cursor(&mut cursor);
    assert_eq!(cursor.offset, 16);
}

#[test]
fn microphone_buffer_holds_at_least_one_sample() {
    assert_eq!(microphone_buffer_len(0), 2);
    assert_eq!(microphone_buffer_len(1), 2);
    assert_eq!(microphone_buffer_len(2), 2);
    assert_eq!(microphone_buffer_len(4096), 4096);
}

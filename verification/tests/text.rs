//! The terminated-text helpers, at the byte level.

use imgui_core::append_terminated;
use imgui_core::c_text_bytes;
use imgui_core::read_terminated;

#[test]
fn truncation_keeps_clean_bytes_whole() {
    assert_eq!(c_text_bytes(b"plain"), b"plain".to_vec());
    assert_eq!(c_text_bytes(b""), Vec::<u8>::new());
}

#[test]
fn truncation_stops_at_the_first_terminator() {
    assert_eq!(c_text_bytes(b"one\0two\0three"), b"one".to_vec());
    assert_eq!(c_text_bytes(b"\0lead"), Vec::<u8>::new());
}

#[test]
fn append_places_truncated_bytes_and_one_terminator() {
    let mut buf: Vec<u8> = b"pre".to_vec();
    append_terminated(&mut buf, b"mid\0cut");
    assert_eq!(buf, b"premid\0".to_vec());
    let read = read_terminated(&buf, 3);
    assert_eq!(read, b"mid".to_vec());
}

#[test]
fn reading_without_terminator_runs_to_the_end() {
    let buf: Vec<u8> = b"tail".to_vec();
    assert_eq!(read_terminated(&buf, 0), b"tail".to_vec());
    assert_eq!(read_terminated(&buf, 4), Vec::<u8>::new());
}

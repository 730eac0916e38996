//! Edge cases of the in-memory host stream model.

use stream_bridge::status::STATUS_EOF;
use stream_bridge::status::WHENCE_CURRENT;
use stream_bridge::status::WHENCE_SIZE;
use stream_bridge::status::WHENCE_START;
use stream_bridge::stream::MemStream;
use stream_bridge::stream_io::read_callback;
use stream_bridge::stream_io::seek_callback;
use stream_bridge::stream_io::write_callback;

#[test]
fn an_empty_stream_reports_eof_and_size_zero() {
    let mut s = MemStream::fixed(Vec::new());
    let (data, status) = read_callback(&mut s, 16);
    assert_eq!(status, STATUS_EOF);
    assert!(data.is_empty());
    assert_eq!(seek_callback(&mut s, 0, WHENCE_SIZE), 0);
}

#[test]
fn a_zero_length_read_request_reports_eof() {
    let mut s = MemStream::fixed(vec![1, 2, 3]);
    let (data, status) = read_callback(&mut s, 0);
    assert_eq!(status, STATUS_EOF);
    assert!(data.is_empty());
    assert_eq!(s.tell(), 0);
}

#[test]
fn writing_past_the_end_of_a_growable_stream_fills_the_gap_with_zeros() {
    let mut s = MemStream::growable();
    assert_eq!(seek_callback(&mut s, 4, WHENCE_START), 4);
    assert_eq!(write_callback(&mut s, &vec![7, 7]), 2);
    assert_eq!(s.contents(), &vec![0, 0, 0, 0, 7, 7]);
    assert_eq!(s.tell(), 6);
}

#[test]
fn reading_past_the_end_after_a_far_seek_reports_eof() {
    let mut s = MemStream::fixed(vec![1, 2, 3]);
    assert_eq!(seek_callback(&mut s, 10, WHENCE_START), 10);
    let (data, status) = read_callback(&mut s, 4);
    assert_eq!(status, STATUS_EOF);
    assert!(data.is_empty());
}

#[test]
fn the_position_survives_a_round_trip_through_the_size_query() {
    let mut s = MemStream::growable();
    assert_eq!(write_callback(&mut s, &vec![9; 50]), 50);
    assert_eq!(seek_callback(&mut s, 12, WHENCE_START), 12);
    assert_eq!(seek_callback(&mut s, 0, WHENCE_SIZE), 50);
    assert_eq!(seek_callback(&mut s, 0, WHENCE_CURRENT), 12);
}

#[test]
fn a_size_query_at_the_end_does_not_move_the_position() {
    let mut s = MemStream::fixed(vec![4; 8]);
    assert_eq!(seek_callback(&mut s, 0, 2), 8);
    assert_eq!(seek_callback(&mut s, 0, WHENCE_SIZE), 8);
    assert_eq!(s.tell(), 8);
}

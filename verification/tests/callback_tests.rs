//! The three callback entry points against sound and faulty streams.

use stream_bridge::status::classify_whence;
use stream_bridge::status::Error;
use stream_bridge::status::translate_error;
use stream_bridge::status::IoErrorKind;
use stream_bridge::status::SeekRequest;
use stream_bridge::status::Whence;
use stream_bridge::status::STATUS_AGAIN;
use stream_bridge::status::STATUS_EOF;
use stream_bridge::status::STATUS_INTERRUPTED;
use stream_bridge::status::STATUS_INVALID_ARG;
use stream_bridge::status::STATUS_IO_ERROR;
use stream_bridge::status::STATUS_UNSUPPORTED;
use stream_bridge::status::WHENCE_CURRENT;
use stream_bridge::status::WHENCE_END;
use stream_bridge::status::WHENCE_SIZE;
use stream_bridge::status::WHENCE_START;
use stream_bridge::stream::MemStream;
use stream_bridge::stream_io::read_callback;
use stream_bridge::stream_io::seek_callback;
use stream_bridge::stream_io::write_callback;

fn bytes(n: u8) -> Vec<u8> {
    (0..n).collect()
}

#[test]
fn translation_table_is_exact() {
    assert_eq!(translate_error(IoErrorKind::UnexpectedEof), STATUS_EOF);
    assert_eq!(translate_error(IoErrorKind::UnexpectedEof), -541478725);
    assert_eq!(translate_error(IoErrorKind::Interrupted), STATUS_INTERRUPTED);
    assert_eq!(translate_error(IoErrorKind::Interrupted), -4);
    assert_eq!(translate_error(IoErrorKind::WouldBlock), STATUS_AGAIN);
    assert_eq!(translate_error(IoErrorKind::WouldBlock), -11);
    assert_eq!(translate_error(IoErrorKind::TimedOut), STATUS_AGAIN);
    assert_eq!(translate_error(IoErrorKind::Other), STATUS_IO_ERROR);
    assert_eq!(translate_error(IoErrorKind::Other), -5);
}

#[test]
fn an_error_reports_its_native_code() {
    assert_eq!(Error::OutOfMemory.native_code(), -12);
    assert_eq!(Error::Native { code: -99 }.native_code(), -99);
}

#[test]
fn whence_classification_is_exact() {
    assert_eq!(
        classify_whence(WHENCE_START),
        SeekRequest::Position(Whence::Start)
    );
    assert_eq!(
        classify_whence(WHENCE_CURRENT),
        SeekRequest::Position(Whence::Current)
    );
    assert_eq!(
        classify_whence(WHENCE_END),
        SeekRequest::Position(Whence::End)
    );
    assert_eq!(classify_whence(WHENCE_SIZE), SeekRequest::SizeQuery);
    assert_eq!(classify_whence(3), SeekRequest::Invalid);
    assert_eq!(classify_whence(-1), SeekRequest::Invalid);
    assert_eq!(classify_whence(65537), SeekRequest::Invalid);
}

#[test]
fn read_returns_request_when_enough_remains() {
    let mut s = MemStream::fixed(bytes(10));
    let (data, status) = read_callback(&mut s, 4);
    assert_eq!(status, 4);
    assert_eq!(data, vec![0, 1, 2, 3]);
    assert_eq!(s.tell(), 4);
    let (data, status) = read_callback(&mut s, 4);
    assert_eq!(status, 4);
    assert_eq!(data, vec![4, 5, 6, 7]);
    assert_eq!(s.tell(), 8);
}

#[test]
fn read_at_end_reports_eof_not_zero() {
    let mut s = MemStream::fixed(bytes(3));
    let (_, status) = read_callback(&mut s, 3);
    assert_eq!(status, 3);
    let (data, status) = read_callback(&mut s, 8);
    assert_eq!(status, STATUS_EOF);
    assert!(status != 0);
    assert!(data.is_empty());
    assert_eq!(s.tell(), 3);
}

#[test]
fn read_failure_is_translated_and_stream_untouched() {
    let mut s = MemStream::fixed(bytes(10));
    s.inject_failure(IoErrorKind::Interrupted);
    let (data, status) = read_callback(&mut s, 4);
    assert_eq!(status, STATUS_INTERRUPTED);
    assert!(data.is_empty());
    assert_eq!(s.tell(), 0);
    assert_eq!(s.contents().len(), 10);
}

#[test]
fn write_accepts_all_bytes_on_a_growable_stream() {
    let mut s = MemStream::growable();
    let status = write_callback(&mut s, &vec![9, 8, 7]);
    assert_eq!(status, 3);
    assert_eq!(s.contents(), &vec![9, 8, 7]);
    assert_eq!(s.tell(), 3);
}

#[test]
fn write_overwrites_in_the_middle_of_a_growable_stream() {
    let mut s = MemStream::growable();
    assert_eq!(write_callback(&mut s, &bytes(6)), 6);
    assert_eq!(seek_callback(&mut s, 2, WHENCE_START), 2);
    assert_eq!(write_callback(&mut s, &vec![90, 91]), 2);
    assert_eq!(s.contents(), &vec![0, 1, 90, 91, 4, 5]);
    assert_eq!(s.tell(), 4);
}

#[test]
fn write_failure_is_translated_and_stream_untouched() {
    let mut s = MemStream::growable();
    assert_eq!(write_callback(&mut s, &vec![1, 2]), 2);
    s.inject_failure(IoErrorKind::WouldBlock);
    let status = write_callback(&mut s, &vec![3, 4, 5]);
    assert_eq!(status, STATUS_AGAIN);
    assert_eq!(s.contents(), &vec![1, 2]);
    assert_eq!(s.tell(), 2);
}

#[test]
fn write_on_a_fixed_stream_stops_at_its_end() {
    let mut s = MemStream::fixed(vec![0; 4]);
    assert_eq!(seek_callback(&mut s, 2, WHENCE_START), 2);
    let status = write_callback(&mut s, &vec![7, 8, 9]);
    assert_eq!(status, 2);
    assert_eq!(s.contents(), &vec![0, 0, 7, 8]);
}

#[test]
fn seek_positions_are_absolute_offsets() {
    let mut s = MemStream::fixed(bytes(100));
    assert_eq!(seek_callback(&mut s, 40, WHENCE_START), 40);
    assert_eq!(s.tell(), 40);
    assert_eq!(seek_callback(&mut s, 5, WHENCE_CURRENT), 45);
    assert_eq!(seek_callback(&mut s, -10, WHENCE_CURRENT), 35);
    assert_eq!(seek_callback(&mut s, -1, WHENCE_END), 99);
    assert_eq!(seek_callback(&mut s, 0, WHENCE_END), 100);
}

#[test]
fn seek_before_the_start_is_an_io_error() {
    let mut s = MemStream::fixed(bytes(10));
    assert_eq!(seek_callback(&mut s, 4, WHENCE_START), 4);
    assert_eq!(seek_callback(&mut s, -5, WHENCE_CURRENT), STATUS_IO_ERROR as i64);
    assert_eq!(s.tell(), 4);
}

#[test]
fn size_query_reports_size_and_restores_position() {
    let mut s = MemStream::fixed(bytes(100));
    assert_eq!(seek_callback(&mut s, 30, WHENCE_START), 30);
    let before = s.tell();
    assert_eq!(seek_callback(&mut s, 0, WHENCE_SIZE), 100);
    assert_eq!(s.tell(), before);
    assert_eq!(s.tell(), 30);
}

#[test]
fn size_query_on_a_faulty_stream_is_unsupported() {
    let mut s = MemStream::fixed(bytes(10));
    s.inject_failure(IoErrorKind::Other);
    assert_eq!(seek_callback(&mut s, 0, WHENCE_SIZE), STATUS_UNSUPPORTED as i64);
    assert_eq!(seek_callback(&mut s, 0, WHENCE_SIZE), -38);
}

#[test]
fn invalid_whence_is_invalid_argument_not_a_crash() {
    let mut s = MemStream::fixed(bytes(10));
    assert_eq!(seek_callback(&mut s, 0, 3), STATUS_INVALID_ARG as i64);
    assert_eq!(seek_callback(&mut s, 5, -7), -22);
    assert_eq!(seek_callback(&mut s, 5, 12345), -22);
    assert_eq!(s.tell(), 0);
}

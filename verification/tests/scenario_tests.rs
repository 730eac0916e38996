//! End-to-end scenarios: a growable buffer opened as a bridged output, and
//! a fixed byte slice opened as a bridged input.

use stream_bridge::native::NativeCall;
use stream_bridge::opening;
use stream_bridge::status::STATUS_EOF;
use stream_bridge::status::WHENCE_SIZE;
use stream_bridge::stream::MemStream;
use stream_bridge::stream_io::AllocPlan;
use stream_bridge::stream_io::StreamIo;

fn alloc_ok() -> AllocPlan {
    AllocPlan { buffer_ok: true, context_ok: true }
}

#[test]
fn three_chunks_written_through_a_bridged_output_arrive_in_order() {
    let mut log: Vec<NativeCall> = Vec::new();
    let io = StreamIo::from_write_seek(MemStream::growable(), alloc_ok(), &mut log).unwrap();
    let mut ctx = opening::output_to_stream(io, 0, &mut log).unwrap();

    let first: Vec<u8> = vec![1; 10];
    let second: Vec<u8> = vec![2; 20];
    let third: Vec<u8> = vec![3; 5];
    assert_eq!(ctx.bridge_write(&first), 10);
    assert_eq!(ctx.bridge_write(&second), 20);
    assert_eq!(ctx.bridge_write(&third), 5);
    assert_eq!(ctx.bridge_seek(0, WHENCE_SIZE), 35);

    let released = ctx.teardown(&mut log).expect("the bridge owned the stream");
    let mut expected: Vec<u8> = Vec::new();
    expected.extend_from_slice(&first);
    expected.extend_from_slice(&second);
    expected.extend_from_slice(&third);
    assert_eq!(released.contents().len(), 35);
    assert_eq!(released.contents(), &expected);

    let release_calls = log
        .iter()
        .filter(|c| matches!(c, NativeCall::ReleaseStream))
        .count();
    assert_eq!(release_calls, 1);
    assert!(!log.contains(&NativeCall::CloseIo));
}

#[test]
fn reads_through_a_bridged_input_drain_a_hundred_byte_slice() {
    let mut log: Vec<NativeCall> = Vec::new();
    let data: Vec<u8> = (0..100).collect();
    let io = StreamIo::from_read_seek(MemStream::fixed(data.clone()), alloc_ok(), &mut log).unwrap();
    let mut ctx = opening::input_from_stream(io, 0, 0, &mut log).unwrap();

    let (chunk, status) = ctx.bridge_read(40);
    assert_eq!(status, 40);
    assert_eq!(chunk, data[0..40].to_vec());

    let (chunk, status) = ctx.bridge_read(40);
    assert_eq!(status, 40);
    assert_eq!(chunk, data[40..80].to_vec());

    let (chunk, status) = ctx.bridge_read(40);
    assert_eq!(status, 20);
    assert_eq!(chunk, data[80..100].to_vec());

    let (chunk, status) = ctx.bridge_read(40);
    assert_eq!(status, STATUS_EOF);
    assert!(chunk.is_empty());

    let released = ctx.teardown(&mut log).expect("the bridge owned the stream");
    assert_eq!(released.contents(), &data);
    assert!(!log.contains(&NativeCall::CloseIo));
}

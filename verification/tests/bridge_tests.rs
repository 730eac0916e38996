//! Bridge construction and teardown: resource ordering, failure paths,
//! and the release-exactly-once property for every capability combination.

use stream_bridge::native::NativeCall;
use stream_bridge::status::Error;
use stream_bridge::stream::MemStream;
use stream_bridge::stream_io::AllocPlan;
use stream_bridge::stream_io::StreamIo;

fn alloc_ok() -> AllocPlan {
    AllocPlan { buffer_ok: true, context_ok: true }
}

fn releases(log: &Vec<NativeCall>) -> usize {
    log.iter().filter(|c| matches!(c, NativeCall::ReleaseStream)).count()
}

#[test]
fn every_capability_combination_releases_the_stream_exactly_once() {
    let constructors: Vec<
        fn(MemStream, AllocPlan, &mut Vec<NativeCall>) -> Result<StreamIo, Error>,
    > = vec![
        StreamIo::from_read,
        StreamIo::from_read_seek,
        StreamIo::from_read_write_seek,
        StreamIo::from_read_write,
        StreamIo::from_write,
        StreamIo::from_write_seek,
    ];
    for make in constructors {
        let mut log: Vec<NativeCall> = Vec::new();
        let mut io = make(MemStream::growable(), alloc_ok(), &mut log).unwrap();
        let released = io.teardown(&mut log);
        assert!(released.is_some());
        assert_eq!(releases(&log), 1);
        assert_eq!(
            log,
            vec![
                NativeCall::AllocBuffer,
                NativeCall::AllocIoContext,
                NativeCall::FreeBuffer,
                NativeCall::FreeIoContext,
                NativeCall::ReleaseStream,
            ]
        );
    }
}

#[test]
fn teardown_frees_in_the_fixed_order() {
    let mut log: Vec<NativeCall> = Vec::new();
    let mut io = StreamIo::from_read(MemStream::fixed(vec![1, 2, 3]), alloc_ok(), &mut log).unwrap();
    log.clear();
    let released = io.teardown(&mut log);
    assert_eq!(
        log,
        vec![NativeCall::FreeBuffer, NativeCall::FreeIoContext, NativeCall::ReleaseStream]
    );
    assert_eq!(released.unwrap().contents(), &vec![1, 2, 3]);
}

#[test]
fn teardown_is_idempotent() {
    let mut log: Vec<NativeCall> = Vec::new();
    let mut io = StreamIo::from_write(MemStream::growable(), alloc_ok(), &mut log).unwrap();
    assert!(io.teardown(&mut log).is_some());
    let len_after_first = log.len();
    assert!(io.teardown(&mut log).is_none());
    assert_eq!(log.len(), len_after_first);
    assert_eq!(releases(&log), 1);
}

#[test]
fn failed_buffer_allocation_only_releases_the_stream() {
    let mut log: Vec<NativeCall> = Vec::new();
    let r = StreamIo::from_read(
        MemStream::growable(),
        AllocPlan { buffer_ok: false, context_ok: true },
        &mut log,
    );
    assert_eq!(r.err(), Some(Error::OutOfMemory));
    assert_eq!(log, vec![NativeCall::ReleaseStream]);
}

#[test]
fn failed_context_allocation_frees_the_buffer_and_releases_the_stream() {
    let mut log: Vec<NativeCall> = Vec::new();
    let r = StreamIo::from_write_seek(
        MemStream::growable(),
        AllocPlan { buffer_ok: true, context_ok: false },
        &mut log,
    );
    assert_eq!(r.err(), Some(Error::OutOfMemory));
    assert_eq!(
        log,
        vec![NativeCall::AllocBuffer, NativeCall::FreeBuffer, NativeCall::ReleaseStream]
    );
    assert_eq!(releases(&log), 1);
}

#[test]
fn packets_flow_through_an_open_bridge() {
    let mut log: Vec<NativeCall> = Vec::new();
    let mut io =
        StreamIo::from_read_write_seek(MemStream::growable(), alloc_ok(), &mut log).unwrap();
    assert_eq!(io.write_packet(&vec![10, 20, 30]), 3);
    assert_eq!(io.seek_packet(0, 0), 0);
    let (data, status) = io.read_packet(16);
    assert_eq!(status, 3);
    assert_eq!(data, vec![10, 20, 30]);
    let released = io.teardown(&mut log).unwrap();
    assert_eq!(released.contents(), &vec![10, 20, 30]);
}

//! The stream bridge: it owns the native I/O buffer, the native I/O
//! context and the host stream, exposes the three callback entry points
//! the engine drives, and frees all three resources together, exactly
//! once, in a fixed order.
//!
//! Construction takes the outcome of the two native allocations as an
//! [`AllocPlan`], since the native allocator decides them: the contract
//! states what holds on every outcome, and in particular that no failure
//! path leaks the host stream or the buffer.

use vstd::prelude::*;

use crate::native::NativeCall;
use crate::status::Error;
use crate::status::SeekRequest;
use crate::status::STATUS_EOF;
use crate::status::STATUS_INVALID_ARG;
use crate::status::STATUS_IO_ERROR;
use crate::status::STATUS_UNSUPPORTED;
use crate::status::Whence;
use crate::status::classify_whence;
use crate::status::translate_error;
use crate::status::translated_status;
use crate::status::whence_request;
use crate::stream::MAX_POSITION;
use crate::stream::MemStream;
use crate::stream::fixed_accept;
use crate::stream::fixed_written;
use crate::stream::read_count;
use crate::stream::read_window;
use crate::stream::seek_target;
use crate::stream::seek_target_ok;
use crate::stream::spliced;

verus! {

/// Size of the native I/O buffer the bridge allocates.
pub const BUFFER_SIZE: usize = 16384;

/// Which of the three callbacks the bridge installs; chosen statically by
/// the constructor entry point that matches the stream's capabilities.
#[derive(Clone, Copy, Debug, PartialEq, Eq, Structural)]
pub struct CallbackSet {
    /// A read callback is installed.
    pub has_read: bool,
    /// A write callback is installed.
    pub has_write: bool,
    /// A seek callback is installed.
    pub has_seek: bool,
}

/// The outcome of the two native allocations construction performs, in
/// order: the I/O buffer, then the I/O context. The native allocator
/// decides them; construction must cope with every combination.
#[derive(Clone, Copy, Debug, PartialEq, Eq, Structural)]
pub struct AllocPlan {
    /// The buffer allocation returned non-null.
    pub buffer_ok: bool,
    /// The I/O context allocation returned non-null.
    pub context_ok: bool,
}

/// What a read callback invocation does to the stream, and what it hands
/// back: a byte count for a non-empty read, the end-of-stream sentinel for
/// an empty one, a translated status for a failure.
pub open spec fn read_outcome(
    pre: MemStream,
    post: MemStream,
    max: int,
    data: Seq<u8>,
    status: int,
) -> bool {
    &&& post.is_growable() == pre.is_growable()
    &&& post.failure() == pre.failure()
    &&& post.bytes() == pre.bytes()
    &&& match pre.failure() {
        Some(kind) => {
            &&& status == translated_status(kind)
            &&& data == Seq::<u8>::empty()
            &&& post.position() == pre.position()
        },
        None => {
            let n = read_count(max, pre.remaining());
            if n == 0 {
                &&& status == STATUS_EOF as int
                &&& data == Seq::<u8>::empty()
                &&& post.position() == pre.position()
            } else {
                &&& status == n
                &&& data == read_window(pre.bytes(), pre.position(), max)
                &&& post.position() == pre.position() + n
            }
        },
    }
}

/// What a write callback invocation does to the stream, and what it hands
/// back: the count of bytes accepted, or a translated status.
pub open spec fn write_outcome(pre: MemStream, post: MemStream, data: Seq<u8>, status: int) -> bool {
    &&& post.is_growable() == pre.is_growable()
    &&& post.failure() == pre.failure()
    &&& match pre.failure() {
        Some(kind) => {
            &&& status == translated_status(kind)
            &&& post == pre
        },
        None => {
            if pre.is_growable() {
                &&& status == data.len()
                &&& post.bytes() == spliced(pre.bytes(), pre.position(), data)
                &&& post.position() == pre.position() + data.len()
            } else {
                let n = fixed_accept(pre.bytes().len() as int, pre.position(), data.len() as int);
                &&& status == n
                &&& post.bytes() == fixed_written(pre.bytes(), pre.position(), data)
                &&& post.position() == pre.position() + n
            }
        },
    }
}

/// What a seek callback invocation does to the stream, and what it hands
/// back. The reserved size query reports the total size and leaves the
/// position where it was, or reports "not supported" on any failure; a
/// positional request lands on the target and reports it, or reports a
/// generic I/O failure; an unrecognized whence reports "invalid argument"
/// and touches nothing.
pub open spec fn seek_outcome(
    pre: MemStream,
    post: MemStream,
    offset: int,
    whence: int,
    ret: int,
) -> bool {
    &&& post.is_growable() == pre.is_growable()
    &&& post.failure() == pre.failure()
    &&& post.bytes() == pre.bytes()
    &&& match whence_request(whence) {
        SeekRequest::Invalid => {
            &&& ret == STATUS_INVALID_ARG as int
            &&& post.position() == pre.position()
        },
        SeekRequest::SizeQuery => {
            match pre.failure() {
                Some(_) => {
                    &&& ret == STATUS_UNSUPPORTED as int
                    &&& post.position() == pre.position()
                },
                None => {
                    &&& ret == pre.bytes().len()
                    &&& post.position() == pre.position()
                },
            }
        },
        SeekRequest::Position(w) => {
            match pre.failure() {
                Some(_) => {
                    &&& ret == STATUS_IO_ERROR as int
                    &&& post.position() == pre.position()
                },
                None => {
                    let t = seek_target(pre.bytes().len() as int, pre.position(), w, offset);
                    if seek_target_ok(t) {
                        &&& ret == t
                        &&& post.position() == t
                    } else {
                        &&& ret == STATUS_IO_ERROR as int
                        &&& post.position() == pre.position()
                    }
                },
            }
        },
    }
}

/// The read callback: fills a packet of at most `max` bytes from the
/// stream. An empty successful read reports the end-of-stream sentinel,
/// never a zero length; a partial read reports its count, which is not an
/// error; a failure reports its translated status.
pub fn read_callback(stream: &mut MemStream, max: usize) -> (r: (Vec<u8>, i32))
    requires
        old(stream).inv(),
        max as int <= i32::MAX as int,
    ensures
        final(stream).inv(),
        read_outcome(*old(stream), *final(stream), max as int, r.0@, r.1 as int),
{
    match stream.read_at_most(max) {
        Ok(out) => {
            if out.len() == 0 {
                proof {
                    assert(out@ =~= Seq::<u8>::empty());
                }
                (out, STATUS_EOF)
            } else {
                proof {
                    assert(out@.len() <= max as int);
                }
                let n = out.len() as i32;
                (out, n)
            }
        },
        Err(kind) => (Vec::new(), translate_error(kind)),
    }
}

/// The write callback: hands a packet to the stream and reports how many
/// bytes it accepted, or a translated status; on failure the stream is
/// left exactly as it was.
pub fn write_callback(stream: &mut MemStream, data: &Vec<u8>) -> (r: i32)
    requires
        old(stream).inv(),
        data@.len() <= i32::MAX as int,
        old(stream).is_growable() ==> old(stream).position() + data@.len() <= MAX_POSITION as int
            && old(stream).position() + data@.len() <= usize::MAX as int,
    ensures
        final(stream).inv(),
        write_outcome(*old(stream), *final(stream), data@, r as int),
{
    match stream.write_bytes(data) {
        Ok(n) => n as i32,
        Err(kind) => translate_error(kind),
    }
}

/// The seek callback. The reserved size-query whence records the current
/// position, probes the end, seeks back if the two differ, and reports the
/// size; any failure along that path reports "not supported". The three
/// positional whence values report the resulting absolute offset or a
/// generic I/O failure. Every other whence reports "invalid argument".
pub fn seek_callback(stream: &mut MemStream, offset: i64, whence: i32) -> (r: i64)
    requires
        old(stream).inv(),
    ensures
        final(stream).inv(),
        seek_outcome(*old(stream), *final(stream), offset as int, whence as int, r as int),
{
    match classify_whence(whence) {
        SeekRequest::SizeQuery => {
            let cur = match stream.seek_to(Whence::Current, 0) {
                Ok(p) => p,
                Err(_) => {
                    return STATUS_UNSUPPORTED as i64;
                },
            };
            let end = match stream.seek_to(Whence::End, 0) {
                Ok(p) => p,
                Err(_) => {
                    return STATUS_UNSUPPORTED as i64;
                },
            };
            if cur != end {
                match stream.seek_to(Whence::Start, cur as i64) {
                    Ok(_) => (),
                    Err(_) => {
                        return STATUS_UNSUPPORTED as i64;
                    },
                }
            }
            end as i64
        },
        SeekRequest::Position(w) => {
            match stream.seek_to(w, offset) {
                Ok(p) => p as i64,
                Err(_) => STATUS_IO_ERROR as i64,
            }
        },
        SeekRequest::Invalid => STATUS_INVALID_ARG as i64,
    }
}

#[derive(Debug)]
struct IoContext {
    buffer_size: usize,
    write_flag: bool,
    callbacks: CallbackSet,
    stream: MemStream,
}

/// The bridge. While open it owns the native buffer, the native I/O
/// context and the host stream; once torn down it owns nothing and a
/// second teardown does nothing.
#[derive(Debug)]
pub struct StreamIo {
    ctx: Option<IoContext>,
}

/// The fixed teardown order of an open bridge: free the buffer, free the
/// I/O context struct, then reclaim the host stream.
pub open spec fn bridge_teardown_actions() -> Seq<NativeCall> {
    seq![NativeCall::FreeBuffer, NativeCall::FreeIoContext, NativeCall::ReleaseStream]
}

/// The native calls construction performs under a given allocation
/// outcome. Every path reclaims the host stream exactly once: a failed
/// context allocation frees the buffer and releases the stream before the
/// error returns, and a failed buffer allocation leaves only the stream to
/// release.
pub open spec fn build_actions(alloc: AllocPlan) -> Seq<NativeCall> {
    if !alloc.buffer_ok {
        seq![NativeCall::ReleaseStream]
    } else if !alloc.context_ok {
        seq![NativeCall::AllocBuffer, NativeCall::FreeBuffer, NativeCall::ReleaseStream]
    } else {
        seq![NativeCall::AllocBuffer, NativeCall::AllocIoContext]
    }
}

/// The native calls the drop of a bridge performs: the fixed teardown
/// order while it is open, nothing once it is closed.
pub open spec fn drop_actions(io: StreamIo) -> Seq<NativeCall> {
    if io.is_open() {
        bridge_teardown_actions()
    } else {
        Seq::<NativeCall>::empty()
    }
}

impl StreamIo {
    /// Whether the bridge still owns its three resources.
    pub closed spec fn is_open(&self) -> bool {
        self.ctx is Some
    }

    /// The owned host stream.
    pub closed spec fn inner(&self) -> MemStream
        recommends
            self.is_open(),
    {
        self.ctx->Some_0.stream
    }

    /// The installed callback triplet.
    pub closed spec fn callbacks(&self) -> CallbackSet
        recommends
            self.is_open(),
    {
        self.ctx->Some_0.callbacks
    }

    /// The write-capability flag handed to the native context: set exactly
    /// when a write callback is installed.
    pub closed spec fn write_flag(&self) -> bool
        recommends
            self.is_open(),
    {
        self.ctx->Some_0.write_flag
    }

    /// The size of the allocated native buffer.
    pub closed spec fn buffer_size(&self) -> int
        recommends
            self.is_open(),
    {
        self.ctx->Some_0.buffer_size as int
    }

    /// Construction common to the six entry points: allocate the buffer,
    /// box the stream, ask the native layer for an I/O context. Either
    /// allocation may fail; no failure path leaks a resource, and the
    /// assembled bridge records the stream, the callback triplet, the
    /// write flag and the buffer size exactly as handed in.
    fn new_impl(
        stream: MemStream,
        callbacks: CallbackSet,
        alloc: AllocPlan,
        log: &mut Vec<NativeCall>,
    ) -> (r: Result<StreamIo, Error>)
        ensures
            final(log)@ == old(log)@ + build_actions(alloc),
            (alloc.buffer_ok && alloc.context_ok) <==> r is Ok,
            r matches Ok(io) ==> io.is_open() && io.inner() == stream && io.callbacks() == callbacks
                && io.write_flag() == callbacks.has_write && io.buffer_size() == BUFFER_SIZE as int,
            r matches Err(e) ==> e == Error::OutOfMemory,
    {
        if !alloc.buffer_ok {
            log.push(NativeCall::ReleaseStream);
            proof {
                assert(log@ =~= old(log)@ + build_actions(alloc));
            }
            return Err(Error::OutOfMemory);
        }
        log.push(NativeCall::AllocBuffer);
        if !alloc.context_ok {
            log.push(NativeCall::FreeBuffer);
            log.push(NativeCall::ReleaseStream);
            proof {
                assert(log@ =~= old(log)@ + build_actions(alloc));
            }
            return Err(Error::OutOfMemory);
        }
        log.push(NativeCall::AllocIoContext);
        proof {
            assert(log@ =~= old(log)@ + build_actions(alloc));
        }
        Ok(
            StreamIo {
                ctx: Some(
                    IoContext {
                        buffer_size: BUFFER_SIZE,
                        write_flag: callbacks.has_write,
                        callbacks,
                        stream,
                    },
                ),
            },
        )
    }

    /// A bridge over a read-only stream.
    pub fn from_read(stream: MemStream, alloc: AllocPlan, log: &mut Vec<NativeCall>) -> (r: Result<
        StreamIo,
        Error,
    >)
        ensures
            final(log)@ == old(log)@ + build_actions(alloc),
            (alloc.buffer_ok && alloc.context_ok) <==> r is Ok,
            r matches Ok(io) ==> io.is_open() && io.inner() == stream && io.callbacks() == (
            CallbackSet { has_read: true, has_write: false, has_seek: false }) && !io.write_flag()
                && io.buffer_size() == BUFFER_SIZE as int,
            r matches Err(e) ==> e == Error::OutOfMemory,
    {
        Self::new_impl(
            stream,
            CallbackSet { has_read: true, has_write: false, has_seek: false },
            alloc,
            log,
        )
    }

    /// A bridge over a readable, seekable stream.
    pub fn from_read_seek(stream: MemStream, alloc: AllocPlan, log: &mut Vec<NativeCall>) -> (r:
        Result<StreamIo, Error>)
        ensures
            final(log)@ == old(log)@ + build_actions(alloc),
            (alloc.buffer_ok && alloc.context_ok) <==> r is Ok,
            r matches Ok(io) ==> io.is_open() && io.inner() == stream && io.callbacks() == (
            CallbackSet { has_read: true, has_write: false, has_seek: true }) && !io.write_flag()
                && io.buffer_size() == BUFFER_SIZE as int,
            r matches Err(e) ==> e == Error::OutOfMemory,
    {
        Self::new_impl(
            stream,
            CallbackSet { has_read: true, has_write: false, has_seek: true },
            alloc,
            log,
        )
    }

    /// A bridge over a readable, writable, seekable stream.
    pub fn from_read_write_seek(stream: MemStream, alloc: AllocPlan, log: &mut Vec<NativeCall>) -> (
        r: Result<StreamIo, Error>)
        ensures
            final(log)@ == old(log)@ + build_actions(alloc),
            (alloc.buffer_ok && alloc.context_ok) <==> r is Ok,
            r matches Ok(io) ==> io.is_open() && io.inner() == stream && io.callbacks() == (
            CallbackSet { has_read: true, has_write: true, has_seek: true }) && io.write_flag()
                && io.buffer_size() == BUFFER_SIZE as int,
            r matches Err(e) ==> e == Error::OutOfMemory,
    {
        Self::new_impl(
            stream,
            CallbackSet { has_read: true, has_write: true, has_seek: true },
            alloc,
            log,
        )
    }

    /// A bridge over a readable, writable stream.
    pub fn from_read_write(stream: MemStream, alloc: AllocPlan, log: &mut Vec<NativeCall>) -> (r:
        Result<StreamIo, Error>)
        ensures
            final(log)@ == old(log)@ + build_actions(alloc),
            (alloc.buffer_ok && alloc.context_ok) <==> r is Ok,
            r matches Ok(io) ==> io.is_open() && io.inner() == stream && io.callbacks() == (
            CallbackSet { has_read: true, has_write: true, has_seek: false }) && io.write_flag()
                && io.buffer_size() == BUFFER_SIZE as int,
            r matches Err(e) ==> e == Error::OutOfMemory,
    {
        Self::new_impl(
            stream,
            CallbackSet { has_read: true, has_write: true, has_seek: false },
            alloc,
            log,
        )
    }

    /// A bridge over a write-only stream.
    pub fn from_write(stream: MemStream, alloc: AllocPlan, log: &mut Vec<NativeCall>) -> (r: Result<
        StreamIo,
        Error,
    >)
        ensures
            final(log)@ == old(log)@ + build_actions(alloc),
            (alloc.buffer_ok && alloc.context_ok) <==> r is Ok,
            r matches Ok(io) ==> io.is_open() && io.inner() == stream && io.callbacks() == (
            CallbackSet { has_read: false, has_write: true, has_seek: false }) && io.write_flag()
                && io.buffer_size() == BUFFER_SIZE as int,
            r matches Err(e) ==> e == Error::OutOfMemory,
    {
        Self::new_impl(
            stream,
            CallbackSet { has_read: false, has_write: true, has_seek: false },
            alloc,
            log,
        )
    }

    /// A bridge over a writable, seekable stream.
    pub fn from_write_seek(stream: MemStream, alloc: AllocPlan, log: &mut Vec<NativeCall>) -> (r:
        Result<StreamIo, Error>)
        ensures
            final(log)@ == old(log)@ + build_actions(alloc),
            (alloc.buffer_ok && alloc.context_ok) <==> r is Ok,
            r matches Ok(io) ==> io.is_open() && io.inner() == stream && io.callbacks() == (
            CallbackSet { has_read: false, has_write: true, has_seek: true }) && io.write_flag()
                && io.buffer_size() == BUFFER_SIZE as int,
            r matches Err(e) ==> e == Error::OutOfMemory,
    {
        Self::new_impl(
            stream,
            CallbackSet { has_read: false, has_write: true, has_seek: true },
            alloc,
            log,
        )
    }

    /// Tears the bridge down: while it is open, frees the buffer, frees
    /// the I/O context struct, then reclaims the host stream, in that
    /// order and exactly once; once it is closed this does nothing, so a
    /// second teardown is harmless. The reclaimed stream is handed back
    /// for inspection.
    pub fn teardown(&mut self, log: &mut Vec<NativeCall>) -> (r: Option<MemStream>)
        ensures
            final(log)@ == old(log)@ + drop_actions(*old(self)),
            !final(self).is_open(),
            old(self).is_open() ==> r == Some(old(self).inner()),
            !old(self).is_open() ==> r is None,
    {
        match self.ctx.take() {
            Some(io_ctx) => {
                log.push(NativeCall::FreeBuffer);
                log.push(NativeCall::FreeIoContext);
                log.push(NativeCall::ReleaseStream);
                proof {
                    assert(log@ =~= old(log)@ + drop_actions(*old(self)));
                }
                Some(io_ctx.stream)
            },
            None => {
                proof {
                    assert(log@ =~= old(log)@ + drop_actions(*old(self)));
                }
                None
            },
        }
    }

    /// The engine driving the installed read callback on this bridge.
    pub fn read_packet(&mut self, max: usize) -> (r: (Vec<u8>, i32))
        requires
            old(self).is_open(),
            old(self).callbacks().has_read,
            old(self).inner().inv(),
            max as int <= i32::MAX as int,
        ensures
            final(self).is_open(),
            final(self).callbacks() == old(self).callbacks(),
            final(self).write_flag() == old(self).write_flag(),
            final(self).buffer_size() == old(self).buffer_size(),
            final(self).inner().inv(),
            read_outcome(old(self).inner(), final(self).inner(), max as int, r.0@, r.1 as int),
    {
        match &mut self.ctx {
            Some(io_ctx) => read_callback(&mut io_ctx.stream, max),
            None => {
                proof {
                    assert(false);
                }
                (Vec::new(), 0)
            },
        }
    }

    /// The engine driving the installed write callback on this bridge.
    pub fn write_packet(&mut self, data: &Vec<u8>) -> (r: i32)
        requires
            old(self).is_open(),
            old(self).callbacks().has_write,
            old(self).inner().inv(),
            data@.len() <= i32::MAX as int,
            old(self).inner().is_growable() ==> old(self).inner().position() + data@.len()
                <= MAX_POSITION as int && old(self).inner().position() + data@.len()
                <= usize::MAX as int,
        ensures
            final(self).is_open(),
            final(self).callbacks() == old(self).callbacks(),
            final(self).write_flag() == old(self).write_flag(),
            final(self).buffer_size() == old(self).buffer_size(),
            final(self).inner().inv(),
            write_outcome(old(self).inner(), final(self).inner(), data@, r as int),
    {
        match &mut self.ctx {
            Some(io_ctx) => write_callback(&mut io_ctx.stream, data),
            None => {
                proof {
                    assert(false);
                }
                0
            },
        }
    }

    /// The engine driving the installed seek callback on this bridge.
    pub fn seek_packet(&mut self, offset: i64, whence: i32) -> (r: i64)
        requires
            old(self).is_open(),
            old(self).callbacks().has_seek,
            old(self).inner().inv(),
        ensures
            final(self).is_open(),
            final(self).callbacks() == old(self).callbacks(),
            final(self).write_flag() == old(self).write_flag(),
            final(self).buffer_size() == old(self).buffer_size(),
            final(self).inner().inv(),
            seek_outcome(old(self).inner(), final(self).inner(), offset as int, whence as int, r as int),
    {
        match &mut self.ctx {
            Some(io_ctx) => seek_callback(&mut io_ctx.stream, offset, whence),
            None => {
                proof {
                    assert(false);
                }
                0
            },
        }
    }
}

} // verus!

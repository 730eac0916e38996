//! The context teardown policy: a four-state tag, fixed at the moment a
//! context is opened, that decides which native primitives its teardown
//! runs.
//!
//! A context opened over the engine's own I/O is closed by the engine's
//! primitives end to end. A context opened over a bridge must not see the
//! generic I/O-handle close primitive — the bridge owns the handle, and
//! closing it twice would free its resources twice — so only the matching
//! "free the context struct" primitive runs, and the held bridge then
//! tears itself down.

use vstd::prelude::*;

use crate::native::NativeCall;
use crate::stream::MAX_POSITION;
use crate::stream::MemStream;
use crate::stream_io::StreamIo;
use crate::stream_io::drop_actions;
use crate::stream_io::read_outcome;
use crate::stream_io::seek_outcome;
use crate::stream_io::write_outcome;

verus! {

/// How a context was opened: its direction, and whether a bridge supplies
/// its I/O. Fixed when the context is opened, consumed at teardown, never
/// re-tagged in between.
#[derive(Debug)]
pub enum Mode {
    /// An input opened over the engine's own I/O.
    Input,
    /// An output opened over the engine's own I/O.
    Output,
    /// An input driven by a stream bridge, which the tag owns.
    InputCustomIo(StreamIo),
    /// An output driven by a stream bridge, which the tag owns.
    OutputCustomIo(StreamIo),
}

/// The native calls the teardown of a context runs under each tag. The
/// two default tags use the engine's own close path; the two bridged tags
/// free only the context struct — never the I/O handle — and then let the
/// held bridge tear itself down.
pub open spec fn teardown_actions(mode: Mode) -> Seq<NativeCall> {
    match mode {
        Mode::Input => seq![NativeCall::CloseInput],
        Mode::Output => seq![NativeCall::CloseIo, NativeCall::FreeFormatContext],
        Mode::InputCustomIo(io) => seq![NativeCall::CloseInput] + drop_actions(io),
        Mode::OutputCustomIo(io) => seq![NativeCall::FreeFormatContext] + drop_actions(io),
    }
}

/// An opened context together with its teardown tag. It is the single
/// owner of the context and, for the bridged tags, of the bridge.
#[derive(Debug)]
pub struct Destructor {
    mode: Mode,
}

impl Destructor {
    /// The teardown tag this context was opened under.
    pub closed spec fn mode(&self) -> Mode {
        self.mode
    }

    /// Whether the tag holds a bridge that still owns its resources.
    pub open spec fn has_open_bridge(&self) -> bool {
        match self.mode() {
            Mode::InputCustomIo(io) => io.is_open(),
            Mode::OutputCustomIo(io) => io.is_open(),
            _ => false,
        }
    }

    /// The held bridge.
    pub closed spec fn bridge(&self) -> StreamIo
        recommends
            self.mode() is InputCustomIo || self.mode() is OutputCustomIo,
    {
        match self.mode {
            Mode::InputCustomIo(io) => io,
            Mode::OutputCustomIo(io) => io,
            _ => vstd::pervasive::arbitrary(),
        }
    }

    /// Tags a freshly opened context.
    pub fn new(mode: Mode) -> (r: Destructor)
        ensures
            r.mode() == mode,
    {
        Destructor { mode }
    }

    /// Tears the context down, running exactly the native calls its tag
    /// prescribes, in order. A reclaimed host stream is handed back for
    /// inspection.
    pub fn teardown(self, log: &mut Vec<NativeCall>) -> (r: Option<MemStream>)
        ensures
            final(log)@ == old(log)@ + teardown_actions(self.mode()),
            self.mode() matches Mode::InputCustomIo(io) ==> (if io.is_open() {
                r == Some(io.inner())
            } else {
                r is None
            }),
            self.mode() matches Mode::OutputCustomIo(io) ==> (if io.is_open() {
                r == Some(io.inner())
            } else {
                r is None
            }),
            self.mode() is Input || self.mode() is Output ==> r is None,
    {
        match self.mode {
            Mode::Input => {
                log.push(NativeCall::CloseInput);
                proof {
                    assert(log@ =~= old(log)@ + seq![NativeCall::CloseInput]);
                }
                None
            },
            Mode::Output => {
                log.push(NativeCall::CloseIo);
                log.push(NativeCall::FreeFormatContext);
                proof {
                    assert(log@ =~= old(log)@ + seq![
                        NativeCall::CloseIo,
                        NativeCall::FreeFormatContext,
                    ]);
                }
                None
            },
            Mode::InputCustomIo(mut io) => {
                let ghost pre_io = io;
                log.push(NativeCall::CloseInput);
                let r = io.teardown(log);
                proof {
                    assert(log@ =~= old(log)@ + (seq![NativeCall::CloseInput] + drop_actions(
                        pre_io,
                    )));
                }
                r
            },
            Mode::OutputCustomIo(mut io) => {
                let ghost pre_io = io;
                log.push(NativeCall::FreeFormatContext);
                let r = io.teardown(log);
                proof {
                    assert(log@ =~= old(log)@ + (seq![NativeCall::FreeFormatContext] + drop_actions(
                        pre_io,
                    )));
                }
                r
            },
        }
    }

    /// The engine driving the read callback of the held bridge.
    pub fn bridge_read(&mut self, max: usize) -> (r: (Vec<u8>, i32))
        requires
            old(self).has_open_bridge(),
            old(self).bridge().callbacks().has_read,
            old(self).bridge().inner().inv(),
            max as int <= i32::MAX as int,
        ensures
            final(self).has_open_bridge(),
            final(self).mode() is InputCustomIo <==> old(self).mode() is InputCustomIo,
            final(self).mode() is OutputCustomIo <==> old(self).mode() is OutputCustomIo,
            final(self).bridge().callbacks() == old(self).bridge().callbacks(),
            final(self).bridge().inner().inv(),
            read_outcome(
                old(self).bridge().inner(),
                final(self).bridge().inner(),
                max as int,
                r.0@,
                r.1 as int,
            ),
    {
        match &mut self.mode {
            Mode::InputCustomIo(io) => io.read_packet(max),
            Mode::OutputCustomIo(io) => io.read_packet(max),
            _ => {
                proof {
                    assert(false);
                }
                (Vec::new(), 0)
            },
        }
    }

    /// The engine driving the write callback of the held bridge.
    pub fn bridge_write(&mut self, data: &Vec<u8>) -> (r: i32)
        requires
            old(self).has_open_bridge(),
            old(self).bridge().callbacks().has_write,
            old(self).bridge().inner().inv(),
            data@.len() <= i32::MAX as int,
            old(self).bridge().inner().is_growable() ==> old(self).bridge().inner().position()
                + data@.len() <= MAX_POSITION as int && old(self).bridge().inner().position()
                + data@.len() <= usize::MAX as int,
        ensures
            final(self).has_open_bridge(),
            final(self).mode() is InputCustomIo <==> old(self).mode() is InputCustomIo,
            final(self).mode() is OutputCustomIo <==> old(self).mode() is OutputCustomIo,
            final(self).bridge().callbacks() == old(self).bridge().callbacks(),
            final(self).bridge().inner().inv(),
            write_outcome(
                old(self).bridge().inner(),
                final(self).bridge().inner(),
                data@,
                r as int,
            ),
    {
        match &mut self.mode {
            Mode::InputCustomIo(io) => io.write_packet(data),
            Mode::OutputCustomIo(io) => io.write_packet(data),
            _ => {
                proof {
                    assert(false);
                }
                0
            },
        }
    }

    /// The engine driving the seek callback of the held bridge.
    pub fn bridge_seek(&mut self, offset: i64, whence: i32) -> (r: i64)
        requires
            old(self).has_open_bridge(),
            old(self).bridge().callbacks().has_seek,
            old(self).bridge().inner().inv(),
        ensures
            final(self).has_open_bridge(),
            final(self).mode() is InputCustomIo <==> old(self).mode() is InputCustomIo,
            final(self).mode() is OutputCustomIo <==> old(self).mode() is OutputCustomIo,
            final(self).bridge().callbacks() == old(self).bridge().callbacks(),
            final(self).bridge().inner().inv(),
            seek_outcome(
                old(self).bridge().inner(),
                final(self).bridge().inner(),
                offset as int,
                whence as int,
                r as int,
            ),
    {
        match &mut self.mode {
            Mode::InputCustomIo(io) => io.seek_packet(offset, whence),
            Mode::OutputCustomIo(io) => io.seek_packet(offset, whence),
            _ => {
                proof {
                    assert(false);
                }
                0
            },
        }
    }
}

} // verus!

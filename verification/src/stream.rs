//! The host stream model: an in-memory byte stream with a read/write
//! position, an optional growable tail, and optional fault injection.
//!
//! The bridge's callbacks are verified against this model. A fixed stream
//! behaves like a byte slice: reads and writes stop at its end. A growable
//! stream behaves like an in-memory buffer: writes past the end extend it,
//! and a gap left by seeking past the end fills with zero bytes. A stream
//! with an injected failure refuses every operation with that failure
//! category and is left unchanged, which models a faulty host stream.

use vstd::prelude::*;

use crate::status::IoErrorKind;
use crate::status::Whence;

verus! {

/// Largest admissible stream length and position. Offsets cross the
/// callback boundary as signed 64-bit values, so no position beyond this
/// bound can be exchanged with the engine.
pub const MAX_POSITION: u64 = 0x7fff_ffff_ffff_ffff;

/// Number of bytes a read can deliver: the request, clamped to what
/// remains.
pub open spec fn read_count(max: int, remaining: int) -> int {
    if max <= remaining {
        max
    } else {
        remaining
    }
}

/// The bytes a read of `max` bytes delivers: the slice of `data` that
/// starts at `pos` and holds the request clamped to what remains, and
/// nothing at or past the end.
pub open spec fn read_window(data: Seq<u8>, pos: int, max: int) -> Seq<u8>
    recommends
        0 <= pos,
        0 <= max,
{
    if pos < data.len() {
        data.subrange(pos, pos + read_count(max, data.len() - pos))
    } else {
        Seq::<u8>::empty()
    }
}

/// The stream contents extended with zero bytes up to `pos`, when `pos`
/// lies past the end; the contents unchanged otherwise.
pub open spec fn zero_pad(data: Seq<u8>, pos: int) -> Seq<u8> {
    if pos <= data.len() {
        data
    } else {
        data + Seq::new((pos - data.len()) as nat, |i: int| 0u8)
    }
}

/// The contents of a growable stream after writing `buf` at `pos`: any gap
/// up to `pos` fills with zeros, the bytes at `pos` are overwritten, and
/// whatever the write runs past the end appends.
pub open spec fn spliced(data: Seq<u8>, pos: int, buf: Seq<u8>) -> Seq<u8>
    recommends
        0 <= pos,
{
    let padded = zero_pad(data, pos);
    if pos + buf.len() < padded.len() {
        padded.take(pos) + buf + padded.skip(pos + buf.len())
    } else {
        padded.take(pos) + buf
    }
}

/// Number of bytes a fixed stream accepts from a write of `wanted` bytes:
/// the room left before its end, and nothing at or past the end.
pub open spec fn fixed_accept(len: int, pos: int, wanted: int) -> int {
    if pos < len {
        if wanted <= len - pos {
            wanted
        } else {
            len - pos
        }
    } else {
        0
    }
}

/// The contents of a fixed stream after writing `buf` at `pos`: the
/// accepted prefix of `buf` overwrites in place; past the end nothing
/// changes.
pub open spec fn fixed_written(data: Seq<u8>, pos: int, buf: Seq<u8>) -> Seq<u8>
    recommends
        0 <= pos,
{
    let n = fixed_accept(data.len() as int, pos, buf.len() as int);
    if pos < data.len() {
        data.take(pos) + buf.take(n) + data.skip(pos + n)
    } else {
        data
    }
}

/// The position reached by a seek, before validation.
pub open spec fn seek_target(len: int, pos: int, whence: Whence, offset: int) -> int {
    match whence {
        Whence::Start => offset,
        Whence::Current => pos + offset,
        Whence::End => len + offset,
    }
}

/// Whether a seek target is admissible: non-negative, within the signed
/// 64-bit offset range, and representable as a machine position.
pub open spec fn seek_target_ok(t: int) -> bool {
    &&& 0 <= t
    &&& t <= MAX_POSITION as int
    &&& t <= usize::MAX as int
}

/// An in-memory host stream.
#[derive(Debug)]
pub struct MemStream {
    data: Vec<u8>,
    pos: usize,
    grow: bool,
    fail_with: Option<IoErrorKind>,
}

impl MemStream {
    /// The stream contents.
    pub closed spec fn bytes(&self) -> Seq<u8> {
        self.data@
    }

    /// The current read/write position. It may lie past the end of the
    /// contents after a seek.
    pub closed spec fn position(&self) -> int {
        self.pos as int
    }

    /// Whether writes past the end extend the stream.
    pub closed spec fn is_growable(&self) -> bool {
        self.grow
    }

    /// The injected failure, if any: a stream carrying one refuses every
    /// operation with that failure category.
    pub closed spec fn failure(&self) -> Option<IoErrorKind> {
        self.fail_with
    }

    /// Bytes left between the position and the end of the contents.
    pub open spec fn remaining(&self) -> int {
        if self.position() < self.bytes().len() {
            self.bytes().len() - self.position()
        } else {
            0
        }
    }

    /// Well-formedness: contents and position stay within the signed
    /// 64-bit offset range the engine exchanges.
    pub open spec fn inv(&self) -> bool {
        &&& 0 <= self.position()
        &&& self.position() <= MAX_POSITION as int
        &&& self.position() <= usize::MAX as int
        &&& self.bytes().len() <= MAX_POSITION as int
        &&& self.bytes().len() <= usize::MAX as int
    }

    /// A fixed stream over the given bytes, positioned at the start.
    pub fn fixed(data: Vec<u8>) -> (s: Self)
        requires
            data@.len() <= MAX_POSITION as int,
        ensures
            s.bytes() == data@,
            s.position() == 0,
            !s.is_growable(),
            s.failure() is None,
            s.inv(),
    {
        let n: usize = data.len();
        proof {
            assert(data@.len() == n as int);
        }
        MemStream { data, pos: 0, grow: false, fail_with: None }
    }

    /// An empty growable stream, positioned at the start.
    pub fn growable() -> (s: Self)
        ensures
            s.bytes() == Seq::<u8>::empty(),
            s.position() == 0,
            s.is_growable(),
            s.failure() is None,
            s.inv(),
    {
        MemStream { data: Vec::new(), pos: 0, grow: true, fail_with: None }
    }

    /// Makes every further operation on the stream fail with the given
    /// category, leaving the stream otherwise as it is.
    pub fn inject_failure(&mut self, kind: IoErrorKind)
        ensures
            final(self).failure() == Some(kind),
            final(self).bytes() == old(self).bytes(),
            final(self).position() == old(self).position(),
            final(self).is_growable() == old(self).is_growable(),
    {
        self.fail_with = Some(kind);
    }

    /// The stream contents, for inspection.
    pub fn contents(&self) -> (r: &Vec<u8>)
        ensures
            r@ == self.bytes(),
    {
        &self.data
    }

    /// The current position, for inspection.
    pub fn tell(&self) -> (r: usize)
        ensures
            r as int == self.position(),
    {
        self.pos
    }

    /// Reads up to `max` bytes from the current position. A sound stream
    /// delivers exactly the request clamped to what remains, and advances
    /// by that count; a faulty stream reports its failure category and
    /// stays unchanged.
    pub fn read_at_most(&mut self, max: usize) -> (r: Result<Vec<u8>, IoErrorKind>)
        requires
            old(self).inv(),
        ensures
            final(self).inv(),
            final(self).is_growable() == old(self).is_growable(),
            final(self).failure() == old(self).failure(),
            final(self).bytes() == old(self).bytes(),
            old(self).failure() matches Some(kind) ==> r == Err::<Vec<u8>, IoErrorKind>(kind)
                && final(self).position() == old(self).position(),
            old(self).failure() is None ==> ({
                &&& r matches Ok(out) && out@ == read_window(old(self).bytes(), old(self).position(), max as int)
                    && out@.len() == read_count(max as int, old(self).remaining())
                &&& final(self).position() == old(self).position() + read_count(
                    max as int,
                    old(self).remaining(),
                )
            }),
    {
        if let Some(kind) = self.fail_with {
            return Err(kind);
        }
        let len = self.data.len();
        let n: usize = if self.pos < len {
            let rem = len - self.pos;
            if max <= rem {
                max
            } else {
                rem
            }
        } else {
            0
        };
        let mut out: Vec<u8> = Vec::new();
        let mut i: usize = 0;
        while i < n
            invariant
                i <= n,
                self.data@ == old(self).data@,
                self.pos == old(self).pos,
                self.grow == old(self).grow,
                self.fail_with == old(self).fail_with,
                self.data@.len() <= usize::MAX as int,
                n != 0 ==> self.pos as int + n as int <= self.data@.len(),
                n != 0 ==> out@ == self.data@.subrange(self.pos as int, self.pos as int + i as int),
                n == 0 ==> out@ == Seq::<u8>::empty(),
            decreases n - i,
        {
            out.push(self.data[self.pos + i]);
            i = i + 1;
            proof {
                assert(out@ =~= self.data@.subrange(self.pos as int, self.pos as int + i as int));
            }
        }
        proof {
            if n == 0 && (self.pos as int) < self.data@.len() {
                assert(self.data@.subrange(self.pos as int, self.pos as int) =~= Seq::<u8>::empty());
            }
        }
        self.pos = self.pos + n;
        Ok(out)
    }

    /// Writes the bytes of `buf` at the current position. A sound growable
    /// stream accepts all of them; a sound fixed stream accepts what fits
    /// before its end; a faulty stream reports its failure category and
    /// stays unchanged.
    pub fn write_bytes(&mut self, buf: &Vec<u8>) -> (r: Result<usize, IoErrorKind>)
        requires
            old(self).inv(),
            old(self).is_growable() ==> old(self).position() + buf@.len() <= MAX_POSITION as int
                && old(self).position() + buf@.len() <= usize::MAX as int,
        ensures
            final(self).inv(),
            final(self).is_growable() == old(self).is_growable(),
            final(self).failure() == old(self).failure(),
            old(self).failure() matches Some(kind) ==> r == Err::<usize, IoErrorKind>(kind)
                && *final(self) == *old(self),
            old(self).failure() is None && old(self).is_growable() ==> ({
                &&& r matches Ok(n) && n == buf@.len()
                &&& final(self).bytes() == spliced(old(self).bytes(), old(self).position(), buf@)
                &&& final(self).position() == old(self).position() + buf@.len()
            }),
            old(self).failure() is None && !old(self).is_growable() ==> ({
                let n = fixed_accept(old(self).bytes().len() as int, old(self).position(), buf@.len() as int);
                &&& r matches Ok(m) && m == n
                &&& final(self).bytes() == fixed_written(old(self).bytes(), old(self).position(), buf@)
                &&& final(self).position() == old(self).position() + n
            }),
    {
        if let Some(kind) = self.fail_with {
            return Err(kind);
        }
        if self.grow {
            let ghost pre = *old(self);
            while self.data.len() < self.pos
                invariant
                    self.pos == pre.pos,
                    self.grow == pre.grow,
                    self.fail_with == pre.fail_with,
                    self.data@.len() <= self.pos as int || self.data@ == pre.data@,
                    pre.data@.len() <= self.data@.len(),
                    self.data@ == pre.data@ + Seq::new(
                        (self.data@.len() - pre.data@.len()) as nat,
                        |j: int| 0u8,
                    ),
                decreases self.pos - self.data.len(),
            {
                self.data.push(0u8);
                proof {
                    assert(self.data@ =~= pre.data@ + Seq::new(
                        (self.data@.len() - pre.data@.len()) as nat,
                        |j: int| 0u8,
                    ));
                }
            }
            proof {
                assert(self.data@ =~= zero_pad(pre.data@, pre.pos as int));
            }
            let ghost padded = self.data@;
            let mut i: usize = 0;
            while i < buf.len()
                invariant
                    i <= buf@.len(),
                    self.pos == pre.pos,
                    self.grow == pre.grow,
                    self.fail_with == pre.fail_with,
                    pre.pos as int + buf@.len() <= usize::MAX as int,
                    padded == zero_pad(pre.data@, pre.pos as int),
                    pre.pos as int <= padded.len(),
                    self.data@.len() == (if pre.pos as int + i as int <= padded.len() {
                        padded.len() as int
                    } else {
                        pre.pos as int + i as int
                    }),
                    self.data@ == spliced(pre.data@, pre.pos as int, buf@.take(i as int)),
                decreases buf@.len() - i,
            {
                if self.pos + i < self.data.len() {
                    self.data.set(self.pos + i, buf[i]);
                } else {
                    self.data.push(buf[i]);
                }
                i = i + 1;
                proof {
                    assert(self.data@ =~= spliced(pre.data@, pre.pos as int, buf@.take(i as int)));
                }
            }
            proof {
                assert(buf@.take(buf@.len() as int) =~= buf@);
            }
            self.pos = self.pos + buf.len();
            Ok(buf.len())
        } else {
            let ghost pre = *old(self);
            let len = self.data.len();
            let n: usize = if self.pos < len {
                let room = len - self.pos;
                if buf.len() <= room {
                    buf.len()
                } else {
                    room
                }
            } else {
                0
            };
            if n == 0 {
                proof {
                    if (pre.pos as int) < pre.data@.len() {
                        assert(fixed_written(pre.data@, pre.pos as int, buf@) =~= pre.data@);
                    }
                }
                return Ok(0);
            }
            let mut i: usize = 0;
            while i < n
                invariant
                    i <= n,
                    self.pos == pre.pos,
                    self.grow == pre.grow,
                    self.fail_with == pre.fail_with,
                    self.data@.len() <= usize::MAX as int,
                    self.pos as int + n as int <= self.data@.len(),
                    self.pos as int + i as int <= self.data@.len(),
                    n as int == fixed_accept(pre.data@.len() as int, pre.pos as int, buf@.len() as int),
                    n as int <= buf@.len(),
                    self.data@.len() == pre.data@.len(),
                    self.data@ == pre.data@.take(pre.pos as int) + buf@.take(i as int)
                        + pre.data@.skip(pre.pos as int + i as int),
                decreases n - i,
            {
                self.data.set(self.pos + i, buf[i]);
                i = i + 1;
                proof {
                    assert(self.data@ =~= pre.data@.take(pre.pos as int) + buf@.take(i as int)
                        + pre.data@.skip(pre.pos as int + i as int));
                }
            }
            proof {
                assert(self.data@ =~= fixed_written(pre.data@, pre.pos as int, buf@));
            }
            self.pos = self.pos + n;
            Ok(n)
        }
    }

    /// Moves the position as the whence and offset ask. A sound stream
    /// lands on the resolved target and reports it back, or refuses an
    /// inadmissible target without moving; a faulty stream reports its
    /// failure category and stays unchanged.
    pub fn seek_to(&mut self, whence: Whence, offset: i64) -> (r: Result<u64, IoErrorKind>)
        requires
            old(self).inv(),
        ensures
            final(self).inv(),
            final(self).is_growable() == old(self).is_growable(),
            final(self).failure() == old(self).failure(),
            final(self).bytes() == old(self).bytes(),
            old(self).failure() matches Some(kind) ==> r == Err::<u64, IoErrorKind>(kind)
                && final(self).position() == old(self).position(),
            old(self).failure() is None ==> ({
                let t = seek_target(old(self).bytes().len() as int, old(self).position(), whence, offset as int);
                if seek_target_ok(t) {
                    &&& r matches Ok(p) && p as int == t
                    &&& final(self).position() == t
                } else {
                    &&& r == Err::<u64, IoErrorKind>(IoErrorKind::Other)
                    &&& final(self).position() == old(self).position()
                }
            }),
    {
        if let Some(kind) = self.fail_with {
            return Err(kind);
        }
        let base: i128 = match whence {
            Whence::Start => 0,
            Whence::Current => self.pos as i128,
            Whence::End => self.data.len() as i128,
        };
        let t: i128 = base + offset as i128;
        if t < 0 || t > MAX_POSITION as i128 || t > usize::MAX as i128 {
            return Err(IoErrorKind::Other);
        }
        self.pos = t as usize;
        Ok(t as u64)
    }
}

} // verus!

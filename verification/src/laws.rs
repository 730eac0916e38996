//! Laws that hold across the bridge and the teardown policy, stated over
//! the same native-call sequences the executable contracts use.

use vstd::prelude::*;

use crate::destructor::Mode;
use crate::native::NativeCall;
use crate::native::lemma_release_count_add;
use crate::native::release_count;
use crate::status::WHENCE_SIZE;
use crate::stream::MemStream;
use crate::stream::seek_target_ok;
use crate::stream_io::AllocPlan;
use crate::stream_io::bridge_teardown_actions;
use crate::stream_io::build_actions;
use crate::stream_io::drop_actions;
use crate::stream_io::seek_outcome;

verus! {

/// Appending one call to a sequence raises the release count by one
/// exactly when that call reclaims the host stream.
proof fn lemma_release_count_push(s: Seq<NativeCall>, c: NativeCall)
    ensures
        release_count(s.push(c)) == release_count(s) + (if c is ReleaseStream {
            1nat
        } else {
            0nat
        }),
{
    assert(s.push(c).drop_last() =~= s);
    assert(s.push(c).last() == c);
}

/// The release count of the empty sequence is zero, spelled out for the
/// proofs below.
proof fn lemma_release_count_empty()
    ensures
        release_count(Seq::<NativeCall>::empty()) == 0,
{
}

/// Law: whatever the two native allocations do, and for every capability
/// combination, a host stream handed to a bridge constructor is reclaimed
/// exactly once by the time the bridge is gone — once on the failing
/// construction path, or once when the constructed bridge is torn down.
pub proof fn lemma_stream_released_exactly_once(alloc: AllocPlan)
    ensures
        release_count(
            build_actions(alloc) + (if alloc.buffer_ok && alloc.context_ok {
                bridge_teardown_actions()
            } else {
                Seq::<NativeCall>::empty()
            }),
        ) == 1,
{
    let e = Seq::<NativeCall>::empty();
    lemma_release_count_empty();
    if !alloc.buffer_ok {
        assert(build_actions(alloc) =~= e.push(NativeCall::ReleaseStream));
        lemma_release_count_push(e, NativeCall::ReleaseStream);
        assert(build_actions(alloc) + e =~= build_actions(alloc));
    } else if !alloc.context_ok {
        let s1 = e.push(NativeCall::AllocBuffer);
        let s2 = s1.push(NativeCall::FreeBuffer);
        let s3 = s2.push(NativeCall::ReleaseStream);
        lemma_release_count_push(e, NativeCall::AllocBuffer);
        lemma_release_count_push(s1, NativeCall::FreeBuffer);
        lemma_release_count_push(s2, NativeCall::ReleaseStream);
        assert(build_actions(alloc) =~= s3);
        assert(build_actions(alloc) + e =~= build_actions(alloc));
    } else {
        let s1 = e.push(NativeCall::AllocBuffer);
        let s2 = s1.push(NativeCall::AllocIoContext);
        lemma_release_count_push(e, NativeCall::AllocBuffer);
        lemma_release_count_push(s1, NativeCall::AllocIoContext);
        assert(build_actions(alloc) =~= s2);
        let t1 = e.push(NativeCall::FreeBuffer);
        let t2 = t1.push(NativeCall::FreeIoContext);
        let t3 = t2.push(NativeCall::ReleaseStream);
        lemma_release_count_push(e, NativeCall::FreeBuffer);
        lemma_release_count_push(t1, NativeCall::FreeIoContext);
        lemma_release_count_push(t2, NativeCall::ReleaseStream);
        assert(bridge_teardown_actions() =~= t3);
        lemma_release_count_add(build_actions(alloc), bridge_teardown_actions());
    }
}

/// Law: tearing down a context opened over a bridge never invokes the
/// engine's generic I/O-handle close primitive — the bridge owns the
/// handle, and the policy leaves its reclamation entirely to the bridge.
pub proof fn lemma_bridged_teardown_never_closes_io(mode: Mode)
    requires
        mode is InputCustomIo || mode is OutputCustomIo,
    ensures
        !crate::destructor::teardown_actions(mode).contains(NativeCall::CloseIo),
{
    let acts = crate::destructor::teardown_actions(mode);
    assert forall|i: int| 0 <= i < acts.len() implies acts[i] != NativeCall::CloseIo by {
        match mode {
            Mode::InputCustomIo(io) => {
                assert(acts == seq![NativeCall::CloseInput] + drop_actions(io));
                if i >= 1 {
                    if io.is_open() {
                        assert(drop_actions(io) == bridge_teardown_actions());
                        assert(acts[i] == bridge_teardown_actions()[i - 1]);
                    } else {
                        assert(acts.len() == 1);
                    }
                }
            },
            Mode::OutputCustomIo(io) => {
                assert(acts == seq![NativeCall::FreeFormatContext] + drop_actions(io));
                if i >= 1 {
                    if io.is_open() {
                        assert(drop_actions(io) == bridge_teardown_actions());
                        assert(acts[i] == bridge_teardown_actions()[i - 1]);
                    } else {
                        assert(acts.len() == 1);
                    }
                }
            },
            _ => {
            },
        }
    }
    if acts.contains(NativeCall::CloseIo) {
        let i = choose|i: int| 0 <= i < acts.len() && acts[i] == NativeCall::CloseIo;
        assert(acts[i] != NativeCall::CloseIo);
    }
}

/// Law: a positional seek to an admissible absolute offset, immediately
/// followed by a size query, reports the total size and leaves the stream
/// exactly where the seek put it — the size query moves nothing.
pub proof fn lemma_seek_then_size_query_round_trip(
    s0: MemStream,
    s1: MemStream,
    s2: MemStream,
    offset: int,
    seek_ret: int,
    size_ret: int,
)
    requires
        s0.failure() is None,
        seek_target_ok(offset),
        seek_outcome(s0, s1, offset, crate::status::WHENCE_START as int, seek_ret),
        seek_outcome(s1, s2, 0, WHENCE_SIZE as int, size_ret),
    ensures
        seek_ret == offset,
        s1.position() == offset,
        size_ret == s0.bytes().len(),
        s2.position() == offset,
        s2.bytes() == s0.bytes(),
{
}

/// Law: the default output teardown is the only one that invokes the
/// generic I/O-handle close primitive, and it does so exactly once, first.
pub proof fn lemma_default_output_closes_io()
    ensures
        crate::destructor::teardown_actions(Mode::Output)[0] == NativeCall::CloseIo,
        crate::destructor::teardown_actions(Mode::Output).len() == 2,
{
}

} // verus!

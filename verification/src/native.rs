//! The native primitives the bridge and the teardown policy may order.
//!
//! Contracts in this library do not merely say that resources are freed:
//! they pin down exactly which native primitives run, and in what order,
//! as a sequence of [`NativeCall`] values appended to a log. A test can
//! hand in an empty log and read back the calls, which stands in for an
//! instrumented native layer; the proofs in [`crate::laws`] quantify over
//! the same sequences.

use vstd::prelude::*;

verus! {

/// One call into the native layer, or the reclamation of the host stream.
#[derive(Clone, Copy, Debug, PartialEq, Eq, Structural)]
pub enum NativeCall {
    /// Allocate the fixed-size native I/O buffer.
    AllocBuffer,
    /// Allocate the native I/O context over the buffer, the opaque stream
    /// pointer and the callback triplet.
    AllocIoContext,
    /// Free the native I/O buffer.
    FreeBuffer,
    /// Free the native I/O context struct.
    FreeIoContext,
    /// Reclaim the host stream: the stored type-erased release function,
    /// or, on the construction path before any bridge exists, the plain
    /// drop of the stream value.
    ReleaseStream,
    /// The engine's combined "close input and free context" primitive.
    CloseInput,
    /// The engine's generic I/O-handle close primitive. Bridged contexts
    /// must never see this call: the bridge owns the handle.
    CloseIo,
    /// Free the format context struct alone.
    FreeFormatContext,
}

/// How many times a sequence of native calls reclaims the host stream.
pub open spec fn release_count(log: Seq<NativeCall>) -> nat
    decreases log.len(),
{
    if log.len() == 0 {
        0
    } else {
        release_count(log.drop_last()) + (if log.last() is ReleaseStream {
            1nat
        } else {
            0nat
        })
    }
}

/// The release count distributes over concatenation.
pub proof fn lemma_release_count_add(a: Seq<NativeCall>, b: Seq<NativeCall>)
    ensures
        release_count(a + b) == release_count(a) + release_count(b),
    decreases b.len(),
{
    if b.len() == 0 {
        assert(a + b =~= a);
    } else {
        lemma_release_count_add(a, b.drop_last());
        assert((a + b).drop_last() =~= a + b.drop_last());
        assert((a + b).last() == b.last());
    }
}

} // verus!

//! A verified model of a stream bridge: it adapts an in-process byte stream
//! to the fixed read/write/seek callback triplet of a native media engine,
//! and it pins down the teardown regime of every opened context.
//!
//! The library is split along the engine boundary:
//!
//! - [`status`] holds the engine's status vocabulary and the translation
//!   from host I/O failure categories into it.
//! - [`stream`] is the host stream model: an in-memory byte stream with a
//!   position, an optional growable tail, and optional fault injection.
//! - [`native`] names every native primitive the bridge may order, so that
//!   contracts can state exactly which primitives run, and in what order.
//! - [`stream_io`] is the bridge itself: construction under the two native
//!   allocations, the exposed callback entry points, and teardown.
//! - [`destructor`] is the four-state teardown policy for opened contexts.
//! - [`opening`] holds the decision logic of the open/probe glue: given the
//!   outcomes of the native open calls, it wraps the context under the
//!   matching teardown policy or orders the correct cleanup.
//! - [`laws`] states and proves the release and teardown properties that
//!   hold across those components.

pub mod destructor;
pub mod laws;
pub mod native;
pub mod opening;
pub mod status;
pub mod stream;
pub mod stream_io;

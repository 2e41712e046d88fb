//! A verified bridge from an asynchronously produced audio-frame stream to a
//! foreign caller that works with opaque numeric handles.
//!
//! The bridge validates a setup request against the handle registry, stores
//! a stream resource that owns a single-use cancellation gate, and drives a
//! background task that turns each produced frame into a freshly
//! handle-owned resource and an ordered `FrameReceived` event. The
//! asynchronous plumbing around it (the executor, the oneshot channel, the
//! event sink transport) is left to the embedding; everything the bridge
//! decides is here, verified.

pub mod audio_stream;
pub mod bridge;
pub mod laws;
pub mod errors;
pub mod gate;
pub mod media;
pub mod registry;

use vstd::prelude::*;

verus! {

/// Opaque numeric id identifying one owned resource in the registry.
pub type FfiHandleId = u64;

} // verus!

//! Errors surfaced to the foreign caller at setup time.
//!
//! Everything here is a synchronous validation failure: a handle that does
//! not resolve, a resource of the wrong kind, a track of the wrong media
//! kind, or a stream kind this bridge does not support. Asynchronous
//! event-delivery failures are not errors of the bridge and never appear
//! here.

use vstd::prelude::*;

verus! {

/// Why a request was invalid.
#[derive(Clone, Copy, PartialEq, Eq, Structural, Debug)]
pub enum InvalidRequestReason {
    /// The given handle is not live in the registry.
    HandleNotFound,
    /// The handle is live but owns a resource of another kind.
    HandleTypeMismatch,
    /// The resolved track is not an audio track.
    NotAudioTrack,
    /// The requested stream kind is not supported by this bridge.
    UnsupportedStreamType,
}

/// A typed setup-time failure, always surfaced to the caller, never
/// silently dropped.
#[derive(Clone, Copy, PartialEq, Eq, Structural, Debug)]
pub enum FfiError {
    InvalidRequest(InvalidRequestReason),
}

impl FfiError {
    /// The human-readable message for this error.
    pub fn message(&self) -> (r: String)
        ensures
            *self == FfiError::InvalidRequest(InvalidRequestReason::HandleNotFound)
                ==> r@ == "handle not found"@,
            *self == FfiError::InvalidRequest(InvalidRequestReason::HandleTypeMismatch)
                ==> r@ == "handle type mismatch"@,
            *self == FfiError::InvalidRequest(InvalidRequestReason::NotAudioTrack)
                ==> r@ == "not an audio track"@,
            *self == FfiError::InvalidRequest(InvalidRequestReason::UnsupportedStreamType)
                ==> r@ == "unsupported audio stream type"@,
    {
        match self {
            FfiError::InvalidRequest(InvalidRequestReason::HandleNotFound) => {
                "handle not found".to_owned()
            },
            FfiError::InvalidRequest(InvalidRequestReason::HandleTypeMismatch) => {
                "handle type mismatch".to_owned()
            },
            FfiError::InvalidRequest(InvalidRequestReason::NotAudioTrack) => {
                "not an audio track".to_owned()
            },
            FfiError::InvalidRequest(InvalidRequestReason::UnsupportedStreamType) => {
                "unsupported audio stream type".to_owned()
            },
        }
    }
}

} // verus!

//! Plain-value models of the media-side objects the bridge works with.
//!
//! The bridge never looks inside a track beyond its identity and media kind,
//! and never looks inside a frame beyond treating it as one unit of produced
//! data, so that is all these types carry.

use vstd::prelude::*;

verus! {

/// A reference to an externally-owned audio source. The bridge only needs
/// its identity; it does not own the underlying media object.
#[derive(Clone, Copy, PartialEq, Eq, Structural, Debug)]
pub struct RtcAudioTrack {
    pub sid: u64,
}

/// A reference to an externally-owned video source.
#[derive(Clone, Copy, PartialEq, Eq, Structural, Debug)]
pub struct RtcVideoTrack {
    pub sid: u64,
}

/// The media kind of a track: what an audio-only stream kind must check
/// before bridging.
#[derive(Clone, Copy, PartialEq, Eq, Structural, Debug)]
pub enum MediaStreamTrack {
    Audio(RtcAudioTrack),
    Video(RtcVideoTrack),
}

impl MediaStreamTrack {
    /// True when this track can feed an audio stream.
    pub open spec fn is_audio(self) -> bool {
        self is Audio
    }
}

/// One unit of produced audio data. Once produced it becomes an
/// independently owned resource under its own handle.
#[derive(Clone, Debug)]
pub struct AudioFrame {
    pub data: Vec<i16>,
    pub sample_rate: u32,
    pub num_channels: u32,
    pub samples_per_channel: u32,
}

/// The track resource as stored in the registry: an immutable handle-side
/// reference to a media track, not owned by the bridge.
#[derive(Clone, Copy, PartialEq, Eq, Structural, Debug)]
pub struct FfiTrack {
    pub track: MediaStreamTrack,
}

} // verus!

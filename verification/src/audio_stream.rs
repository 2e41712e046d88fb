//! The pull side of a track's frame sequence.
//!
//! A `NativeAudioStream` stands between a track and the background task: the
//! producer pushes frames in as they are made, the task pulls them out in
//! the same order, and closing the stream ends the sequence and discards
//! anything not yet pulled. The suspension while the queue is empty belongs
//! to the embedding's executor; the order and close behaviour are decided,
//! and verified, here.

use vstd::prelude::*;

use crate::media::{AudioFrame, RtcAudioTrack};

verus! {

/// A pull-based sequence of frames produced by one audio track.
#[derive(Debug)]
pub struct NativeAudioStream {
    /// The track this stream pulls from; immutable for the stream's life.
    pub audio_track: RtcAudioTrack,
    /// Whether the stream has been closed. A closed stream yields nothing.
    pub closed: bool,
    /// Frames produced but not yet pulled, oldest first.
    pub frames: Vec<AudioFrame>,
}

impl NativeAudioStream {
    /// A fresh, open stream over the given track, with nothing produced yet.
    pub fn new(audio_track: RtcAudioTrack) -> (s: Self)
        ensures
            s.audio_track == audio_track,
            !s.closed,
            s.frames@.len() == 0,
    {
        Self { audio_track, closed: false, frames: Vec::new() }
    }

    /// The track this stream was made for.
    pub fn track(&self) -> (t: RtcAudioTrack)
        ensures
            t == self.audio_track,
    {
        self.audio_track
    }

    /// Close the stream: end the sequence and discard any frame not yet
    /// pulled. After this, `next_frame` yields nothing.
    pub fn close(&mut self)
        ensures
            final(self).closed,
            final(self).audio_track == old(self).audio_track,
            final(self).frames@.len() == 0,
    {
        self.closed = true;
        self.frames = Vec::new();
    }

    /// The producer hands over one more frame. A closed stream drops it.
    pub fn push_frame(&mut self, frame: AudioFrame)
        ensures
            final(self).audio_track == old(self).audio_track,
            final(self).closed == old(self).closed,
            old(self).closed ==> final(self).frames@ == old(self).frames@,
            !old(self).closed ==> final(self).frames@ == old(self).frames@.push(frame),
    {
        if !self.closed {
            self.frames.push(frame);
        }
    }

    /// Pull the oldest frame not yet delivered. `None` means no frame is
    /// available: either the stream is closed or nothing is queued.
    pub fn next_frame(&mut self) -> (r: Option<AudioFrame>)
        ensures
            final(self).audio_track == old(self).audio_track,
            final(self).closed == old(self).closed,
            old(self).closed || old(self).frames@.len() == 0 ==> {
                &&& r is None
                &&& final(self).frames@ == old(self).frames@
            },
            !old(self).closed && old(self).frames@.len() > 0 ==> {
                &&& r == Some(old(self).frames@[0])
                &&& final(self).frames@ == old(self).frames@.drop_first()
            },
    {
        if self.closed || self.frames.len() == 0 {
            None
        } else {
            let frame = self.frames.remove(0);
            Some(frame)
        }
    }
}

} // verus!

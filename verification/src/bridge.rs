//! The stream bridge: synchronous setup of a new audio stream, and the
//! decision core of its background delivery task.
//!
//! `FfiAudioStream::setup` validates the request against the registry,
//! allocates the stream's handle and cancellation gate, stores the stream
//! resource, and returns the stream info together with the fresh frame
//! source — all synchronously, without waiting for any producer activity.
//! Spawning the task, racing cancellation against the producer, and sending
//! events are the embedding's work; each observed outcome of that race is
//! fed to `native_audio_stream_task_step`, which makes every decision the
//! task makes and is verified here.

use vstd::prelude::*;

use crate::FfiHandleId;
use crate::audio_stream::NativeAudioStream;
use crate::errors::{FfiError, InvalidRequestReason};
use crate::gate::CancellationGate;
use crate::media::{AudioFrame, MediaStreamTrack};
use crate::registry::{Registry, Resource};

verus! {

/// The stream kinds a caller may request. Only the native kind is
/// supported by this bridge; any other is rejected at setup.
#[derive(Clone, Copy, PartialEq, Eq, Structural, Debug)]
pub enum AudioStreamType {
    AudioStreamNative,
    AudioStreamHtml,
}

/// A caller's synchronous request for a new audio stream over a track it
/// already holds a handle to.
#[derive(Clone, Copy, PartialEq, Eq, Structural, Debug)]
pub struct NewAudioStreamRequest {
    pub track_handle: FfiHandleId,
    pub stream_type: AudioStreamType,
}

/// What a successful setup returns: the new stream's handle and its kind.
#[derive(Clone, Copy, PartialEq, Eq, Structural, Debug)]
pub struct AudioStreamInfo {
    pub handle: FfiHandleId,
    pub stream_type: AudioStreamType,
}

/// One asynchronous event pushed toward the foreign caller: a frame was
/// received on a stream, and now lives under its own fresh handle.
#[derive(Clone, Copy, PartialEq, Eq, Structural, Debug)]
pub struct AudioStreamEvent {
    /// The stream the frame came from.
    pub source_handle: FfiHandleId,
    /// The newly minted handle that owns the frame.
    pub frame_handle: FfiHandleId,
}

/// The stream resource stored in the registry: the stream's own handle,
/// its kind, and the sending half of its cancellation gate. Removing this
/// resource fires that signal, which is what stops the background task.
#[derive(Clone, Copy, PartialEq, Eq, Structural, Debug)]
pub struct FfiAudioStream {
    pub handle_id: FfiHandleId,
    pub stream_type: AudioStreamType,
    /// Fired by registry teardown when this resource is removed.
    pub close_tx: CancellationGate,
}

impl FfiAudioStream {
    /// Set up a new audio stream over `new_stream.track_handle`.
    ///
    /// Resolves the track, requires it to be an audio track and the
    /// requested kind to be supported, then allocates a fresh handle,
    /// stores the stream resource with an unfired gate, and returns the
    /// stream info and the frame source the background task will pull
    /// from. Setup is synchronous: it never waits for the first frame.
    /// On any failure the registry is left exactly as it was.
    pub fn setup(registry: &mut Registry, new_stream: NewAudioStreamRequest) -> (r: Result<
        (AudioStreamInfo, NativeAudioStream),
        FfiError,
    >)
        requires
            old(registry).wf(),
            old(registry).next < FfiHandleId::MAX,
        ensures
            final(registry).wf(),
            ({
                let handles = old(registry).handles@;
                let h = new_stream.track_handle;
                if !handles.contains_key(h) {
                    r == Result::<(AudioStreamInfo, NativeAudioStream), FfiError>::Err(
                        FfiError::InvalidRequest(InvalidRequestReason::HandleNotFound))
                        && *final(registry) == *old(registry)
                } else if !(handles[h] is Track) {
                    r == Result::<(AudioStreamInfo, NativeAudioStream), FfiError>::Err(
                        FfiError::InvalidRequest(InvalidRequestReason::HandleTypeMismatch))
                        && *final(registry) == *old(registry)
                } else if !(handles[h]->Track_0.track is Audio) {
                    r == Result::<(AudioStreamInfo, NativeAudioStream), FfiError>::Err(
                        FfiError::InvalidRequest(InvalidRequestReason::NotAudioTrack))
                        && *final(registry) == *old(registry)
                } else if new_stream.stream_type != AudioStreamType::AudioStreamNative {
                    r == Result::<(AudioStreamInfo, NativeAudioStream), FfiError>::Err(
                        FfiError::InvalidRequest(InvalidRequestReason::UnsupportedStreamType))
                        && *final(registry) == *old(registry)
                } else {
                    r is Ok && {
                        let (info, source) = r->Ok_0;
                        &&& info.handle == old(registry).next
                        &&& !old(registry).handles@.contains_key(info.handle)
                        &&& info.stream_type == new_stream.stream_type
                        &&& final(registry).next == old(registry).next + 1
                        &&& final(registry).handles@ == old(registry).handles@.insert(
                            info.handle,
                            Resource::AudioStream(
                                (FfiAudioStream {
                                    handle_id: info.handle,
                                    stream_type: new_stream.stream_type,
                                    close_tx: (CancellationGate { fired: false }),
                                }),
                            ),
                        )
                        &&& source.audio_track == handles[h]->Track_0.track->Audio_0
                        &&& !source.closed
                        &&& source.frames@.len() == 0
                    }
                }
            }),
    {
        let ffi_track = match registry.retrieve_track(new_stream.track_handle) {
            Ok(t) => t,
            Err(e) => {
                return Err(e);
            },
        };

        let rtc_track = match ffi_track.track {
            MediaStreamTrack::Audio(rtc_track) => rtc_track,
            MediaStreamTrack::Video(_) => {
                return Err(FfiError::InvalidRequest(InvalidRequestReason::NotAudioTrack));
            },
        };

        match new_stream.stream_type {
            AudioStreamType::AudioStreamNative => {
                let close_tx = CancellationGate::new();
                let handle_id = registry.next_id();
                let audio_stream = FfiAudioStream {
                    handle_id,
                    stream_type: new_stream.stream_type,
                    close_tx,
                };
                let native_stream = NativeAudioStream::new(rtc_track);
                let info = AudioStreamInfo {
                    handle: handle_id,
                    stream_type: new_stream.stream_type,
                };
                registry.store(handle_id, Resource::AudioStream(audio_stream));
                Ok((info, native_stream))
            },
            _ => Err(FfiError::InvalidRequest(InvalidRequestReason::UnsupportedStreamType)),
        }
    }
}

/// The state of a stream's background task.
#[derive(Clone, Copy, PartialEq, Eq, Structural, Debug)]
pub enum StreamState {
    Running,
    Terminated,
}

/// One observed outcome of the task's race between the cancellation gate
/// and the track's frame sequence. Which outcome is observed when a frame
/// is in flight as cancellation arrives is a timing race by design; the
/// task is correct for every outcome, so nothing here depends on which
/// wins.
#[derive(Clone, Debug)]
pub enum TaskInput {
    /// The cancellation gate resolved first.
    Cancelled,
    /// The sequence yielded one more frame.
    Frame(AudioFrame),
    /// The sequence ended: the producer is exhausted.
    Exhausted,
}

/// One iteration of the background task, on one observed race outcome.
///
/// Cancellation and exhaustion terminate the task and touch nothing; a
/// frame is stored under a freshly issued handle and announced by a
/// `FrameReceived` event that carries the stream's handle and the new
/// frame handle. Whether the embedding's send of that event succeeds is
/// irrelevant here: delivery failure is non-fatal and changes no state.
/// The task never removes its own stream handle or any frame handle.
pub fn native_audio_stream_task_step(
    registry: &mut Registry,
    stream_handle: FfiHandleId,
    input: TaskInput,
) -> (r: (StreamState, Option<AudioStreamEvent>))
    requires
        old(registry).wf(),
        old(registry).next < FfiHandleId::MAX,
    ensures
        final(registry).wf(),
        match input {
            TaskInput::Cancelled | TaskInput::Exhausted => {
                &&& r.0 == StreamState::Terminated
                &&& r.1 is None
                &&& *final(registry) == *old(registry)
            },
            TaskInput::Frame(frame) => {
                &&& r.0 == StreamState::Running
                &&& r.1 == Some(
                    (AudioStreamEvent {
                        source_handle: stream_handle,
                        frame_handle: old(registry).next,
                    }),
                )
                &&& !old(registry).handles@.contains_key(old(registry).next)
                &&& final(registry).handles@ == old(registry).handles@.insert(
                    old(registry).next,
                    Resource::AudioFrame(frame),
                )
                &&& final(registry).next == old(registry).next + 1
            },
        },
{
    match input {
        TaskInput::Cancelled => (StreamState::Terminated, None),
        TaskInput::Exhausted => (StreamState::Terminated, None),
        TaskInput::Frame(frame) => {
            let handle_id = registry.next_id();
            registry.store(handle_id, Resource::AudioFrame(frame));
            let event = AudioStreamEvent {
                source_handle: stream_handle,
                frame_handle: handle_id,
            };
            (StreamState::Running, Some(event))
        },
    }
}

/// The events the task emits for a sequence of race outcomes: one event
/// per frame, carrying consecutively issued handles starting at `next`,
/// up to but not beyond the first cancellation or exhaustion.
pub open spec fn task_events(
    next: int,
    stream_handle: FfiHandleId,
    inputs: Seq<TaskInput>,
) -> Seq<AudioStreamEvent>
    decreases inputs.len(),
{
    if inputs.len() == 0 {
        Seq::empty()
    } else {
        match inputs[0] {
            TaskInput::Frame(_) => seq![
                (AudioStreamEvent { source_handle: stream_handle, frame_handle: next as u64 }),
            ] + task_events(next + 1, stream_handle, inputs.drop_first()),
            _ => Seq::empty(),
        }
    }
}

/// The frames the task consumes from a sequence of race outcomes: the
/// frames preceding the first cancellation or exhaustion, in order.
pub open spec fn consumed_frames(inputs: Seq<TaskInput>) -> Seq<AudioFrame>
    decreases inputs.len(),
{
    if inputs.len() == 0 {
        Seq::empty()
    } else {
        match inputs[0] {
            TaskInput::Frame(f) => seq![f] + consumed_frames(inputs.drop_first()),
            _ => Seq::empty(),
        }
    }
}

/// The registry contents after the task has consumed a sequence of race
/// outcomes: each frame seen before the first cancellation or exhaustion
/// is stored under its consecutively issued handle.
pub open spec fn task_handles(
    handles: Map<FfiHandleId, Resource>,
    next: int,
    inputs: Seq<TaskInput>,
) -> Map<FfiHandleId, Resource>
    decreases inputs.len(),
{
    if inputs.len() == 0 {
        handles
    } else {
        match inputs[0] {
            TaskInput::Frame(f) => task_handles(
                handles.insert(next as u64, Resource::AudioFrame(f)),
                next + 1,
                inputs.drop_first(),
            ),
            _ => handles,
        }
    }
}

/// Drive one stream's background task over a finite sequence of observed
/// race outcomes, collecting the events it would hand to the event sink,
/// in emission order. The loop runs until the first cancellation or
/// exhaustion, exactly as the task does, and leaves the registry holding
/// every frame it stored.
pub fn run_native_audio_stream_task(
    registry: &mut Registry,
    stream_handle: FfiHandleId,
    inputs: Vec<TaskInput>,
) -> (events: Vec<AudioStreamEvent>)
    requires
        old(registry).wf(),
        old(registry).next + inputs@.len() <= FfiHandleId::MAX,
    ensures
        final(registry).wf(),
        events@ == task_events(old(registry).next as int, stream_handle, inputs@),
        final(registry).handles@ == task_handles(
            old(registry).handles@,
            old(registry).next as int,
            inputs@,
        ),
        final(registry).next == old(registry).next + events@.len(),
{
    let mut inputs = inputs;
    let mut events: Vec<AudioStreamEvent> = Vec::new();
    let ghost all_events = task_events(old(registry).next as int, stream_handle, inputs@);
    let ghost all_handles = task_handles(
        old(registry).handles@,
        old(registry).next as int,
        inputs@,
    );
    loop
        invariant_except_break
            all_events == events@ + task_events(registry.next as int, stream_handle, inputs@),
            all_handles == task_handles(registry.handles@, registry.next as int, inputs@),
        invariant
            registry.wf(),
            registry.next + inputs@.len() <= FfiHandleId::MAX,
            registry.next == old(registry).next + events@.len(),
        ensures
            registry.wf(),
            registry.next == old(registry).next + events@.len(),
            events@ == all_events,
            registry.handles@ == all_handles,
        decreases inputs@.len(),
    {
        if inputs.len() == 0 {
            break;
        }
        let ghost prev_inputs = inputs@;
        let input = inputs.remove(0);
        let (state, event) = native_audio_stream_task_step(registry, stream_handle, input);
        if let Some(event) = event {
            events.push(event);
        }
        if matches!(state, StreamState::Terminated) {
            break;
        }
        proof {
            assert(prev_inputs.drop_first() == inputs@);
        }
    }
    events
}

} // verus!

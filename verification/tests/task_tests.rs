use stream_bridge::bridge::{
    AudioStreamType, FfiAudioStream, NewAudioStreamRequest, StreamState, TaskInput,
    native_audio_stream_task_step, run_native_audio_stream_task,
};
use stream_bridge::media::{AudioFrame, FfiTrack, MediaStreamTrack, RtcAudioTrack};
use stream_bridge::registry::{Registry, Resource};

fn frame(value: i16) -> AudioFrame {
    AudioFrame { data: vec![value; 2], sample_rate: 48000, num_channels: 2, samples_per_channel: 1 }
}

fn registry_with_stream(sid: u64) -> (Registry, u64) {
    let mut registry = Registry::new(1);
    let track_handle = registry.next_id();
    registry.store(
        track_handle,
        Resource::Track(FfiTrack { track: MediaStreamTrack::Audio(RtcAudioTrack { sid }) }),
    );
    let request = NewAudioStreamRequest {
        track_handle,
        stream_type: AudioStreamType::AudioStreamNative,
    };
    let (info, _) = FfiAudioStream::setup(&mut registry, request).unwrap();
    (registry, info.handle)
}

#[test]
fn three_frames_then_exhaustion_give_three_ordered_events() {
    let (mut registry, stream_handle) = registry_with_stream(1);
    let inputs = vec![
        TaskInput::Frame(frame(1)),
        TaskInput::Frame(frame(2)),
        TaskInput::Frame(frame(3)),
        TaskInput::Exhausted,
    ];
    let events = run_native_audio_stream_task(&mut registry, stream_handle, inputs);
    assert_eq!(events.len(), 3);
    for (i, event) in events.iter().enumerate() {
        assert_eq!(event.source_handle, stream_handle);
        let stored = registry.retrieve_audio_frame(event.frame_handle).unwrap();
        assert_eq!(stored.data, vec![(i + 1) as i16; 2]);
    }
    // Distinct fresh handles, issued in order.
    assert!(events[0].frame_handle < events[1].frame_handle);
    assert!(events[1].frame_handle < events[2].frame_handle);
}

#[test]
fn exhaustion_does_not_remove_the_stream_handle() {
    let (mut registry, stream_handle) = registry_with_stream(1);
    let inputs = vec![TaskInput::Frame(frame(1)), TaskInput::Exhausted];
    let events = run_native_audio_stream_task(&mut registry, stream_handle, inputs);
    assert_eq!(events.len(), 1);
    // The stream info stays queryable; releasing it is the caller's job.
    assert!(registry.retrieve_audio_stream(stream_handle).is_ok());
    // The emitted frame handle stays addressable too.
    assert!(registry.retrieve_audio_frame(events[0].frame_handle).is_ok());
}

#[test]
fn cancellation_after_first_event_silences_the_stream() {
    let (mut registry, stream_handle) = registry_with_stream(1);
    let inputs = vec![
        TaskInput::Frame(frame(1)),
        TaskInput::Cancelled,
        TaskInput::Frame(frame(2)),
        TaskInput::Frame(frame(3)),
    ];
    let events = run_native_audio_stream_task(&mut registry, stream_handle, inputs);
    assert_eq!(events.len(), 1);
    assert_eq!(events[0].source_handle, stream_handle);
}

#[test]
fn immediate_cancellation_emits_nothing() {
    let (mut registry, stream_handle) = registry_with_stream(1);
    let before = registry.next;
    let inputs = vec![TaskInput::Cancelled, TaskInput::Frame(frame(1))];
    let events = run_native_audio_stream_task(&mut registry, stream_handle, inputs);
    assert!(events.is_empty());
    assert_eq!(registry.next, before);
}

#[test]
fn removal_then_observed_cancellation_stops_events_for_that_handle() {
    let (mut registry, stream_handle) = registry_with_stream(1);
    // First frame arrives and is delivered.
    let (state, event) = native_audio_stream_task_step(
        &mut registry,
        stream_handle,
        TaskInput::Frame(frame(1)),
    );
    assert_eq!(state, StreamState::Running);
    let event = event.unwrap();
    assert_eq!(event.source_handle, stream_handle);
    // The caller drops the stream handle; teardown fires its signal.
    let removed = registry.remove(stream_handle).unwrap();
    match removed {
        Resource::AudioStream(s) => assert!(s.close_tx.is_fired()),
        _ => panic!("expected a stream resource"),
    }
    // The task observes the fired gate and terminates without an event.
    let (state, event) = native_audio_stream_task_step(
        &mut registry,
        stream_handle,
        TaskInput::Cancelled,
    );
    assert_eq!(state, StreamState::Terminated);
    assert!(event.is_none());
}

#[test]
fn frame_handle_outlives_removed_stream() {
    let (mut registry, stream_handle) = registry_with_stream(1);
    let (_, event) = native_audio_stream_task_step(
        &mut registry,
        stream_handle,
        TaskInput::Frame(frame(7)),
    );
    let frame_handle = event.unwrap().frame_handle;
    registry.remove(stream_handle);
    let stored = registry.retrieve_audio_frame(frame_handle).unwrap();
    assert_eq!(stored.data, vec![7; 2]);
}

#[test]
fn two_interleaved_streams_keep_their_own_order() {
    let (mut registry, stream_a) = registry_with_stream(1);
    let track_b = registry.next_id();
    registry.store(
        track_b,
        Resource::Track(FfiTrack { track: MediaStreamTrack::Audio(RtcAudioTrack { sid: 2 }) }),
    );
    let request = NewAudioStreamRequest {
        track_handle: track_b,
        stream_type: AudioStreamType::AudioStreamNative,
    };
    let (info_b, _) = FfiAudioStream::setup(&mut registry, request).unwrap();
    let stream_b = info_b.handle;

    // A and B take turns observing their next frame on the shared registry.
    let mut events_a = Vec::new();
    let mut events_b = Vec::new();
    for i in 0..3 {
        let (_, ev) = native_audio_stream_task_step(
            &mut registry,
            stream_a,
            TaskInput::Frame(frame(10 + i)),
        );
        events_a.push(ev.unwrap());
        let (_, ev) = native_audio_stream_task_step(
            &mut registry,
            stream_b,
            TaskInput::Frame(frame(20 + i)),
        );
        events_b.push(ev.unwrap());
    }

    for (i, event) in events_a.iter().enumerate() {
        assert_eq!(event.source_handle, stream_a);
        let stored = registry.retrieve_audio_frame(event.frame_handle).unwrap();
        assert_eq!(stored.data, vec![10 + i as i16; 2]);
    }
    for (i, event) in events_b.iter().enumerate() {
        assert_eq!(event.source_handle, stream_b);
        let stored = registry.retrieve_audio_frame(event.frame_handle).unwrap();
        assert_eq!(stored.data, vec![20 + i as i16; 2]);
    }
    assert!(events_a[0].frame_handle < events_a[1].frame_handle);
    assert!(events_a[1].frame_handle < events_a[2].frame_handle);
    assert!(events_b[0].frame_handle < events_b[1].frame_handle);
    assert!(events_b[1].frame_handle < events_b[2].frame_handle);
}

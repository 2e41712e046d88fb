use stream_bridge::bridge::{AudioStreamType, FfiAudioStream, NewAudioStreamRequest};
use stream_bridge::errors::{FfiError, InvalidRequestReason};
use stream_bridge::media::{FfiTrack, MediaStreamTrack, RtcAudioTrack, RtcVideoTrack};
use stream_bridge::registry::{Registry, Resource};

fn registry_with_audio_track(sid: u64) -> (Registry, u64) {
    let mut registry = Registry::new(1);
    let id = registry.next_id();
    registry.store(
        id,
        Resource::Track(FfiTrack { track: MediaStreamTrack::Audio(RtcAudioTrack { sid }) }),
    );
    (registry, id)
}

#[test]
fn setup_native_on_audio_track_succeeds() {
    let (mut registry, track_handle) = registry_with_audio_track(42);
    let request = NewAudioStreamRequest {
        track_handle,
        stream_type: AudioStreamType::AudioStreamNative,
    };
    let (info, source) = FfiAudioStream::setup(&mut registry, request).unwrap();
    assert_eq!(info.stream_type, AudioStreamType::AudioStreamNative);
    assert_ne!(info.handle, track_handle);
    assert_eq!(source.track(), RtcAudioTrack { sid: 42 });
    assert!(!source.closed);

    let stream = registry.retrieve_audio_stream(info.handle).unwrap();
    assert_eq!(stream.handle_id, info.handle);
    assert_eq!(stream.stream_type, AudioStreamType::AudioStreamNative);
    assert!(!stream.close_tx.is_fired());
}

#[test]
fn setup_returns_a_handle_unique_among_live_handles() {
    let (mut registry, track_handle) = registry_with_audio_track(42);
    let request = NewAudioStreamRequest {
        track_handle,
        stream_type: AudioStreamType::AudioStreamNative,
    };
    let (first, _) = FfiAudioStream::setup(&mut registry, request).unwrap();
    let (second, _) = FfiAudioStream::setup(&mut registry, request).unwrap();
    assert_ne!(first.handle, second.handle);
    assert_ne!(first.handle, track_handle);
    assert_ne!(second.handle, track_handle);
    assert!(registry.retrieve_audio_stream(first.handle).is_ok());
    assert!(registry.retrieve_audio_stream(second.handle).is_ok());
}

#[test]
fn setup_on_video_track_is_rejected() {
    let mut registry = Registry::new(1);
    let track_handle = registry.next_id();
    registry.store(
        track_handle,
        Resource::Track(FfiTrack { track: MediaStreamTrack::Video(RtcVideoTrack { sid: 3 }) }),
    );
    let would_be_stream_handle = registry.next;
    let request = NewAudioStreamRequest {
        track_handle,
        stream_type: AudioStreamType::AudioStreamNative,
    };
    let err = FfiAudioStream::setup(&mut registry, request).unwrap_err();
    assert_eq!(err, FfiError::InvalidRequest(InvalidRequestReason::NotAudioTrack));
    assert_eq!(err.message(), "not an audio track");
    // No stream handle was registered.
    assert_eq!(registry.next, would_be_stream_handle);
    let lookup = registry.retrieve_audio_stream(would_be_stream_handle).unwrap_err();
    assert_eq!(lookup, FfiError::InvalidRequest(InvalidRequestReason::HandleNotFound));
}

#[test]
fn setup_on_missing_handle_is_rejected() {
    let mut registry = Registry::new(1);
    let request = NewAudioStreamRequest {
        track_handle: 77,
        stream_type: AudioStreamType::AudioStreamNative,
    };
    let err = FfiAudioStream::setup(&mut registry, request).unwrap_err();
    assert_eq!(err, FfiError::InvalidRequest(InvalidRequestReason::HandleNotFound));
    assert_eq!(err.message(), "handle not found");
}

#[test]
fn setup_on_non_track_handle_is_rejected() {
    let mut registry = Registry::new(1);
    let id = registry.next_id();
    let stray = FfiAudioStream {
        handle_id: id,
        stream_type: AudioStreamType::AudioStreamNative,
        close_tx: stream_bridge::gate::CancellationGate::new(),
    };
    registry.store(id, Resource::AudioStream(stray));
    let request = NewAudioStreamRequest {
        track_handle: id,
        stream_type: AudioStreamType::AudioStreamNative,
    };
    let err = FfiAudioStream::setup(&mut registry, request).unwrap_err();
    assert_eq!(err, FfiError::InvalidRequest(InvalidRequestReason::HandleTypeMismatch));
}

#[test]
fn setup_with_unsupported_stream_type_is_rejected() {
    let (mut registry, track_handle) = registry_with_audio_track(42);
    let request = NewAudioStreamRequest {
        track_handle,
        stream_type: AudioStreamType::AudioStreamHtml,
    };
    let err = FfiAudioStream::setup(&mut registry, request).unwrap_err();
    assert_eq!(err, FfiError::InvalidRequest(InvalidRequestReason::UnsupportedStreamType));
    assert_eq!(err.message(), "unsupported audio stream type");
}

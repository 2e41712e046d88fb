//! The process-wide handle registry: opaque numeric ids mapped to owned,
//! type-erased resources.
//!
//! Ids come from a monotonic generator and are never reused while the
//! registry is live, so a live id is unique among all live handles.
//! Lookup is typed: asking for a kind other than the one stored is a
//! mismatch, not a panic. Removal drops the resource and runs its
//! teardown; for a stream that means firing its cancellation gate.
//!
//! The embedding serialises access behind its own lock, so each operation
//! here is atomic: a lookup concurrent with a removal sees the id fully
//! present or fully absent, never a torn state.

use vstd::prelude::*;

use std::collections::HashMap;

use crate::FfiHandleId;
use crate::bridge::FfiAudioStream;
use crate::errors::{FfiError, InvalidRequestReason};
use crate::media::{AudioFrame, FfiTrack};

verus! {

broadcast use vstd::std_specs::hash::group_hash_axioms;

/// One owned, type-erased resource held under a handle.
#[derive(Clone, Debug)]
pub enum Resource {
    /// A reference to an externally-owned media track.
    Track(FfiTrack),
    /// A live stream bridge: owns the sending half of its cancellation gate.
    AudioStream(FfiAudioStream),
    /// One produced frame, independently owned by the foreign caller.
    AudioFrame(AudioFrame),
}

/// The handle registry: a map from live ids to their resources, with the
/// monotonic id generator.
#[derive(Debug)]
pub struct Registry {
    /// The live handles. Keys are unique by construction of `Map`.
    pub handles: HashMap<FfiHandleId, Resource>,
    /// The next id the generator will hand out; every live id is below it.
    pub next: FfiHandleId,
}

impl Registry {
    /// Every live id was issued in the past: it lies below the generator's
    /// next id, so a fresh id can never collide with a live one.
    pub open spec fn wf(self) -> bool {
        forall|k: FfiHandleId| self.handles@.contains_key(k) ==> k < self.next
    }

    /// An empty registry whose generator starts at the given id.
    pub fn new(first_id: FfiHandleId) -> (r: Registry)
        ensures
            r.wf(),
            r.handles@ == Map::<FfiHandleId, Resource>::empty(),
            r.next == first_id,
    {
        Registry { handles: HashMap::new(), next: first_id }
    }

    /// Issue a fresh id: not currently in use, monotonic, never reused
    /// while the registry is live.
    pub fn next_id(&mut self) -> (id: FfiHandleId)
        requires
            old(self).wf(),
            old(self).next < FfiHandleId::MAX,
        ensures
            final(self).wf(),
            id == old(self).next,
            final(self).next == old(self).next + 1,
            final(self).handles@ == old(self).handles@,
            !old(self).handles@.contains_key(id),
    {
        let id = self.next;
        self.next = self.next + 1;
        id
    }

    /// Store a resource under an issued id. Storing under a live id would
    /// be a programmer error, an invariant violation, and is excluded
    /// outright; so is storing under an id the generator never issued.
    pub fn store(&mut self, id: FfiHandleId, resource: Resource)
        requires
            old(self).wf(),
            !old(self).handles@.contains_key(id),
            id < old(self).next,
        ensures
            final(self).wf(),
            final(self).handles@ == old(self).handles@.insert(id, resource),
            final(self).next == old(self).next,
    {
        self.handles.insert(id, resource);
    }

    /// Typed lookup of a track. Fails with `HandleNotFound` exactly when
    /// the id is not live, and with `HandleTypeMismatch` exactly when the
    /// id owns a resource of another kind.
    pub fn retrieve_track(&self, id: FfiHandleId) -> (r: Result<FfiTrack, FfiError>)
        ensures
            !self.handles@.contains_key(id)
                ==> r == Result::<FfiTrack, FfiError>::Err(
                    FfiError::InvalidRequest(InvalidRequestReason::HandleNotFound)),
            self.handles@.contains_key(id) ==> match self.handles@[id] {
                Resource::Track(t) => r == Result::<FfiTrack, FfiError>::Ok(t),
                _ => r == Result::<FfiTrack, FfiError>::Err(
                    FfiError::InvalidRequest(InvalidRequestReason::HandleTypeMismatch)),
            },
    {
        match self.handles.get(&id) {
            Some(Resource::Track(t)) => Ok(*t),
            Some(_) => Err(FfiError::InvalidRequest(InvalidRequestReason::HandleTypeMismatch)),
            None => Err(FfiError::InvalidRequest(InvalidRequestReason::HandleNotFound)),
        }
    }

    /// Typed lookup of a live stream resource.
    pub fn retrieve_audio_stream(&self, id: FfiHandleId) -> (r: Result<FfiAudioStream, FfiError>)
        ensures
            !self.handles@.contains_key(id)
                ==> r == Result::<FfiAudioStream, FfiError>::Err(
                    FfiError::InvalidRequest(InvalidRequestReason::HandleNotFound)),
            self.handles@.contains_key(id) ==> match self.handles@[id] {
                Resource::AudioStream(s) => r == Result::<FfiAudioStream, FfiError>::Ok(s),
                _ => r == Result::<FfiAudioStream, FfiError>::Err(
                    FfiError::InvalidRequest(InvalidRequestReason::HandleTypeMismatch)),
            },
    {
        match self.handles.get(&id) {
            Some(Resource::AudioStream(s)) => Ok(*s),
            Some(_) => Err(FfiError::InvalidRequest(InvalidRequestReason::HandleTypeMismatch)),
            None => Err(FfiError::InvalidRequest(InvalidRequestReason::HandleNotFound)),
        }
    }

    /// Typed lookup of a produced frame.
    pub fn retrieve_audio_frame(&self, id: FfiHandleId) -> (r: Result<&AudioFrame, FfiError>)
        ensures
            !self.handles@.contains_key(id)
                ==> r is Err && r->Err_0 == FfiError::InvalidRequest(
                    InvalidRequestReason::HandleNotFound),
            self.handles@.contains_key(id) ==> match self.handles@[id] {
                Resource::AudioFrame(f) => r is Ok && *r->Ok_0 == f,
                _ => r is Err && r->Err_0 == FfiError::InvalidRequest(
                    InvalidRequestReason::HandleTypeMismatch),
            },
    {
        match self.handles.get(&id) {
            Some(Resource::AudioFrame(f)) => Ok(f),
            Some(_) => Err(FfiError::InvalidRequest(InvalidRequestReason::HandleTypeMismatch)),
            None => Err(FfiError::InvalidRequest(InvalidRequestReason::HandleNotFound)),
        }
    }

    /// Remove a handle and hand back its resource with teardown applied:
    /// a removed stream comes back with its cancellation gate fired, so
    /// removal requests the stream's background task to stop. Removing an
    /// id that is not live yields `None` and changes nothing, which makes
    /// a second removal of the same id harmless.
    pub fn remove(&mut self, id: FfiHandleId) -> (r: Option<Resource>)
        requires
            old(self).wf(),
        ensures
            final(self).wf(),
            final(self).next == old(self).next,
            final(self).handles@ == old(self).handles@.remove(id),
            !old(self).handles@.contains_key(id) ==> r is None,
            old(self).handles@.contains_key(id) ==> match old(self).handles@[id] {
                Resource::AudioStream(s) => r == Some(Resource::AudioStream(
                    (FfiAudioStream {
                        close_tx: crate::gate::after_fire(s.close_tx),
                        ..s
                    }))),
                _ => r == Some(old(self).handles@[id]),
            },
    {
        match self.handles.remove(&id) {
            Some(Resource::AudioStream(mut s)) => {
                s.close_tx.fire();
                Some(Resource::AudioStream(s))
            },
            Some(other) => Some(other),
            None => None,
        }
    }
}

} // verus!

//! The bridge's delivery guarantees, stated and proved over the task model
//! of `bridge`.
//!
//! The model is exact, so these laws follow from it alone: what a stream
//! emits for a producer that ends, the silence that follows cancellation,
//! and the independence of two streams that share one registry.

use vstd::prelude::*;

use crate::FfiHandleId;
use crate::bridge::{AudioStreamEvent, TaskInput, consumed_frames, task_events, task_handles};
use crate::registry::Resource;

verus! {

/// The shape of everything one task emits: it delivers exactly the frames
/// preceding the first cancellation or exhaustion, one event per frame, in
/// producer order, each carrying the stream's own handle as source and a
/// consecutively issued fresh frame handle.
pub proof fn lemma_task_events_shape(next: int, stream_handle: FfiHandleId, inputs: Seq<TaskInput>)
    requires
        0 <= next,
        next + inputs.len() <= FfiHandleId::MAX,
    ensures
        ({
            let evs = task_events(next, stream_handle, inputs);
            &&& evs.len() == consumed_frames(inputs).len()
            &&& evs.len() <= inputs.len()
            &&& forall|i: int| 0 <= i < evs.len() ==> inputs[i] is Frame
            &&& evs.len() < inputs.len() ==> !(inputs[evs.len() as int] is Frame)
            &&& forall|i: int|
                0 <= i < evs.len() ==> evs[i] == (AudioStreamEvent {
                    source_handle: stream_handle,
                    frame_handle: (next + i) as u64,
                })
        }),
    decreases inputs.len(),
{
    if inputs.len() == 0 {
    } else {
        match inputs[0] {
            TaskInput::Frame(_) => {
                lemma_task_events_shape(next + 1, stream_handle, inputs.drop_first());
                let evs = task_events(next, stream_handle, inputs);
                let rest = task_events(next + 1, stream_handle, inputs.drop_first());
                assert forall|i: int| 0 <= i < evs.len() implies inputs[i] is Frame by {
                    if i > 0 {
                        assert(rest[i - 1] == evs[i]);
                        assert(inputs.drop_first()[i - 1] is Frame);
                    }
                }
                assert forall|i: int|
                    0 <= i < evs.len() implies evs[i] == (AudioStreamEvent {
                        source_handle: stream_handle,
                        frame_handle: (next + i) as u64,
                    }) by {
                    if i > 0 {
                        assert(evs[i] == rest[i - 1]);
                    }
                }
            },
            _ => {},
        }
    }
}

/// The registry contents the task leaves behind: the consumed frames stand
/// under their consecutively issued handles, in producer order; every other
/// live handle is untouched. The task removes nothing, so previously
/// emitted frame handles, and the stream's own handle, stay addressable.
pub proof fn lemma_task_handles_shape(
    handles: Map<FfiHandleId, Resource>,
    next: int,
    inputs: Seq<TaskInput>,
)
    requires
        0 <= next,
        next + inputs.len() <= FfiHandleId::MAX,
    ensures
        ({
            let m = task_handles(handles, next, inputs);
            let c = consumed_frames(inputs);
            &&& forall|k: FfiHandleId|
                m.contains_key(k) <==> (handles.contains_key(k) || next <= k < next + c.len())
            &&& forall|i: int|
                0 <= i < c.len() ==> m[(next + i) as u64] == Resource::AudioFrame(c[i])
            &&& forall|k: FfiHandleId|
                handles.contains_key(k) && !(next <= k < next + c.len()) ==> m[k] == handles[k]
        }),
    decreases inputs.len(),
{
    if inputs.len() == 0 {
    } else {
        match inputs[0] {
            TaskInput::Frame(f) => {
                let h1 = handles.insert(next as u64, Resource::AudioFrame(f));
                lemma_task_handles_shape(h1, next + 1, inputs.drop_first());
                let m = task_handles(handles, next, inputs);
                let c = consumed_frames(inputs);
                let c1 = consumed_frames(inputs.drop_first());
                assert(c == seq![f] + c1);
                assert(c.len() == 1 + c1.len());
                assert forall|i: int|
                    0 <= i < c.len() implies m[(next + i) as u64] == Resource::AudioFrame(
                    c[i],
                ) by {
                    if i == 0 {
                        if next + 1 <= next + i < next + 1 + c1.len() {
                        } else {
                            assert(h1.contains_key(next as u64));
                            assert(m[next as u64] == h1[next as u64]);
                        }
                    } else {
                        assert(c[i] == c1[i - 1]);
                    }
                }
            },
            _ => {},
        }
    }
}

/// For a producer that yields `n` frames and then ends (or is cancelled),
/// exactly `n` `FrameReceived` events are emitted, in producer order, each
/// with a distinct fresh handle, and then nothing more: the events are a
/// function of the consumed prefix alone.
pub proof fn lemma_exact_events_for_ended_producer(
    next: int,
    stream_handle: FfiHandleId,
    inputs: Seq<TaskInput>,
    n: int,
)
    requires
        0 <= next,
        next + inputs.len() <= FfiHandleId::MAX,
        0 <= n <= inputs.len(),
        forall|i: int| 0 <= i < n ==> inputs[i] is Frame,
        n == inputs.len() || !(inputs[n] is Frame),
    ensures
        ({
            let evs = task_events(next, stream_handle, inputs);
            &&& evs.len() == n
            &&& forall|i: int|
                0 <= i < n ==> evs[i] == (AudioStreamEvent {
                    source_handle: stream_handle,
                    frame_handle: (next + i) as u64,
                })
            &&& forall|i: int, j: int|
                0 <= i < j < n ==> evs[i].frame_handle != evs[j].frame_handle
        }),
{
    lemma_task_events_shape(next, stream_handle, inputs);
    let evs = task_events(next, stream_handle, inputs);
    if evs.len() < n {
        assert(inputs[evs.len() as int] is Frame);
    }
    if evs.len() > n {
        assert(inputs[n] is Frame);
    }
}

/// Once the task observes its cancellation gate (or exhaustion) at
/// position `k`, no event past the first `k` race outcomes is ever
/// emitted: after a stream handle's removal fires its cancellation signal,
/// the observed
/// signal silences the stream for good.
pub proof fn lemma_no_events_after_cancellation(
    next: int,
    stream_handle: FfiHandleId,
    inputs: Seq<TaskInput>,
    k: int,
)
    requires
        0 <= next,
        next + inputs.len() <= FfiHandleId::MAX,
        0 <= k < inputs.len(),
        !(inputs[k] is Frame),
    ensures
        task_events(next, stream_handle, inputs).len() <= k,
{
    lemma_task_events_shape(next, stream_handle, inputs);
    let evs = task_events(next, stream_handle, inputs);
    if evs.len() > k {
        assert(inputs[k] is Frame);
    }
}

/// The events of `evs` whose source is the stream `s`, in emission order.
pub open spec fn events_for(evs: Seq<AudioStreamEvent>, s: FfiHandleId) -> Seq<AudioStreamEvent>
    decreases evs.len(),
{
    if evs.len() == 0 {
        Seq::empty()
    } else if evs[0].source_handle == s {
        seq![evs[0]] + events_for(evs.drop_first(), s)
    } else {
        events_for(evs.drop_first(), s)
    }
}

/// The events two concurrently active streams emit when their tasks share
/// one registry. At each scheduler step, the scheduled task observes its
/// next race outcome, if it still has one and has not terminated; a task
/// that observes cancellation or exhaustion terminates, which drops the
/// rest of its outcomes. No ordering across the two streams is assumed:
/// the schedule is arbitrary.
pub open spec fn two_task_events(
    next: int,
    sa: FfiHandleId,
    sb: FfiHandleId,
    ia: Seq<TaskInput>,
    ib: Seq<TaskInput>,
    sched: Seq<bool>,
) -> Seq<AudioStreamEvent>
    decreases sched.len(),
{
    if sched.len() == 0 {
        Seq::empty()
    } else if sched[0] {
        if ia.len() == 0 {
            two_task_events(next, sa, sb, ia, ib, sched.drop_first())
        } else {
            match ia[0] {
                TaskInput::Frame(_) => seq![
                    (AudioStreamEvent { source_handle: sa, frame_handle: next as u64 }),
                ] + two_task_events(next + 1, sa, sb, ia.drop_first(), ib, sched.drop_first()),
                _ => two_task_events(next, sa, sb, Seq::empty(), ib, sched.drop_first()),
            }
        }
    } else {
        if ib.len() == 0 {
            two_task_events(next, sa, sb, ia, ib, sched.drop_first())
        } else {
            match ib[0] {
                TaskInput::Frame(_) => seq![
                    (AudioStreamEvent { source_handle: sb, frame_handle: next as u64 }),
                ] + two_task_events(next + 1, sa, sb, ia, ib.drop_first(), sched.drop_first()),
                _ => two_task_events(next, sa, sb, ia, Seq::empty(), sched.drop_first()),
            }
        }
    }
}

/// The registry contents after the same interleaved run: every consumed
/// frame of either stream stands under the handle issued at its step.
pub open spec fn two_task_handles(
    handles: Map<FfiHandleId, Resource>,
    next: int,
    ia: Seq<TaskInput>,
    ib: Seq<TaskInput>,
    sched: Seq<bool>,
) -> Map<FfiHandleId, Resource>
    decreases sched.len(),
{
    if sched.len() == 0 {
        handles
    } else if sched[0] {
        if ia.len() == 0 {
            two_task_handles(handles, next, ia, ib, sched.drop_first())
        } else {
            match ia[0] {
                TaskInput::Frame(f) => two_task_handles(
                    handles.insert(next as u64, Resource::AudioFrame(f)),
                    next + 1,
                    ia.drop_first(),
                    ib,
                    sched.drop_first(),
                ),
                _ => two_task_handles(handles, next, Seq::empty(), ib, sched.drop_first()),
            }
        }
    } else {
        if ib.len() == 0 {
            two_task_handles(handles, next, ia, ib, sched.drop_first())
        } else {
            match ib[0] {
                TaskInput::Frame(f) => two_task_handles(
                    handles.insert(next as u64, Resource::AudioFrame(f)),
                    next + 1,
                    ia,
                    ib.drop_first(),
                    sched.drop_first(),
                ),
                _ => two_task_handles(handles, next, ia, Seq::empty(), sched.drop_first()),
            }
        }
    }
}

/// An interleaved run leaves every handle below the generator's position
/// untouched: whatever the two tasks store, they store under fresh ids.
proof fn lemma_two_task_handles_preserves(
    handles: Map<FfiHandleId, Resource>,
    next: int,
    ia: Seq<TaskInput>,
    ib: Seq<TaskInput>,
    sched: Seq<bool>,
    k: FfiHandleId,
)
    requires
        0 <= next,
        next + sched.len() <= FfiHandleId::MAX,
        handles.contains_key(k),
        k < next,
    ensures
        ({
            let m = two_task_handles(handles, next, ia, ib, sched);
            m.contains_key(k) && m[k] == handles[k]
        }),
    decreases sched.len(),
{
    if sched.len() == 0 {
    } else if sched[0] {
        if ia.len() == 0 {
            lemma_two_task_handles_preserves(handles, next, ia, ib, sched.drop_first(), k);
        } else {
            match ia[0] {
                TaskInput::Frame(f) => {
                    let h1 = handles.insert(next as u64, Resource::AudioFrame(f));
                    lemma_two_task_handles_preserves(
                        h1,
                        next + 1,
                        ia.drop_first(),
                        ib,
                        sched.drop_first(),
                        k,
                    );
                },
                _ => {
                    lemma_two_task_handles_preserves(
                        handles,
                        next,
                        Seq::empty(),
                        ib,
                        sched.drop_first(),
                        k,
                    );
                },
            }
        }
    } else {
        if ib.len() == 0 {
            lemma_two_task_handles_preserves(handles, next, ia, ib, sched.drop_first(), k);
        } else {
            match ib[0] {
                TaskInput::Frame(f) => {
                    let h1 = handles.insert(next as u64, Resource::AudioFrame(f));
                    lemma_two_task_handles_preserves(
                        h1,
                        next + 1,
                        ia,
                        ib.drop_first(),
                        sched.drop_first(),
                        k,
                    );
                },
                _ => {
                    lemma_two_task_handles_preserves(
                        handles,
                        next,
                        ia,
                        Seq::empty(),
                        sched.drop_first(),
                        k,
                    );
                },
            }
        }
    }
}

/// Two concurrently active streams never disturb each other's ordering
/// guarantee: under any schedule, the events carrying one stream's handle
/// are a prefix of that stream's own consumed frames, in that stream's
/// producer order — delivered with strictly increasing frame handles, each
/// of which owns the corresponding frame in the shared registry — however
/// the other stream behaves.
pub proof fn lemma_two_streams_keep_order(
    handles: Map<FfiHandleId, Resource>,
    next: int,
    sa: FfiHandleId,
    sb: FfiHandleId,
    ia: Seq<TaskInput>,
    ib: Seq<TaskInput>,
    sched: Seq<bool>,
)
    requires
        sa != sb,
        0 <= next,
        next + sched.len() <= FfiHandleId::MAX,
    ensures
        ({
            let evs = two_task_events(next, sa, sb, ia, ib, sched);
            let m = two_task_handles(handles, next, ia, ib, sched);
            let pa = events_for(evs, sa);
            let pb = events_for(evs, sb);
            let ca = consumed_frames(ia);
            let cb = consumed_frames(ib);
            &&& pa.len() <= ca.len()
            &&& pb.len() <= cb.len()
            &&& forall|i: int| 0 <= i < pa.len() ==> next <= #[trigger] pa[i].frame_handle
            &&& forall|i: int| 0 <= i < pb.len() ==> next <= #[trigger] pb[i].frame_handle
            &&& forall|i: int, j: int|
                0 <= i < j < pa.len() ==> pa[i].frame_handle < pa[j].frame_handle
            &&& forall|i: int, j: int|
                0 <= i < j < pb.len() ==> pb[i].frame_handle < pb[j].frame_handle
            &&& forall|i: int|
                0 <= i < pa.len() ==> m.contains_key(#[trigger] pa[i].frame_handle)
                    && m[pa[i].frame_handle] == Resource::AudioFrame(ca[i])
            &&& forall|i: int|
                0 <= i < pb.len() ==> m.contains_key(#[trigger] pb[i].frame_handle)
                    && m[pb[i].frame_handle] == Resource::AudioFrame(cb[i])
        }),
    decreases sched.len(),
{
    let evs = two_task_events(next, sa, sb, ia, ib, sched);
    let m = two_task_handles(handles, next, ia, ib, sched);
    if sched.len() == 0 {
    } else if sched[0] {
        if ia.len() == 0 {
            lemma_two_streams_keep_order(handles, next, sa, sb, ia, ib, sched.drop_first());
        } else {
            match ia[0] {
                TaskInput::Frame(f) => {
                    let h1 = handles.insert(next as u64, Resource::AudioFrame(f));
                    let e0 = AudioStreamEvent { source_handle: sa, frame_handle: next as u64 };
                    let evs1 = two_task_events(
                        next + 1,
                        sa,
                        sb,
                        ia.drop_first(),
                        ib,
                        sched.drop_first(),
                    );
                    lemma_two_streams_keep_order(
                        h1,
                        next + 1,
                        sa,
                        sb,
                        ia.drop_first(),
                        ib,
                        sched.drop_first(),
                    );
                    lemma_two_task_handles_preserves(
                        h1,
                        next + 1,
                        ia.drop_first(),
                        ib,
                        sched.drop_first(),
                        next as u64,
                    );
                    assert(evs == seq![e0] + evs1);
                    assert((seq![e0] + evs1).drop_first() =~= evs1);
                    assert(events_for(evs, sa) == seq![e0] + events_for(evs1, sa));
                    assert(events_for(evs, sb) == events_for(evs1, sb));
                    let pa = events_for(evs, sa);
                    let pa1 = events_for(evs1, sa);
                    let ca = consumed_frames(ia);
                    let ca1 = consumed_frames(ia.drop_first());
                    assert(ca == seq![f] + ca1);
                    assert(m.contains_key(next as u64) && m[next as u64] == Resource::AudioFrame(
                        f,
                    ));
                    assert forall|i: int|
                        0 <= i < pa.len() implies m.contains_key(#[trigger] pa[i].frame_handle)
                        && m[pa[i].frame_handle] == Resource::AudioFrame(ca[i]) by {
                        if i == 0 {
                            assert(pa[0] == e0);
                            assert(ca[0] == f);
                        } else {
                            assert(pa[i] == pa1[i - 1]);
                            assert(ca[i] == ca1[i - 1]);
                        }
                    }
                    assert forall|i: int, j: int|
                        0 <= i < j < pa.len() implies pa[i].frame_handle < pa[j].frame_handle by {
                        if i == 0 {
                            assert(pa[j] == pa1[j - 1]);
                        } else {
                            assert(pa[i] == pa1[i - 1]);
                            assert(pa[j] == pa1[j - 1]);
                        }
                    }
                },
                _ => {
                    lemma_two_streams_keep_order(
                        handles,
                        next,
                        sa,
                        sb,
                        Seq::empty(),
                        ib,
                        sched.drop_first(),
                    );
                },
            }
        }
    } else {
        if ib.len() == 0 {
            lemma_two_streams_keep_order(handles, next, sa, sb, ia, ib, sched.drop_first());
        } else {
            match ib[0] {
                TaskInput::Frame(f) => {
                    let h1 = handles.insert(next as u64, Resource::AudioFrame(f));
                    let e0 = AudioStreamEvent { source_handle: sb, frame_handle: next as u64 };
                    let evs1 = two_task_events(
                        next + 1,
                        sa,
                        sb,
                        ia,
                        ib.drop_first(),
                        sched.drop_first(),
                    );
                    lemma_two_streams_keep_order(
                        h1,
                        next + 1,
                        sa,
                        sb,
                        ia,
                        ib.drop_first(),
                        sched.drop_first(),
                    );
                    lemma_two_task_handles_preserves(
                        h1,
                        next + 1,
                        ia,
                        ib.drop_first(),
                        sched.drop_first(),
                        next as u64,
                    );
                    assert(evs == seq![e0] + evs1);
                    assert((seq![e0] + evs1).drop_first() =~= evs1);
                    assert(events_for(evs, sb) == seq![e0] + events_for(evs1, sb));
                    assert(events_for(evs, sa) == events_for(evs1, sa));
                    let pb = events_for(evs, sb);
                    let pb1 = events_for(evs1, sb);
                    let cb = consumed_frames(ib);
                    let cb1 = consumed_frames(ib.drop_first());
                    assert(cb == seq![f] + cb1);
                    assert(m.contains_key(next as u64) && m[next as u64] == Resource::AudioFrame(
                        f,
                    ));
                    assert forall|i: int|
                        0 <= i < pb.len() implies m.contains_key(#[trigger] pb[i].frame_handle)
                        && m[pb[i].frame_handle] == Resource::AudioFrame(cb[i]) by {
                        if i == 0 {
                            assert(pb[0] == e0);
                            assert(cb[0] == f);
                        } else {
                            assert(pb[i] == pb1[i - 1]);
                            assert(cb[i] == cb1[i - 1]);
                        }
                    }
                    assert forall|i: int, j: int|
                        0 <= i < j < pb.len() implies pb[i].frame_handle < pb[j].frame_handle by {
                        if i == 0 {
                            assert(pb[j] == pb1[j - 1]);
                        } else {
                            assert(pb[i] == pb1[i - 1]);
                            assert(pb[j] == pb1[j - 1]);
                        }
                    }
                },
                _ => {
                    lemma_two_streams_keep_order(
                        handles,
                        next,
                        sa,
                        sb,
                        ia,
                        Seq::empty(),
                        sched.drop_first(),
                    );
                },
            }
        }
    }
}

} // verus!

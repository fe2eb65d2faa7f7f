use vstd::prelude::*;

use crate::frame::FrameInfo;
use crate::session::{
    fail, held_info, initial_state, next, run, valid, Action, CaptureState, FailReason,
    FrameEvent, Input, Phase,
};

verus! {

/// The inputs of a sequence of frame events.
pub open spec fn frames(events: Seq<FrameEvent>) -> Seq<Input> {
    events.map_values(|e: FrameEvent| Input::Frame(e))
}

/// The geometry a geometry event announces.
pub open spec fn announced(e: FrameEvent) -> FrameInfo {
    match e {
        FrameEvent::Geometry { format, width, height, stride } => FrameInfo {
            format,
            width,
            height,
            stride,
        },
        _ => arbitrary(),
    }
}

/// No step of the inputs, taken from `s`, asks for an allocation.
pub open spec fn no_allocation(s: CaptureState, inputs: Seq<Input>) -> bool
    decreases inputs.len(),
{
    if inputs.len() == 0 {
        true
    } else {
        !(next(s, inputs[0]).1 is Allocate) && no_allocation(next(s, inputs[0]).0, inputs.drop_first())
    }
}

proof fn lemma_frames_drop_first(events: Seq<FrameEvent>)
    requires
        events.len() > 0,
    ensures
        frames(events)[0] == Input::Frame(events[0]),
        frames(events).drop_first() == frames(events.drop_first()),
{
    assert(frames(events).drop_first() =~= frames(events.drop_first()));
}

proof fn lemma_geometry_run(s: CaptureState, events: Seq<FrameEvent>)
    requires
        s.phase is Started || s.phase is CollectingGeometry,
        events.len() > 0,
        forall|k: int| 0 <= k < events.len() ==> (#[trigger] events[k]) is Geometry,
    ensures
        run(s, frames(events)).phase == Phase::CollectingGeometry(announced(events.last())),
    decreases events.len(),
{
    lemma_frames_drop_first(events);
    let s1 = next(s, Input::Frame(events[0])).0;
    assert(events[0] is Geometry);
    assert(s1.phase == Phase::CollectingGeometry(announced(events[0])));
    if events.len() > 1 {
        let rest = events.drop_first();
        assert forall|k: int| 0 <= k < rest.len() implies (#[trigger] rest[k]) is Geometry by {
            assert(rest[k] == events[k + 1]);
        }
        lemma_geometry_run(s1, rest);
        assert(rest.last() == events.last());
        assert(run(s, frames(events)) == run(s1, frames(rest)));
    } else {
        assert(frames(events).drop_first().len() == 0);
        assert(run(s1, frames(events).drop_first()) == s1);
        assert(run(s, frames(events)) == s1);
    }
}

/// After any non-empty run of geometry events, the end of geometry asks for
/// a buffer described by the last event alone, whatever came before it.
pub proof fn lemma_last_geometry_wins(s: CaptureState, events: Seq<FrameEvent>)
    requires
        s.phase is Started || s.phase is CollectingGeometry,
        events.len() > 0,
        forall|k: int| 0 <= k < events.len() ==> (#[trigger] events[k]) is Geometry,
    ensures
        ({
            let last = announced(events.last());
            let r = next(run(s, frames(events)), Input::Frame(FrameEvent::GeometryDone));
            if last.fits_wire() {
                r.0.phase == Phase::Allocating(last) && r.1 == Action::Allocate(last.request_spec())
            } else {
                r.0.phase == Phase::Failed(FailReason::ResourceExhausted) && r.1 == Action::Finish
            }
        }),
{
    lemma_geometry_run(s, events);
}

/// The end of geometry before any geometry was announced is a sequence
/// error, and no allocation is asked for before or at it.
pub proof fn lemma_done_without_geometry(s: CaptureState, events: Seq<FrameEvent>)
    requires
        s.phase is Started,
        forall|k: int| 0 <= k < events.len() ==> !((#[trigger] events[k]) is Geometry),
    ensures
        no_allocation(s, frames(events).push(Input::Frame(FrameEvent::GeometryDone))),
        run(s, frames(events)).phase is Started ==> next(
            run(s, frames(events)),
            Input::Frame(FrameEvent::GeometryDone),
        ) == fail(run(s, frames(events)), FailReason::ProtocolSequence),
        run(s, frames(events).push(Input::Frame(FrameEvent::GeometryDone))).phase is Failed,
    decreases events.len(),
{
    let done = Input::Frame(FrameEvent::GeometryDone);
    if events.len() == 0 {
        let s1 = next(s, done).0;
        assert(frames(events) =~= Seq::<Input>::empty());
        assert(frames(events).push(done) =~= seq![done]);
        assert(seq![done].drop_first() =~= Seq::<Input>::empty());
        assert(run(s1, Seq::<Input>::empty()) == s1);
        assert(run(s, seq![done]) == s1);
        assert(no_allocation(s1, Seq::<Input>::empty()));
        assert(no_allocation(s, seq![done]));
    } else {
        lemma_frames_drop_first(events);
        let s1 = next(s, Input::Frame(events[0])).0;
        assert(!(events[0] is Geometry));
        let rest = events.drop_first();
        assert forall|k: int| 0 <= k < rest.len() implies !((#[trigger] rest[k]) is Geometry) by {
            assert(rest[k] == events[k + 1]);
        }
        let all = frames(events).push(done);
        assert(all.drop_first() =~= frames(rest).push(done));
        assert(all[0] == Input::Frame(events[0]));
        assert(run(s, all) == run(s1, frames(rest).push(done)));
        assert(run(s, frames(events)) == run(s1, frames(rest)));
        if s1.phase is Started {
            lemma_done_without_geometry(s1, rest);
        } else {
            assert(s1.phase is Failed);
            lemma_failed_stays(s1, frames(rest).push(done));
            lemma_failed_stays(s1, frames(rest));
        }
    }
}

proof fn lemma_failed_stays(s: CaptureState, inputs: Seq<Input>)
    requires
        s.phase is Failed,
    ensures
        run(s, inputs) == s,
        no_allocation(s, inputs),
    decreases inputs.len(),
{
    if inputs.len() > 0 {
        lemma_failed_stays(s, inputs.drop_first());
    }
}

/// A frame reported ready before any buffer was allocated is a sequence
/// error.
pub proof fn lemma_ready_before_buffer(s: CaptureState, tv_sec_hi: u32, tv_sec_lo: u32, tv_nsec: u32)
    requires
        s.phase is Started || s.phase is CollectingGeometry,
    ensures
        next(s, Input::Frame(FrameEvent::Ready { tv_sec_hi, tv_sec_lo, tv_nsec })) == fail(
            s,
            FailReason::ProtocolSequence,
        ),
{
}

/// Every allocation asked for is of `stride * height` bytes of the frame the
/// capture then holds; the width never enters the size.
pub proof fn lemma_allocation_size(s: CaptureState, i: Input)
    requires
        valid(s),
    ensures
        next(s, i).1 is Allocate ==> ({
            let req = next(s, i).1->Allocate_0;
            &&& held_info(next(s, i).0.phase) matches Some(info)
            &&& req.size as int == info.stride as int * info.height as int
            &&& req.width as int == info.width as int
            &&& req.height as int == info.height as int
            &&& req.stride as int == info.stride as int
        }),
{
}

/// The compositor's failure ends a capture in any state, with no frame and
/// nothing more to do but release the buffer.
pub proof fn lemma_failure_ends_capture(s: CaptureState)
    ensures
        next(s, Input::Frame(FrameEvent::Failed)).0.phase is Failed,
        held_info(next(s, Input::Frame(FrameEvent::Failed)).0.phase) is None,
        s.phase is Failed ==> next(s, Input::Frame(FrameEvent::Failed)) == (s, Action::Wait),
        !(s.phase is Failed) ==> next(s, Input::Frame(FrameEvent::Failed)) == fail(
            s,
            FailReason::Compositor,
        ),
{
}

proof fn lemma_held_comes_from_inputs(s: CaptureState, inputs: Seq<Input>)
    ensures
        held_info(run(s, inputs).phase) matches Some(info) ==> held_info(s.phase) == Some(info)
            || exists|k: int|
            0 <= k < inputs.len() && #[trigger] inputs[k] == Input::Frame(
                FrameEvent::Geometry {
                    format: info.format,
                    width: info.width,
                    height: info.height,
                    stride: info.stride,
                },
            ),
    decreases inputs.len(),
{
    if inputs.len() > 0 {
        let s1 = next(s, inputs[0]).0;
        let rest = inputs.drop_first();
        lemma_held_comes_from_inputs(s1, rest);
        if let Some(info) = held_info(run(s, inputs).phase) {
            let g = Input::Frame(
                FrameEvent::Geometry {
                    format: info.format,
                    width: info.width,
                    height: info.height,
                    stride: info.stride,
                },
            );
            if held_info(s1.phase) == Some(info) {
                if held_info(s.phase) != Some(info) {
                    assert(inputs[0] == g);
                }
            } else {
                let k = choose|k: int| 0 <= k < rest.len() && #[trigger] rest[k] == g;
                assert(inputs[k + 1] == g);
            }
        }
    }
}

/// Captures are independent: a fresh capture holds no geometry, and any
/// geometry it comes to hold was announced by one of its own events, never
/// by an earlier capture's.
pub proof fn lemma_fresh_capture_independent(inputs: Seq<Input>)
    ensures
        held_info(initial_state().phase) is None,
        initial_state().flags is None,
        initial_state().ready_at is None,
        held_info(run(initial_state(), inputs).phase) matches Some(info) ==> exists|k: int|
            0 <= k < inputs.len() && #[trigger] inputs[k] == Input::Frame(
                FrameEvent::Geometry {
                    format: info.format,
                    width: info.width,
                    height: info.height,
                    stride: info.stride,
                },
            ),
{
    lemma_held_comes_from_inputs(initial_state(), inputs);
}

} // verus!

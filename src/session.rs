use vstd::prelude::*;

use crate::frame::{frame_time_spec, BufferRequest, FrameInfo, FrameTime, PixelFormat};

verus! {

/// Why a capture ended without a frame.
#[derive(Clone, Copy, Debug, PartialEq, Eq, Structural)]
pub enum FailReason {
    /// An event arrived in a state that cannot take it.
    ProtocolSequence,
    /// The shared-memory buffer could not be allocated.
    ResourceExhausted,
    /// The completed buffer could not be read.
    Io,
    /// The compositor aborted the capture.
    Compositor,
    /// The caller's deadline passed before the capture ended.
    Timeout,
}

/// Where a capture stands. The frame's geometry is held from the first
/// geometry event on.
#[derive(Clone, Copy, Debug, PartialEq, Eq, Structural)]
pub enum Phase {
    /// The capture request was sent; no geometry is known yet.
    Started,
    /// At least one geometry event arrived; the newest one is held.
    CollectingGeometry(FrameInfo),
    /// Geometry is final and a buffer of its size is being allocated.
    Allocating(FrameInfo),
    /// The buffer exists and the copy into it was requested.
    BufferAllocated(FrameInfo),
    /// The copy is complete and the buffer is being read.
    Reading(FrameInfo),
    Completed(FrameInfo),
    Failed(FailReason),
}

/// An event of the capture's frame object, or the caller's deadline.
#[derive(Clone, Copy, Debug, PartialEq, Eq, Structural)]
pub enum FrameEvent {
    Geometry { format: PixelFormat, width: u32, height: u32, stride: u32 },
    GeometryDone,
    Flags { flags: u32 },
    Damage { x: u32, y: u32, width: u32, height: u32 },
    AlternateBuffer { fourcc: u32, width: u32, height: u32 },
    Ready { tv_sec_hi: u32, tv_sec_lo: u32, tv_nsec: u32 },
    Failed,
    DeadlineExpired,
}

/// Everything that moves a capture on: a frame event, or the outcome of an
/// action that the driver performed.
#[derive(Clone, Copy, Debug, PartialEq, Eq, Structural)]
pub enum Input {
    Frame(FrameEvent),
    BufferCreated,
    BufferFailed,
    PixelsRead { len: usize },
    PixelsUnreadable,
}

/// What the driver must do after a step.
#[derive(Clone, Copy, Debug, PartialEq, Eq, Structural)]
pub enum Action {
    /// Nothing: wait for the next event.
    Wait,
    /// Allocate a shared-memory buffer, then report how that went.
    Allocate(BufferRequest),
    /// Ask the compositor to copy the frame into the new buffer.
    Copy,
    /// Read `size` bytes of the completed buffer, then report them.
    ReadPixels { size: usize },
    /// The capture is over: release the buffer and its backing file.
    Finish,
}

/// State of one capture: its phase, and what informational events recorded.
#[derive(Clone, Copy, Debug, PartialEq, Eq, Structural)]
pub struct CaptureState {
    pub phase: Phase,
    pub flags: Option<u32>,
    pub ready_at: Option<FrameTime>,
}

pub open spec fn is_terminal(p: Phase) -> bool {
    p is Completed || p is Failed
}

pub open spec fn initial_state() -> CaptureState {
    CaptureState { phase: Phase::Started, flags: None, ready_at: None }
}

pub open spec fn with_phase(s: CaptureState, p: Phase) -> CaptureState {
    CaptureState { phase: p, flags: s.flags, ready_at: s.ready_at }
}

pub open spec fn fail(s: CaptureState, reason: FailReason) -> (CaptureState, Action) {
    (with_phase(s, Phase::Failed(reason)), Action::Finish)
}

/// One step of a capture whose phase is not terminal.
pub open spec fn next_live(s: CaptureState, i: Input) -> (CaptureState, Action) {
    match i {
        Input::Frame(e) => match e {
            FrameEvent::Geometry { format, width, height, stride } => {
                if s.phase is Started || s.phase is CollectingGeometry {
                    let info = FrameInfo { format, width, height, stride };
                    (with_phase(s, Phase::CollectingGeometry(info)), Action::Wait)
                } else {
                    fail(s, FailReason::ProtocolSequence)
                }
            },
            FrameEvent::GeometryDone => match s.phase {
                Phase::CollectingGeometry(info) => {
                    if info.fits_wire() {
                        (with_phase(s, Phase::Allocating(info)), Action::Allocate(info.request_spec()))
                    } else {
                        fail(s, FailReason::ResourceExhausted)
                    }
                },
                _ => fail(s, FailReason::ProtocolSequence),
            },
            FrameEvent::Flags { flags } => (
                CaptureState { phase: s.phase, flags: Some(flags), ready_at: s.ready_at },
                Action::Wait,
            ),
            FrameEvent::Damage { .. } => (s, Action::Wait),
            FrameEvent::AlternateBuffer { .. } => (s, Action::Wait),
            FrameEvent::Ready { tv_sec_hi, tv_sec_lo, tv_nsec } => match s.phase {
                Phase::BufferAllocated(info) => (
                    CaptureState {
                        phase: Phase::Reading(info),
                        flags: s.flags,
                        ready_at: Some(frame_time_spec(tv_sec_hi, tv_sec_lo, tv_nsec)),
                    },
                    Action::ReadPixels { size: info.size_spec() as usize },
                ),
                _ => fail(s, FailReason::ProtocolSequence),
            },
            FrameEvent::Failed => fail(s, FailReason::Compositor),
            FrameEvent::DeadlineExpired => fail(s, FailReason::Timeout),
        },
        Input::BufferCreated => match s.phase {
            Phase::Allocating(info) => (with_phase(s, Phase::BufferAllocated(info)), Action::Copy),
            _ => fail(s, FailReason::ProtocolSequence),
        },
        Input::BufferFailed => match s.phase {
            Phase::Allocating(_) => fail(s, FailReason::ResourceExhausted),
            _ => fail(s, FailReason::ProtocolSequence),
        },
        Input::PixelsRead { len } => match s.phase {
            Phase::Reading(info) => {
                if len as nat == info.size_spec() {
                    (with_phase(s, Phase::Completed(info)), Action::Finish)
                } else {
                    fail(s, FailReason::Io)
                }
            },
            _ => fail(s, FailReason::ProtocolSequence),
        },
        Input::PixelsUnreadable => match s.phase {
            Phase::Reading(_) => fail(s, FailReason::Io),
            _ => fail(s, FailReason::ProtocolSequence),
        },
    }
}

/// The capture's transition function. A failed capture stays as it is; the
/// compositor's failure event ends any other capture, a completed one too,
/// which then holds no frame; every other input leaves a completed capture
/// as it is.
pub open spec fn next(s: CaptureState, i: Input) -> (CaptureState, Action) {
    if s.phase is Failed {
        (s, Action::Wait)
    } else if i == Input::Frame(FrameEvent::Failed) {
        fail(s, FailReason::Compositor)
    } else if s.phase is Completed {
        (s, Action::Wait)
    } else {
        next_live(s, i)
    }
}

/// The frame held by a phase, if any.
pub open spec fn held_info(p: Phase) -> Option<FrameInfo> {
    match p {
        Phase::CollectingGeometry(info) => Some(info),
        Phase::Allocating(info) => Some(info),
        Phase::BufferAllocated(info) => Some(info),
        Phase::Reading(info) => Some(info),
        Phase::Completed(info) => Some(info),
        _ => None,
    }
}

/// Well-formedness of a capture state: a frame for which a buffer was
/// requested fits the protocol's fields.
pub open spec fn valid(s: CaptureState) -> bool {
    match held_info(s.phase) {
        Some(info) => s.phase is CollectingGeometry || info.fits_wire(),
        None => true,
    }
}

/// The state after a sequence of inputs.
pub open spec fn run(s: CaptureState, inputs: Seq<Input>) -> CaptureState
    decreases inputs.len(),
{
    if inputs.len() == 0 {
        s
    } else {
        run(next(s, inputs[0]).0, inputs.drop_first())
    }
}

impl CaptureState {
    pub fn new() -> (r: CaptureState)
        ensures
            r == initial_state(),
    {
        CaptureState { phase: Phase::Started, flags: None, ready_at: None }
    }

    pub fn is_done(&self) -> (r: bool)
        ensures
            r == is_terminal(self.phase),
    {
        match self.phase {
            Phase::Completed(_) | Phase::Failed(_) => true,
            _ => false,
        }
    }

    /// One step of the capture: the next state and what the driver must do.
    pub fn step(self, i: Input) -> (r: (CaptureState, Action))
        requires
            valid(self),
        ensures
            r == next(self, i),
            valid(r.0),
    {
        match self.phase {
            Phase::Failed(_) => (self, Action::Wait),
            _ => {
                if i == Input::Frame(FrameEvent::Failed) {
                    self.failed(FailReason::Compositor)
                } else {
                    match self.phase {
                        Phase::Completed(_) => (self, Action::Wait),
                        _ => self.step_live(i),
                    }
                }
            },
        }
    }

    fn step_live(self, i: Input) -> (r: (CaptureState, Action))
        requires
            valid(self),
            !is_terminal(self.phase),
        ensures
            r == next_live(self, i),
            valid(r.0),
    {
        match i {
            Input::Frame(e) => self.step_frame(e),
            Input::BufferCreated => match self.phase {
                Phase::Allocating(info) => (self.with(Phase::BufferAllocated(info)), Action::Copy),
                _ => self.failed(FailReason::ProtocolSequence),
            },
            Input::BufferFailed => match self.phase {
                Phase::Allocating(_) => self.failed(FailReason::ResourceExhausted),
                _ => self.failed(FailReason::ProtocolSequence),
            },
            Input::PixelsRead { len } => match self.phase {
                Phase::Reading(info) => {
                    if len as u64 == info.buffer_size() {
                        (self.with(Phase::Completed(info)), Action::Finish)
                    } else {
                        self.failed(FailReason::Io)
                    }
                },
                _ => self.failed(FailReason::ProtocolSequence),
            },
            Input::PixelsUnreadable => match self.phase {
                Phase::Reading(_) => self.failed(FailReason::Io),
                _ => self.failed(FailReason::ProtocolSequence),
            },
        }
    }

    fn failed(self, reason: FailReason) -> (r: (CaptureState, Action))
        ensures
            r == fail(self, reason),
    {
        (CaptureState { phase: Phase::Failed(reason), flags: self.flags, ready_at: self.ready_at }, Action::Finish)
    }

    fn with(self, p: Phase) -> (r: CaptureState)
        ensures
            r == with_phase(self, p),
    {
        CaptureState { phase: p, flags: self.flags, ready_at: self.ready_at }
    }

    fn step_frame(self, e: FrameEvent) -> (r: (CaptureState, Action))
        requires
            valid(self),
        ensures
            r == next_live(self, Input::Frame(e)),
            valid(r.0),
    {
        match e {
            FrameEvent::Geometry { format, width, height, stride } => match self.phase {
                Phase::Started | Phase::CollectingGeometry(_) => {
                    let info = FrameInfo { format, width, height, stride };
                    (self.with(Phase::CollectingGeometry(info)), Action::Wait)
                },
                _ => self.failed(FailReason::ProtocolSequence),
            },
            FrameEvent::GeometryDone => match self.phase {
                Phase::CollectingGeometry(info) => match info.buffer_request() {
                    Some(req) => (self.with(Phase::Allocating(info)), Action::Allocate(req)),
                    None => self.failed(FailReason::ResourceExhausted),
                },
                _ => self.failed(FailReason::ProtocolSequence),
            },
            FrameEvent::Flags { flags } => (
                CaptureState { phase: self.phase, flags: Some(flags), ready_at: self.ready_at },
                Action::Wait,
            ),
            FrameEvent::Damage { .. } => (self, Action::Wait),
            FrameEvent::AlternateBuffer { .. } => (self, Action::Wait),
            FrameEvent::Ready { tv_sec_hi, tv_sec_lo, tv_nsec } => match self.phase {
                Phase::BufferAllocated(info) => {
                    let size = info.buffer_size();
                    let t = FrameTime::from_parts(tv_sec_hi, tv_sec_lo, tv_nsec);
                    (
                        CaptureState {
                            phase: Phase::Reading(info),
                            flags: self.flags,
                            ready_at: Some(t),
                        },
                        Action::ReadPixels { size: size as usize },
                    )
                },
                _ => self.failed(FailReason::ProtocolSequence),
            },
            FrameEvent::Failed => self.failed(FailReason::Compositor),
            FrameEvent::DeadlineExpired => self.failed(FailReason::Timeout),
        }
    }
}

} // verus!

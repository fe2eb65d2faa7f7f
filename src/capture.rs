use vstd::prelude::*;

use crate::error::CaptureError;
use crate::frame::FrameInfo;
use crate::session::{
    held_info, initial_state, is_terminal, next, valid, Action, CaptureState, FailReason,
    FrameEvent, Input, Phase,
};

verus! {

/// Cause of a capture whose frame is too large for a shared-memory pool.
pub const OVERSIZED: &'static str = "frame size exceeds what a shared-memory pool can hold";

/// The error a failed capture reports, given why it failed and the cause
/// text the driver supplied.
pub open spec fn error_matches(e: CaptureError, reason: FailReason, cause: Seq<char>) -> bool {
    match reason {
        FailReason::ProtocolSequence => e is ProtocolSequenceError,
        FailReason::ResourceExhausted => e matches CaptureError::ResourceExhausted(c) && c@ == cause,
        FailReason::Io => e matches CaptureError::IoError(c) && c@ == cause,
        FailReason::Compositor => e is CaptureFailed,
        FailReason::Timeout => e is Timeout,
    }
}

/// One capture session: the state machine, the frame's bytes once read, and
/// the cause text of an allocation or read failure.
pub struct CaptureSession {
    pub state: CaptureState,
    pub pixels: Vec<u8>,
    pub cause: String,
}

impl CaptureSession {
    /// Bytes are held exactly when the capture completed, and then they are
    /// the whole buffer.
    pub open spec fn wf(&self) -> bool {
        &&& valid(self.state)
        &&& match self.state.phase {
            Phase::Completed(info) => self.pixels@.len() == info.size_spec(),
            _ => self.pixels@.len() == 0,
        }
    }

    /// A session whose capture request has just been sent.
    pub fn new() -> (r: CaptureSession)
        ensures
            r.wf(),
            r.state == initial_state(),
            r.pixels@.len() == 0,
            r.cause@.len() == 0,
    {
        CaptureSession { state: CaptureState::new(), pixels: Vec::new(), cause: String::new() }
    }

    /// Whether the capture has completed or failed.
    pub fn is_done(&self) -> (r: bool)
        ensures
            r == is_terminal(self.state.phase),
    {
        self.state.is_done()
    }

    /// The frame geometry currently held: the newest announced one.
    pub fn frame_info(&self) -> (r: Option<FrameInfo>)
        ensures
            r == held_info(self.state.phase),
    {
        match self.state.phase {
            Phase::CollectingGeometry(info) => Some(info),
            Phase::Allocating(info) => Some(info),
            Phase::BufferAllocated(info) => Some(info),
            Phase::Reading(info) => Some(info),
            Phase::Completed(info) => Some(info),
            _ => None,
        }
    }

    /// Takes one event of the frame object, or the deadline.
    pub fn handle_event(&mut self, e: FrameEvent) -> (a: Action)
        requires
            old(self).wf(),
        ensures
            final(self).wf(),
            (final(self).state, a) == next(old(self).state, Input::Frame(e)),
            final(self).pixels@ == (if final(self).state.phase is Completed {
                old(self).pixels@
            } else {
                Seq::<u8>::empty()
            }),
            final(self).cause@ == (if old(self).state.phase != final(self).state.phase
                && final(self).state.phase == Phase::Failed(FailReason::ResourceExhausted) {
                OVERSIZED@
            } else {
                old(self).cause@
            }),
    {
        let (s, a) = self.state.step(Input::Frame(e));
        let exhausted = s.phase != self.state.phase && s.phase == Phase::Failed(
            FailReason::ResourceExhausted,
        );
        self.state = s;
        if !matches!(s.phase, Phase::Completed(_)) {
            self.pixels = Vec::new();
        }
        if exhausted {
            self.cause = OVERSIZED.to_owned();
        }
        a
    }

    /// Takes the outcome of an allocation that an `Action::Allocate` asked
    /// for; an error carries the system's cause text.
    pub fn handle_allocation(&mut self, outcome: Result<(), String>) -> (a: Action)
        requires
            old(self).wf(),
        ensures
            final(self).wf(),
            (final(self).state, a) == next(
                old(self).state,
                if outcome is Ok {
                    Input::BufferCreated
                } else {
                    Input::BufferFailed
                },
            ),
            final(self).pixels@ == old(self).pixels@,
            final(self).cause@ == (match outcome {
                Err(c) => if is_terminal(old(self).state.phase) {
                    old(self).cause@
                } else {
                    c@
                },
                Ok(_) => old(self).cause@,
            }),
    {
        let live = !self.state.is_done();
        match outcome {
            Ok(()) => {
                let (s, a) = self.state.step(Input::BufferCreated);
                self.state = s;
                a
            },
            Err(c) => {
                let (s, a) = self.state.step(Input::BufferFailed);
                self.state = s;
                if live {
                    self.cause = c;
                }
                a
            },
        }
    }

    /// Takes the bytes read from the completed buffer, or the cause text of
    /// a failed read.
    pub fn handle_read(&mut self, outcome: Result<Vec<u8>, String>) -> (a: Action)
        requires
            old(self).wf(),
        ensures
            final(self).wf(),
            (final(self).state, a) == next(
                old(self).state,
                match outcome {
                    Ok(b) => Input::PixelsRead { len: b@.len() as usize },
                    Err(_) => Input::PixelsUnreadable,
                },
            ),
            final(self).pixels@ == (match outcome {
                Ok(b) => if old(self).state.phase is Reading && final(self).state.phase is Completed {
                    b@
                } else {
                    old(self).pixels@
                },
                Err(_) => old(self).pixels@,
            }),
            final(self).cause@ == (match outcome {
                Err(c) => if is_terminal(old(self).state.phase) {
                    old(self).cause@
                } else {
                    c@
                },
                Ok(_) => old(self).cause@,
            }),
    {
        let live = !self.state.is_done();
        match outcome {
            Ok(bytes) => {
                let reading = matches!(self.state.phase, Phase::Reading(_));
                let (s, a) = self.state.step(Input::PixelsRead { len: bytes.len() });
                self.state = s;
                if reading && matches!(s.phase, Phase::Completed(_)) {
                    self.pixels = bytes;
                }
                a
            },
            Err(c) => {
                let (s, a) = self.state.step(Input::PixelsUnreadable);
                self.state = s;
                if live {
                    self.cause = c;
                }
                a
            },
        }
    }

    /// The capture's result: the frame's bytes and geometry, or the error
    /// that ended it.
    pub fn finish(self) -> (r: Result<(Vec<u8>, FrameInfo), CaptureError>)
        requires
            self.wf(),
            is_terminal(self.state.phase),
        ensures
            match self.state.phase {
                Phase::Completed(info) => r matches Ok((p, i)) && p@ == self.pixels@ && i == info,
                Phase::Failed(reason) => r matches Err(e) && error_matches(e, reason, self.cause@),
                _ => false,
            },
    {
        match self.state.phase {
            Phase::Completed(info) => Ok((self.pixels, info)),
            Phase::Failed(reason) => Err(
                match reason {
                    FailReason::ProtocolSequence => CaptureError::ProtocolSequenceError,
                    FailReason::ResourceExhausted => CaptureError::ResourceExhausted(self.cause),
                    FailReason::Io => CaptureError::IoError(self.cause),
                    FailReason::Compositor => CaptureError::CaptureFailed,
                    FailReason::Timeout => CaptureError::Timeout,
                },
            ),
            _ => Err(CaptureError::ProtocolSequenceError),
        }
    }
}

} // verus!

use toplevel_capture::capture::CaptureSession;
use toplevel_capture::error::{check_capabilities, CaptureError};
use toplevel_capture::frame::{BufferRequest, FrameInfo, FrameTime, PixelFormat, ARGB8888};
use toplevel_capture::session::{Action, CaptureState, FailReason, FrameEvent, Input, Phase};

const XRGB8888: u32 = 1;

fn geometry(format: PixelFormat, width: u32, height: u32, stride: u32) -> FrameEvent {
    FrameEvent::Geometry { format, width, height, stride }
}

fn ready() -> FrameEvent {
    FrameEvent::Ready { tv_sec_hi: 0, tv_sec_lo: 17, tv_nsec: 5 }
}

/// Drives a session through one full capture of the given geometry and
/// returns the bytes and descriptor.
fn capture_once(info: FrameInfo, fill: u8) -> (Vec<u8>, FrameInfo) {
    let mut s = CaptureSession::new();
    assert_eq!(s.handle_event(geometry(info.format, info.width, info.height, info.stride)), Action::Wait);
    let a = s.handle_event(FrameEvent::GeometryDone);
    let size = match a {
        Action::Allocate(req) => req.size as usize,
        other => panic!("expected an allocation, got {:?}", other),
    };
    assert_eq!(s.handle_allocation(Ok(())), Action::Copy);
    assert_eq!(s.handle_event(ready()), Action::ReadPixels { size });
    assert_eq!(s.handle_read(Ok(vec![fill; size])), Action::Finish);
    assert!(s.is_done());
    s.finish().expect("capture completes")
}

#[test]
fn last_geometry_is_allocated() {
    let mut s = CaptureSession::new();
    s.handle_event(geometry(PixelFormat::Known(XRGB8888), 10, 10, 40));
    s.handle_event(geometry(PixelFormat::Known(ARGB8888), 20, 5, 96));
    s.handle_event(geometry(PixelFormat::Known(XRGB8888), 30, 7, 128));
    let a = s.handle_event(FrameEvent::GeometryDone);
    assert_eq!(
        a,
        Action::Allocate(BufferRequest { size: 128 * 7, width: 30, height: 7, stride: 128, format: XRGB8888 })
    );
    assert_eq!(
        s.frame_info(),
        Some(FrameInfo { format: PixelFormat::Known(XRGB8888), width: 30, height: 7, stride: 128 })
    );
}

#[test]
fn geometry_done_first_is_sequence_error() {
    let mut s = CaptureSession::new();
    assert_eq!(s.handle_event(FrameEvent::Flags { flags: 1 }), Action::Wait);
    let a = s.handle_event(FrameEvent::GeometryDone);
    assert_eq!(a, Action::Finish);
    assert_eq!(s.state.phase, Phase::Failed(FailReason::ProtocolSequence));
    assert_eq!(s.finish(), Err(CaptureError::ProtocolSequenceError));
}

#[test]
fn ready_before_buffer_is_sequence_error() {
    let mut s = CaptureSession::new();
    assert_eq!(s.handle_event(ready()), Action::Finish);
    assert_eq!(s.finish(), Err(CaptureError::ProtocolSequenceError));

    let mut s = CaptureSession::new();
    s.handle_event(geometry(PixelFormat::Known(ARGB8888), 4, 4, 16));
    assert_eq!(s.handle_event(ready()), Action::Finish);
    assert_eq!(s.finish(), Err(CaptureError::ProtocolSequenceError));
}

#[test]
fn padded_rows_size_by_stride() {
    // 100 pixels of 4 bytes need 400 bytes a row; the compositor pads to 512
    let info = FrameInfo { format: PixelFormat::Known(ARGB8888), width: 100, height: 3, stride: 512 };
    assert_eq!(info.buffer_size(), 1536);
    let mut s = CaptureSession::new();
    s.handle_event(geometry(info.format, 100, 3, 512));
    match s.handle_event(FrameEvent::GeometryDone) {
        Action::Allocate(req) => assert_eq!(req.size, 1536),
        other => panic!("expected an allocation, got {:?}", other),
    }
}

#[test]
fn buffer_size_of_largest_geometry() {
    let info = FrameInfo { format: PixelFormat::Known(ARGB8888), width: 1, height: u32::MAX, stride: u32::MAX };
    assert_eq!(info.buffer_size(), (u32::MAX as u64) * (u32::MAX as u64));
    assert_eq!(info.buffer_request(), None);
}

#[test]
fn oversized_frame_is_resource_exhausted_without_allocation() {
    let mut s = CaptureSession::new();
    s.handle_event(geometry(PixelFormat::Known(ARGB8888), 70000, 70000, 280000));
    assert_eq!(s.handle_event(FrameEvent::GeometryDone), Action::Finish);
    assert!(matches!(s.finish(), Err(CaptureError::ResourceExhausted(_))));
}

#[test]
fn failed_event_in_every_state_ends_without_frame() {
    let info = FrameInfo { format: PixelFormat::Known(ARGB8888), width: 2, height: 2, stride: 8 };
    for stop in 0u32..5 {
        let mut s = CaptureSession::new();
        if stop >= 1 {
            s.handle_event(geometry(info.format, 2, 2, 8));
        }
        if stop >= 2 {
            s.handle_event(FrameEvent::GeometryDone);
        }
        if stop >= 3 {
            s.handle_allocation(Ok(()));
        }
        if stop >= 4 {
            s.handle_event(ready());
            s.handle_read(Ok(vec![1u8; 16]));
        }
        assert_eq!(s.handle_event(FrameEvent::Failed), Action::Finish);
        assert!(s.is_done());
        assert!(s.pixels.is_empty());
        assert_eq!(s.finish(), Err(CaptureError::CaptureFailed));
    }
}

#[test]
fn full_hd_capture() {
    let mut s = CaptureSession::new();
    let fmt = PixelFormat::Known(ARGB8888);
    assert_eq!(s.handle_event(geometry(fmt, 1920, 1080, 7680)), Action::Wait);
    assert_eq!(
        s.handle_event(FrameEvent::GeometryDone),
        Action::Allocate(BufferRequest { size: 8_294_400, width: 1920, height: 1080, stride: 7680, format: ARGB8888 })
    );
    assert_eq!(s.handle_allocation(Ok(())), Action::Copy);
    assert_eq!(
        s.handle_event(FrameEvent::Ready { tv_sec_hi: 1, tv_sec_lo: 2, tv_nsec: 3 }),
        Action::ReadPixels { size: 8_294_400 }
    );
    assert_eq!(s.state.ready_at, Some(FrameTime { secs: 4_294_967_298, nsec: 3 }));
    assert_eq!(s.handle_read(Ok(vec![0xab; 8_294_400])), Action::Finish);
    let (bytes, info) = s.finish().expect("capture completes");
    assert_eq!(info, FrameInfo { format: fmt, width: 1920, height: 1080, stride: 7680 });
    assert_eq!(bytes.len(), 8_294_400);
}

#[test]
fn failed_before_geometry_allocates_nothing() {
    let mut s = CaptureSession::new();
    let a = s.handle_event(FrameEvent::Failed);
    assert_eq!(a, Action::Finish);
    assert_eq!(s.frame_info(), None);
    // later events change nothing and ask for nothing
    assert_eq!(s.handle_event(geometry(PixelFormat::Known(ARGB8888), 2, 2, 8)), Action::Wait);
    assert_eq!(s.handle_event(FrameEvent::GeometryDone), Action::Wait);
    assert_eq!(s.finish(), Err(CaptureError::CaptureFailed));
}

#[test]
fn two_captures_are_independent() {
    let first = FrameInfo { format: PixelFormat::Known(ARGB8888), width: 8, height: 4, stride: 32 };
    let second = FrameInfo { format: PixelFormat::Known(XRGB8888), width: 3, height: 2, stride: 16 };
    let (b1, i1) = capture_once(first, 1);
    let fresh = CaptureSession::new();
    assert_eq!(fresh.frame_info(), None);
    assert_eq!(fresh.state, CaptureState::new());
    let (b2, i2) = capture_once(second, 2);
    assert_eq!(i1, first);
    assert_eq!(i2, second);
    assert_eq!(b1, vec![1u8; 128]);
    assert_eq!(b2, vec![2u8; 32]);
}

#[test]
fn unknown_format_reported_but_allocated_as_argb() {
    let fmt = PixelFormat::Unknown(0x3432_5258);
    assert_eq!(fmt.allocation_code(), ARGB8888);
    assert_eq!(fmt.code(), 0x3432_5258);
    assert_eq!(PixelFormat::Known(XRGB8888).allocation_code(), XRGB8888);
    let info = FrameInfo { format: fmt, width: 2, height: 2, stride: 8 };
    let (_, out) = capture_once(info, 0);
    assert_eq!(out.format, fmt);
}

#[test]
fn allocation_failure_carries_cause() {
    let mut s = CaptureSession::new();
    s.handle_event(geometry(PixelFormat::Known(ARGB8888), 2, 2, 8));
    s.handle_event(FrameEvent::GeometryDone);
    assert_eq!(s.handle_allocation(Err("out of memory".to_string())), Action::Finish);
    assert_eq!(s.finish(), Err(CaptureError::ResourceExhausted("out of memory".to_string())));
}

#[test]
fn read_failure_is_io_error() {
    let mut s = CaptureSession::new();
    s.handle_event(geometry(PixelFormat::Known(ARGB8888), 2, 2, 8));
    s.handle_event(FrameEvent::GeometryDone);
    s.handle_allocation(Ok(()));
    s.handle_event(ready());
    assert_eq!(s.handle_read(Err("mmap failed".to_string())), Action::Finish);
    assert_eq!(s.finish(), Err(CaptureError::IoError("mmap failed".to_string())));
}

#[test]
fn short_read_is_io_error() {
    let mut s = CaptureSession::new();
    s.handle_event(geometry(PixelFormat::Known(ARGB8888), 2, 2, 8));
    s.handle_event(FrameEvent::GeometryDone);
    s.handle_allocation(Ok(()));
    s.handle_event(ready());
    assert_eq!(s.handle_read(Ok(vec![0u8; 15])), Action::Finish);
    assert!(s.pixels.is_empty());
    assert!(matches!(s.finish(), Err(CaptureError::IoError(_))));
}

#[test]
fn deadline_is_timeout() {
    let mut s = CaptureSession::new();
    s.handle_event(geometry(PixelFormat::Known(ARGB8888), 2, 2, 8));
    assert_eq!(s.handle_event(FrameEvent::DeadlineExpired), Action::Finish);
    assert_eq!(s.finish(), Err(CaptureError::Timeout));
}

#[test]
fn informational_events_do_not_move_the_capture() {
    let mut s = CaptureSession::new();
    s.handle_event(geometry(PixelFormat::Known(ARGB8888), 2, 2, 8));
    let before = s.state.phase;
    assert_eq!(s.handle_event(FrameEvent::Damage { x: 0, y: 0, width: 2, height: 2 }), Action::Wait);
    assert_eq!(s.handle_event(FrameEvent::AlternateBuffer { fourcc: 7, width: 2, height: 2 }), Action::Wait);
    assert_eq!(s.handle_event(FrameEvent::Flags { flags: 1 }), Action::Wait);
    assert_eq!(s.state.phase, before);
    assert_eq!(s.state.flags, Some(1));
}

#[test]
fn geometry_after_allocation_is_sequence_error() {
    let mut s = CaptureSession::new();
    s.handle_event(geometry(PixelFormat::Known(ARGB8888), 2, 2, 8));
    s.handle_event(FrameEvent::GeometryDone);
    s.handle_allocation(Ok(()));
    assert_eq!(s.handle_event(geometry(PixelFormat::Known(ARGB8888), 4, 4, 16)), Action::Finish);
    assert_eq!(s.finish(), Err(CaptureError::ProtocolSequenceError));
}

#[test]
fn step_matches_session() {
    let (s, a) = CaptureState::new().step(Input::Frame(FrameEvent::GeometryDone));
    assert_eq!(a, Action::Finish);
    assert_eq!(s.phase, Phase::Failed(FailReason::ProtocolSequence));
    let (t, b) = s.step(Input::BufferCreated);
    assert_eq!((t, b), (s, Action::Wait));
}

#[test]
fn frame_time_joins_halves() {
    assert_eq!(FrameTime::from_parts(0, 5, 9), FrameTime { secs: 5, nsec: 9 });
    assert_eq!(FrameTime::from_parts(u32::MAX, u32::MAX, 0).secs, u64::MAX);
}

#[test]
fn capabilities_checked_in_order() {
    assert_eq!(check_capabilities(true, true), Ok(()));
    assert!(matches!(check_capabilities(false, true), Err(CaptureError::TransportUnavailable(_))));
    assert!(matches!(check_capabilities(false, false), Err(CaptureError::TransportUnavailable(_))));
    assert!(matches!(check_capabilities(true, false), Err(CaptureError::CapabilityUnavailable(_))));
}

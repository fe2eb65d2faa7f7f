//! Capture of a single frame of a window through a compositor's toplevel
//! export extension: the capture session's state machine, the frame's
//! geometry and buffer sizing, and the laws they obey.

pub mod capture;
pub mod error;
pub mod frame;
pub mod laws;
pub mod session;

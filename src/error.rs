use vstd::prelude::*;

verus! {

/// Why a capture produced no frame. Every kind ends the capture attempt;
/// none is retried by the library.
#[derive(Clone, Debug, PartialEq, Eq)]
pub enum CaptureError {
    /// No connection to the display server, or it offers no shared memory.
    TransportUnavailable(String),
    /// The compositor does not offer the toplevel export extension.
    CapabilityUnavailable(String),
    /// Events arrived in an order the capture cannot take.
    ProtocolSequenceError,
    /// The shared-memory buffer could not be allocated.
    ResourceExhausted(String),
    /// The completed buffer could not be mapped or read.
    IoError(String),
    /// The caller's deadline passed before the capture ended.
    Timeout,
    /// The compositor reported that the capture failed.
    CaptureFailed,
}

/// Checks that both required protocol objects were found. A missing
/// shared-memory factory means the transport cannot carry a capture; a
/// missing export manager means the compositor lacks the extension.
pub fn check_capabilities(shm_available: bool, manager_available: bool) -> (r: Result<(), CaptureError>)
    ensures
        r is Ok <==> shm_available && manager_available,
        !shm_available ==> r matches Err(CaptureError::TransportUnavailable(_)),
        shm_available && !manager_available ==> r matches Err(
            CaptureError::CapabilityUnavailable(_),
        ),
{
    if !shm_available {
        Err(CaptureError::TransportUnavailable("wl_shm not available".to_owned()))
    } else if !manager_available {
        Err(
            CaptureError::CapabilityUnavailable(
                "hyprland_toplevel_export_manager_v1 not available".to_owned(),
            ),
        )
    } else {
        Ok(())
    }
}

} // verus!

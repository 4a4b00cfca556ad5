//! The macOS backend.

use vstd::prelude::*;

use super::CaptureBackend;
use super::CaptureError;

verus! {

/// Placeholder for the ScreenCaptureKit implementation.
///
/// It answers with ordinary errors: a missing permission or backend must
/// never panic inside the engine's process.
pub struct ScreenCaptureKitBackend;

impl CaptureBackend for ScreenCaptureKitBackend {
    /// Initialization always fails.
    open spec fn may_init(width: u32, height: u32, result: Result<Self, String>) -> bool {
        result matches Err(message) && message@
            == "macOS ScreenCaptureKit backend is not implemented yet; screen-recording permission and a tested stream implementation are required."@
    }

    /// No frame is ever captured, and the buffer is left alone.
    open spec fn may_capture(
        before: Self,
        after: Self,
        old_frame: Seq<u8>,
        new_frame: Seq<u8>,
        timeout_ms: u32,
        result: Result<bool, CaptureError>,
    ) -> bool {
        &&& new_frame == old_frame
        &&& result matches Err(CaptureError::Fatal(message)) && message@
            == "macOS ScreenCaptureKit backend is unavailable"@
    }

    /// There is nothing to release.
    open spec fn may_destroy(before: Self, after: Self) -> bool {
        after == before
    }

    fn init(width: u32, height: u32) -> (result: Result<Self, String>) {
        Err(
            "macOS ScreenCaptureKit backend is not implemented yet; screen-recording permission and a tested stream implementation are required.".to_owned(),
        )
    }

    fn capture_frame(&mut self, buffer: &mut [u8], timeout_ms: u32) -> (result: Result<
        bool,
        CaptureError,
    >) {
        Err(CaptureError::Fatal("macOS ScreenCaptureKit backend is unavailable".to_owned()))
    }

    fn destroy(&mut self) {
    }
}

/// Nothing that the placeholder may do opens it, delivers a frame or touches the
/// buffer.
pub proof fn law_placeholder_only_refuses(
    width: u32,
    height: u32,
    opened: Result<ScreenCaptureKitBackend, String>,
    old_frame: Seq<u8>,
    new_frame: Seq<u8>,
    timeout_ms: u32,
    captured: Result<bool, CaptureError>,
)
    ensures
        ScreenCaptureKitBackend::may_init(width, height, opened) ==> opened is Err,
        ScreenCaptureKitBackend::may_capture(
            ScreenCaptureKitBackend,
            ScreenCaptureKitBackend,
            old_frame,
            new_frame,
            timeout_ms,
            captured,
        ) ==> {
            &&& captured matches Err(CaptureError::Fatal(_))
            &&& new_frame == old_frame
        },
{
}

} // verus!

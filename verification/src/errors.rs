//! Error kinds surfaced by capture and query operations.

use vstd::prelude::*;

verus! {

/// The failure kinds a capture request can surface.  Every operation
/// reports exactly one outcome; nothing is retried internally.
#[derive(Clone, Copy, PartialEq, Eq, Structural, Debug)]
pub enum CaptureError {
    /// Monitor or window enumeration failed at the platform level.
    PlatformQueryFailed,
    /// The platform reported zero monitors, or no monitor matched.
    NoMonitorAvailable,
    /// The crop rectangle has no positive-area intersection with the raster.
    RegionOutOfBounds,
    /// The platform raster grab failed or returned a malformed buffer.
    CaptureFailed,
    /// The codec rejected the raster.
    EncodeFailed,
}

impl CaptureError {
    /// A short human-readable description of the error kind.
    pub fn message(&self) -> (r: &'static str)
        ensures
            *self is PlatformQueryFailed ==> r@ == "platform query failed"@,
            *self is NoMonitorAvailable ==> r@ == "no monitor available"@,
            *self is RegionOutOfBounds ==> r@ == "region out of bounds"@,
            *self is CaptureFailed ==> r@ == "capture failed"@,
            *self is EncodeFailed ==> r@ == "encode failed"@,
    {
        match self {
            CaptureError::PlatformQueryFailed => "platform query failed",
            CaptureError::NoMonitorAvailable => "no monitor available",
            CaptureError::RegionOutOfBounds => "region out of bounds",
            CaptureError::CaptureFailed => "capture failed",
            CaptureError::EncodeFailed => "encode failed",
        }
    }
}

} // verus!

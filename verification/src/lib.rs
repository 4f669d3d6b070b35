//! Screen-capture core: monitor geometry, overlay-window lifecycle,
//! pixel-buffer cropping, PNG encoding and data-URI transport.
use vstd::prelude::*;

pub mod capture;
pub mod encoder;
pub mod geometry;
pub mod orchestrator;
pub mod overlay;
pub mod pixels;

verus! {

/// A point in global desktop coordinates.
#[derive(Clone, Copy, PartialEq, Eq, Structural, Debug)]
pub struct Point {
    pub x: i64,
    pub y: i64,
}

/// Display enumeration or another platform call failed outright; the
/// request cannot proceed and is not retried.
#[derive(Debug, PartialEq, Eq)]
pub struct PlatformError {
    pub message: String,
}

/// Creating the overlay window failed; fatal to the capture session.
/// (Best-effort positioning failures are downgraded to warnings by the
/// caller and never surface as this error.)
#[derive(Debug, PartialEq, Eq)]
pub struct WindowError {
    pub message: String,
}

/// Why a capture request failed. Every failure is surfaced to the caller;
/// nothing is retried and no partial result is substituted.
#[derive(Debug, PartialEq, Eq)]
pub enum CaptureError {
    /// No enumerated monitor matches the requested identifier.
    NoMonitorFound,
    /// A region target's bounds exceed the monitor's captured extent.
    RegionOutOfBounds,
    /// The native screenshot utility exited with non-zero status; carries
    /// the utility's diagnostic output unchanged.
    UtilityFailure { diagnostic: String },
    /// The framebuffer read failed or handed back a malformed buffer;
    /// carries the underlying diagnostic.
    BackendFailure { message: String },
}

/// Why encoding failed: the pixel buffer violated its invariant. Observing
/// this error indicates a defect in the producer of the buffer.
#[derive(Debug, PartialEq, Eq)]
pub enum EncodeError {
    InvalidBuffer,
}

/// Why a clipboard write failed; fatal to the clipboard operation only.
#[derive(Debug, PartialEq, Eq)]
pub enum ClipboardError {
    /// The caller-supplied bytes do not match the declared dimensions.
    InvalidBuffer,
    /// The platform clipboard rejected the write or is unavailable.
    WriteRejected { message: String },
}

} // verus!

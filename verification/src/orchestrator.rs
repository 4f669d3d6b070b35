//! Sequencing of one capture session.
//!
//! The orchestrator is the entry point the UI layer calls: ensure the
//! overlay window exists and is positioned (planned and committed through
//! the overlay manager), have a backend produce pixels, then encode them
//! or hand the raw bytes to the clipboard — encoding is skipped entirely
//! on the clipboard path. After a capture attempt, `finish_capture`
//! dismisses the overlay whatever the outcome was: no error path leaves
//! the overlay visible. Dismissal is a distinct operation from capture
//! itself, since the UI may show the captured image in the overlay before
//! dismissing it.
use vstd::prelude::*;
use vstd::string::StringExecFns;
use crate::CaptureError;
use crate::ClipboardError;
use crate::EncodeError;
use crate::WindowError;
use crate::encoder::Compression;
use crate::encoder::EncodedImage;
use crate::encoder::ImageFormat;
use crate::encoder::encode_png;
use crate::encoder::png_stream_of;
use crate::overlay::OverlayManager;
use crate::pixels::PixelBuffer;
use crate::pixels::crop;
use crate::pixels::lemma_region_bytes;
use crate::pixels::region_bytes;

verus! {

/// The first failure of a capture session: overlay creation, capture
/// itself, or encoding.
#[derive(Debug, PartialEq, Eq)]
pub enum SessionError {
    Window(WindowError),
    Capture(CaptureError),
    Encode(EncodeError),
}

/// Encodes a full-monitor buffer produced by the framebuffer backend.
/// Succeeds on every valid buffer with the deterministic PNG stream of
/// the chosen compression; a malformed buffer is rejected as a backend
/// failure before the encoder sees it.
pub fn capture_fullscreen_encoded(full: PixelBuffer, compression: Compression) -> (r: Result<
    EncodedImage,
    SessionError,
>)
    ensures
        full.valid() ==> (r matches Ok(img) && img.format == ImageFormat::Png && img.bytes@
            == png_stream_of(
            full.data@,
            full.width,
            full.height,
            compression is Best,
        )),
        !full.valid() ==> (r matches Err(
            SessionError::Capture(CaptureError::BackendFailure { .. }),
        )),
{
    if !full.is_valid() {
        return Err(
            SessionError::Capture(
                CaptureError::BackendFailure {
                    message: String::from_str(
                        "capture backend produced a malformed pixel buffer",
                    ),
                },
            ),
        );
    }
    match encode_png(&full, compression) {
        Ok(img) => Ok(img),
        Err(e) => Err(SessionError::Encode(e)),
    }
}

/// Finishes a native-utility capture: a zero exit status yields the PNG
/// stream the utility wrote, byte for byte; a non-zero status is a
/// capture failure carrying the utility's diagnostic output verbatim.
pub fn capture_fullscreen_native(exit_ok: bool, diagnostic: String, png_bytes: Vec<u8>) -> (r:
    Result<EncodedImage, SessionError>)
    ensures
        exit_ok ==> (r matches Ok(img) && img.format == ImageFormat::Png && img.bytes@
            == png_bytes@),
        !exit_ok ==> (r matches Err(
            SessionError::Capture(CaptureError::UtilityFailure { diagnostic: d }),
        ) && d@ == diagnostic@),
{
    match crate::capture::interpret_utility_outcome(exit_ok, diagnostic, png_bytes) {
        Ok(bytes) => Ok(EncodedImage { format: ImageFormat::Png, bytes }),
        Err(e) => Err(SessionError::Capture(e)),
    }
}

/// Captures a monitor-local region out of the full-monitor buffer a
/// backend produced: the bounds are checked against the captured extent
/// first — an out-of-bounds region fails before a single pixel is copied,
/// and no clamped capture is substituted — then the region is cropped in
/// memory and encoded. On success the result is the deterministic PNG
/// stream of exactly the region's bytes.
pub fn capture_region_encoded(
    full: PixelBuffer,
    x: u32,
    y: u32,
    width: u32,
    height: u32,
    compression: Compression,
) -> (r: Result<EncodedImage, SessionError>)
    ensures
        !full.valid() ==> (r matches Err(
            SessionError::Capture(CaptureError::BackendFailure { .. }),
        )),
        full.valid() && !(x + width <= full.width && y + height <= full.height) ==> (r matches Err(
            SessionError::Capture(CaptureError::RegionOutOfBounds),
        )),
        full.valid() && x + width <= full.width && y + height <= full.height && width >= 1
            && height >= 1 ==> (r matches Ok(img) && img.format == ImageFormat::Png
            && img.bytes@ == png_stream_of(
            region_bytes(full, x, y, width, height),
            width,
            height,
            compression is Best,
        )),
        full.valid() && x + width <= full.width && y + height <= full.height && (width == 0
            || height == 0) ==> (r matches Err(SessionError::Encode(EncodeError::InvalidBuffer))),
{
    if !full.is_valid() {
        return Err(
            SessionError::Capture(
                CaptureError::BackendFailure {
                    message: String::from_str(
                        "capture backend produced a malformed pixel buffer",
                    ),
                },
            ),
        );
    }
    let fits_x: bool = (x as u64) + (width as u64) <= (full.width as u64);
    let fits_y: bool = (y as u64) + (height as u64) <= (full.height as u64);
    if !(fits_x && fits_y) {
        return Err(SessionError::Capture(CaptureError::RegionOutOfBounds));
    }
    if width == 0 || height == 0 {
        return Err(SessionError::Encode(EncodeError::InvalidBuffer));
    }
    let region = crop(&full, x, y, width, height);
    proof {
        lemma_region_bytes(full, region, x, y, width, height);
    }
    match encode_png(&region, compression) {
        Ok(img) => Ok(img),
        Err(e) => Err(SessionError::Encode(e)),
    }
}

/// Dismisses the selection UI after a capture attempt, whatever its
/// outcome: the overlay window's visibility flag is off afterwards, its
/// identity and frame untouched, ready for reuse by the next session.
pub fn finish_capture(mgr: &mut OverlayManager)
    ensures
        *final(mgr) == old(mgr).with_visibility(false),
        !final(mgr).is_visible(),
{
    mgr.hide_window();
}

/// Validates a caller-supplied raw RGBA payload for a clipboard write.
/// Clipboard transfer takes raw samples with explicit dimensions, never a
/// compressed container, so encoding is skipped entirely; the byte count
/// must match the declared dimensions exactly, and a payload that does
/// not, or that holds no pixel, is rejected — exactly then — before any
/// platform write.
pub fn clipboard_image(bytes: Vec<u8>, width: u32, height: u32) -> (r: Result<
    PixelBuffer,
    ClipboardError,
>)
    ensures
        r matches Ok(b) ==> b == (PixelBuffer { width, height, data: bytes }) && b.valid(),
        (r is Err) == !(PixelBuffer { width, height, data: bytes }).valid(),
        r matches Err(e) ==> e == ClipboardError::InvalidBuffer,
{
    let image = PixelBuffer { width, height, data: bytes };
    if image.is_valid() {
        Ok(image)
    } else {
        Err(ClipboardError::InvalidBuffer)
    }
}

} // verus!

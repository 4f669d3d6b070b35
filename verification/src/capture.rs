//! Capture targets and the backend-independent capture decisions.
//!
//! A capture backend obtains one full-monitor buffer; everything that can
//! be decided from plain values is decided here: which monitor a target
//! names, whether a region target fits that monitor, how a region is cut
//! out of the full buffer, and how the native screenshot utility's exit is
//! interpreted. Region bounds are checked before any cropping; no partial
//! or clamped capture is ever substituted.
use vstd::prelude::*;
use vstd::string::StringExecFns;
use crate::CaptureError;
use crate::geometry::Monitor;
use crate::pixels::PixelBuffer;
use crate::pixels::crop;

verus! {

/// What a capture request names: a whole monitor, or a monitor-local
/// rectangular region of it.
#[derive(Clone, Copy, PartialEq, Eq, Structural, Debug)]
pub enum CaptureTarget {
    FullMonitor { monitor_id: u32 },
    Region { monitor_id: u32, x: u32, y: u32, width: u32, height: u32 },
}

impl CaptureTarget {
    /// The monitor identifier the target names.
    pub open spec fn monitor_id_spec(self) -> u32 {
        match self {
            CaptureTarget::FullMonitor { monitor_id } => monitor_id,
            CaptureTarget::Region { monitor_id, .. } => monitor_id,
        }
    }

    /// Returns the monitor identifier the target names.
    pub fn monitor_id(&self) -> (r: u32)
        ensures
            r == self.monitor_id_spec(),
    {
        match self {
            CaptureTarget::FullMonitor { monitor_id } => *monitor_id,
            CaptureTarget::Region { monitor_id, .. } => *monitor_id,
        }
    }

    /// The target's region bounds lie inside the monitor's extent. Bounds
    /// are monitor-local; a full-monitor target always fits.
    pub open spec fn fits(self, m: Monitor) -> bool {
        match self {
            CaptureTarget::FullMonitor { .. } => true,
            CaptureTarget::Region { x, y, width, height, .. } => {
                &&& x + width <= m.width
                &&& y + height <= m.height
            },
        }
    }
}

/// The smallest index whose monitor carries `id`; `mons.len()` when none
/// does.
pub open spec fn least_id_index(mons: Seq<Monitor>, id: u32) -> int
    decreases mons.len(),
{
    if mons.len() == 0 {
        0
    } else if mons[0].id == id {
        0
    } else {
        1 + least_id_index(mons.skip(1), id)
    }
}

/// `least_id_index` is the least index carrying `id`: every earlier
/// monitor has another identifier, and it matches unless it equals the
/// length.
pub proof fn lemma_least_id_index(mons: Seq<Monitor>, id: u32)
    ensures
        0 <= least_id_index(mons, id) <= mons.len(),
        least_id_index(mons, id) < mons.len() ==> mons[least_id_index(mons, id)].id == id,
        forall|j: int| 0 <= j < least_id_index(mons, id) ==> (#[trigger] mons[j].id) != id,
    decreases mons.len(),
{
    if mons.len() > 0 && mons[0].id != id {
        lemma_least_id_index(mons.skip(1), id);
        assert forall|j: int| 0 <= j < least_id_index(mons, id) implies (#[trigger] mons[j].id)
            != id by {
            if j > 0 {
                assert(mons.skip(1)[j - 1] == mons[j]);
            }
        }
        if least_id_index(mons, id) < mons.len() {
            assert(mons.skip(1)[least_id_index(mons.skip(1), id)] == mons[least_id_index(
                mons,
                id,
            )]);
        }
    }
}

/// Finds the first enumerated monitor carrying `id`; `None` exactly when
/// no monitor does.
pub fn find_monitor(mons: &Vec<Monitor>, id: u32) -> (r: Option<usize>)
    ensures
        r matches Some(i) ==> i == least_id_index(mons@, id) && i < mons@.len() && mons@[
            i as int
        ].id == id,
        r is None ==> forall|j: int| 0 <= j < mons@.len() ==> (#[trigger] mons@[j].id) != id,
{
    let n = mons.len();
    let mut i: usize = 0;
    while i < n
        invariant
            n == mons@.len(),
            0 <= i <= n,
            forall|j: int| 0 <= j < i ==> (#[trigger] mons@[j].id) != id,
        decreases n - i,
    {
        if mons[i].id == id {
            proof {
                lemma_least_id_index(mons@, id);
            }
            return Some(i);
        }
        i += 1;
    }
    None
}

/// Resolves a capture target against an enumeration snapshot: the index of
/// the first monitor carrying the target's identifier. Fails with
/// `NoMonitorFound` exactly when no monitor matches the identifier, and
/// with `RegionOutOfBounds` exactly when the monitor exists but a region
/// target's bounds exceed its extent. Checked before any capture work.
pub fn resolve_target(mons: &Vec<Monitor>, target: &CaptureTarget) -> (r: Result<
    usize,
    CaptureError,
>)
    ensures
        r matches Ok(i) ==> i == least_id_index(mons@, target.monitor_id_spec()) && i
            < mons@.len() && mons@[i as int].id == target.monitor_id_spec() && target.fits(
            mons@[i as int],
        ),
        r matches Err(e) ==> match e {
            CaptureError::NoMonitorFound => forall|j: int|
                0 <= j < mons@.len() ==> (#[trigger] mons@[j].id) != target.monitor_id_spec(),
            CaptureError::RegionOutOfBounds => {
                let i = least_id_index(mons@, target.monitor_id_spec());
                i < mons@.len() && mons@[i].id == target.monitor_id_spec() && !target.fits(mons@[i])
            },
            _ => false,
        },
{
    let id = target.monitor_id();
    match find_monitor(mons, id) {
        None => Err(CaptureError::NoMonitorFound),
        Some(i) => {
            let m = &mons[i];
            match target {
                CaptureTarget::FullMonitor { .. } => Ok(i),
                CaptureTarget::Region { x, y, width, height, .. } => {
                    let fits_x: bool = (*x as u64) + (*width as u64) <= (m.width as u64);
                    let fits_y: bool = (*y as u64) + (*height as u64) <= (m.height as u64);
                    if fits_x && fits_y {
                        Ok(i)
                    } else {
                        Err(CaptureError::RegionOutOfBounds)
                    }
                },
            }
        },
    }
}

/// Cuts the requested target out of the full-monitor buffer already in
/// memory. A full-monitor target hands the buffer through unchanged; a
/// region target is bounds-checked against the captured extent before
/// cropping, and fails with `RegionOutOfBounds` without touching a single
/// pixel otherwise. A malformed full buffer is rejected as a backend
/// failure before anything else.
pub fn extract_target(full: PixelBuffer, target: &CaptureTarget) -> (r: Result<
    PixelBuffer,
    CaptureError,
>)
    ensures
        !full.valid() ==> (r matches Err(CaptureError::BackendFailure { .. })),
        *target matches CaptureTarget::FullMonitor { .. } ==> (full.valid() ==> (r matches Ok(b)
            && b == full)),
        *target matches CaptureTarget::Region { x, y, width, height, .. } ==> full.valid() ==> {
            if x + width <= full.width && y + height <= full.height {
                r matches Ok(b) && b.width == width && b.height == height && b.data@.len() == width
                    * height * 4 && (forall|row: int, col: int, ch: int|
                    0 <= row < height && 0 <= col < width && 0 <= ch < 4 ==> b.byte_at(
                        col,
                        row,
                        ch,
                    ) == full.byte_at(x + col, y + row, ch))
            } else {
                r matches Err(CaptureError::RegionOutOfBounds)
            }
        },
{
    if !full.is_valid() {
        return Err(
            CaptureError::BackendFailure {
                message: String::from_str("capture backend produced a malformed pixel buffer"),
            },
        );
    }
    match target {
        CaptureTarget::FullMonitor { .. } => Ok(full),
        CaptureTarget::Region { x, y, width, height, .. } => {
            let fits_x: bool = (*x as u64) + (*width as u64) <= (full.width as u64);
            let fits_y: bool = (*y as u64) + (*height as u64) <= (full.height as u64);
            if !(fits_x && fits_y) {
                return Err(CaptureError::RegionOutOfBounds);
            }
            if *width == 0 || *height == 0 {
                // Degenerate region: nothing to copy, and the result's
                // length w * h * 4 is zero either way.
                return Ok(PixelBuffer { width: *width, height: *height, data: Vec::new() });
            }
            Ok(crop(&full, *x, *y, *width, *height))
        },
    }
}

/// Interprets the native screenshot utility's exit: a zero status yields
/// the PNG bytes read back from the utility's output unchanged; a non-zero
/// status is a `UtilityFailure` carrying the utility's diagnostic output
/// verbatim, so the caller sees the underlying reason.
pub fn interpret_utility_outcome(exit_ok: bool, diagnostic: String, png_bytes: Vec<u8>) -> (r:
    Result<Vec<u8>, CaptureError>)
    ensures
        exit_ok ==> (r matches Ok(b) && b@ == png_bytes@),
        !exit_ok ==> (r matches Err(CaptureError::UtilityFailure { diagnostic: d }) && d@
            == diagnostic@),
{
    if exit_ok {
        Ok(png_bytes)
    } else {
        Err(CaptureError::UtilityFailure { diagnostic })
    }
}

} // verus!

//! Capture targets, region bounds and the native-utility outcome.
use xshot_core::CaptureError;
use xshot_core::ClipboardError;
use xshot_core::capture::CaptureTarget;
use xshot_core::capture::extract_target;
use xshot_core::capture::interpret_utility_outcome;
use xshot_core::capture::resolve_target;
use xshot_core::geometry::Monitor;
use xshot_core::orchestrator::SessionError;
use xshot_core::orchestrator::capture_fullscreen_native;
use xshot_core::orchestrator::clipboard_image;
use xshot_core::pixels::PixelBuffer;

fn full_hd_monitor() -> Vec<Monitor> {
    vec![Monitor { id: 1, x: 0, y: 0, width: 1920, height: 1080, primary: true }]
}

/// A deterministic 1920 x 1080 RGBA test pattern.
fn full_hd_buffer() -> PixelBuffer {
    let mut data = Vec::with_capacity(1920 * 1080 * 4);
    for k in 0..1920usize * 1080 * 4 {
        data.push((k % 251) as u8);
    }
    PixelBuffer { width: 1920, height: 1080, data }
}

#[test]
fn region_inside_bounds_yields_exact_byte_count() {
    // capture_region(100, 100, 200, 200) on a 1920 x 1080 monitor returns
    // a 200 x 200 x 4-byte buffer whose pixels are the source pixels
    // offset by (100, 100).
    let full = full_hd_buffer();
    let target = CaptureTarget::Region { monitor_id: 1, x: 100, y: 100, width: 200, height: 200 };
    assert_eq!(resolve_target(&full_hd_monitor(), &target), Ok(0));
    let src = full_hd_buffer();
    let region = extract_target(full, &target).unwrap();
    assert_eq!(region.width, 200);
    assert_eq!(region.height, 200);
    assert_eq!(region.data.len(), 200 * 200 * 4);
    for row in [0usize, 7, 199] {
        for col in [0usize, 13, 199] {
            for ch in 0..4usize {
                let got = region.data[(row * 200 + col) * 4 + ch];
                let want = src.data[((row + 100) * 1920 + (col + 100)) * 4 + ch];
                assert_eq!(got, want);
            }
        }
    }
}

#[test]
fn region_exceeding_bounds_fails_without_partial_capture() {
    // capture_region(1900, 1000, 200, 200) on the same monitor exceeds
    // both axes and fails; nothing is cropped or clamped.
    let target = CaptureTarget::Region { monitor_id: 1, x: 1900, y: 1000, width: 200, height: 200 };
    assert_eq!(
        resolve_target(&full_hd_monitor(), &target),
        Err(CaptureError::RegionOutOfBounds)
    );
    let full = full_hd_buffer();
    assert_eq!(extract_target(full, &target), Err(CaptureError::RegionOutOfBounds));
}

#[test]
fn region_exceeding_one_axis_fails() {
    let mons = full_hd_monitor();
    let too_wide = CaptureTarget::Region { monitor_id: 1, x: 1800, y: 0, width: 200, height: 100 };
    assert_eq!(resolve_target(&mons, &too_wide), Err(CaptureError::RegionOutOfBounds));
    let too_tall = CaptureTarget::Region { monitor_id: 1, x: 0, y: 1000, width: 100, height: 200 };
    assert_eq!(resolve_target(&mons, &too_tall), Err(CaptureError::RegionOutOfBounds));
}

#[test]
fn unknown_monitor_id_is_not_found() {
    let target = CaptureTarget::FullMonitor { monitor_id: 42 };
    assert_eq!(resolve_target(&full_hd_monitor(), &target), Err(CaptureError::NoMonitorFound));
}

#[test]
fn full_monitor_target_hands_buffer_through() {
    let full = full_hd_buffer();
    let out = extract_target(full, &CaptureTarget::FullMonitor { monitor_id: 1 }).unwrap();
    let again = full_hd_buffer();
    assert_eq!(out.width, again.width);
    assert_eq!(out.height, again.height);
    assert_eq!(out.data, again.data);
}

#[test]
fn malformed_backend_buffer_is_rejected() {
    let bad = PixelBuffer { width: 10, height: 10, data: vec![0u8; 7] };
    let r = extract_target(bad, &CaptureTarget::FullMonitor { monitor_id: 1 });
    assert!(matches!(r, Err(CaptureError::BackendFailure { .. })));
}

#[test]
fn utility_failure_carries_diagnostic_verbatim() {
    // The native utility exits with status 1 and stderr "permission
    // denied": the caller receives a CaptureError containing that text.
    let r = interpret_utility_outcome(false, String::from("permission denied"), Vec::new());
    match r {
        Err(CaptureError::UtilityFailure { diagnostic }) => {
            assert!(diagnostic.contains("permission denied"));
            assert_eq!(diagnostic, "permission denied");
        },
        other => panic!("expected a utility failure, got {:?}", other),
    }

    let r2 = capture_fullscreen_native(false, String::from("permission denied"), Vec::new());
    match r2 {
        Err(SessionError::Capture(CaptureError::UtilityFailure { diagnostic })) => {
            assert!(diagnostic.contains("permission denied"));
        },
        other => panic!("expected a utility failure, got {:?}", other),
    }
}

#[test]
fn utility_success_hands_png_bytes_through() {
    let bytes = vec![137u8, 80, 78, 71, 13, 10, 26, 10, 1, 2, 3];
    let img = capture_fullscreen_native(true, String::new(), bytes.clone()).unwrap();
    assert_eq!(img.bytes, bytes);
}

#[test]
fn clipboard_payload_must_match_dimensions() {
    let ok = clipboard_image(vec![0u8; 2 * 3 * 4], 2, 3).unwrap();
    assert_eq!(ok.width, 2);
    assert_eq!(ok.height, 3);
    assert_eq!(ok.data.len(), 24);

    let short = clipboard_image(vec![0u8; 23], 2, 3);
    assert_eq!(short, Err(ClipboardError::InvalidBuffer));

    let empty = clipboard_image(Vec::new(), 0, 0);
    assert_eq!(empty, Err(ClipboardError::InvalidBuffer));
}

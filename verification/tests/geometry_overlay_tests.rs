//! Monitor selection and overlay lifecycle, on concrete values.
use xshot_core::Point;
use xshot_core::geometry::Monitor;
use xshot_core::geometry::Rect;
use xshot_core::geometry::monitor_under_pointer;
use xshot_core::orchestrator::finish_capture;
use xshot_core::overlay::EnsureStep;
use xshot_core::overlay::OverlayManager;
use xshot_core::overlay::overlay_window_attributes;

fn two_monitors() -> Vec<Monitor> {
    vec![
        Monitor { id: 1, x: 0, y: 0, width: 1920, height: 1080, primary: true },
        Monitor { id: 2, x: 1920, y: 0, width: 1920, height: 1080, primary: false },
    ]
}

#[test]
fn pointer_on_shared_edge_belongs_to_right_monitor() {
    // The shared column x = 1920 is inside B (inclusive lower bound) and
    // outside A (exclusive upper bound): exactly one match.
    let mons = two_monitors();
    let hit = monitor_under_pointer(&mons, Point { x: 1920, y: 500 });
    assert_eq!(hit, Some(1));
    let inside_a = monitor_under_pointer(&mons, Point { x: 1919, y: 500 });
    assert_eq!(inside_a, Some(0));
}

#[test]
fn pointer_off_screen_falls_back_to_first_monitor() {
    let mons = two_monitors();
    let hit = monitor_under_pointer(&mons, Point { x: -5000, y: -5000 });
    assert_eq!(hit, Some(0));
}

#[test]
fn no_monitors_yields_none() {
    let mons: Vec<Monitor> = Vec::new();
    assert_eq!(monitor_under_pointer(&mons, Point { x: 0, y: 0 }), None);
}

#[test]
fn ensure_plans_creation_then_repositions_to_monitor_under_pointer() {
    // Two monitors side by side; pointer at (1920, 500) selects B, and the
    // planned overlay frame is exactly B's frame.
    let mons = two_monitors();
    let mut mgr = OverlayManager::new();
    let pointer = Point { x: 1920, y: 500 };
    let b_frame = Rect { x: 1920, y: 0, width: 1920, height: 1080 };

    let step = mgr.plan_ensure(pointer, &mons).unwrap();
    assert_eq!(step, EnsureStep::Create { frame: b_frame });
    mgr.commit_created(7, b_frame);

    // A second ensure without an intervening close reuses the same window
    // identity and still repositions to the monitor under the pointer.
    let step2 = mgr.plan_ensure(pointer, &mons).unwrap();
    assert_eq!(step2, EnsureStep::Reposition { id: 7, frame: b_frame });
    mgr.commit_positioned(b_frame);

    let pointer_on_a = Point { x: 10, y: 10 };
    let a_frame = Rect { x: 0, y: 0, width: 1920, height: 1080 };
    let step3 = mgr.plan_ensure(pointer_on_a, &mons).unwrap();
    assert_eq!(step3, EnsureStep::Reposition { id: 7, frame: a_frame });
}

#[test]
fn plan_ensure_without_monitors_is_a_platform_error() {
    let mgr = OverlayManager::new();
    let empty: Vec<Monitor> = Vec::new();
    assert!(mgr.plan_ensure(Point { x: 0, y: 0 }, &empty).is_err());
}

#[test]
fn finish_capture_leaves_overlay_hidden() {
    // After any capture outcome the overlay's visibility flag is false,
    // and the window itself is kept for reuse.
    let mut mgr = OverlayManager::new();
    mgr.commit_created(3, Rect { x: 0, y: 0, width: 800, height: 600 });
    mgr.show();
    assert!(mgr.window.unwrap().visible);
    finish_capture(&mut mgr);
    let w = mgr.window.unwrap();
    assert!(!w.visible);
    assert_eq!(w.id, 3);

    // Hiding an already hidden overlay is harmless.
    finish_capture(&mut mgr);
    assert!(!mgr.window.unwrap().visible);

    // Even a manager that never created a window ends invisible.
    let mut fresh = OverlayManager::new();
    finish_capture(&mut fresh);
    assert!(fresh.window.is_none());
}

#[test]
fn overlay_windows_are_created_borderless_hidden_and_on_top() {
    let attrs = overlay_window_attributes();
    assert!(!attrs.decorations);
    assert!(!attrs.resizable);
    assert!(attrs.always_on_top);
    assert!(attrs.skip_taskbar);
    assert!(!attrs.visible);
}

#[test]
fn close_forgets_the_window_and_next_ensure_creates() {
    let mons = two_monitors();
    let mut mgr = OverlayManager::new();
    mgr.commit_created(9, Rect { x: 0, y: 0, width: 1920, height: 1080 });
    mgr.close();
    let step = mgr.plan_ensure(Point { x: 1, y: 1 }, &mons).unwrap();
    assert!(matches!(step, EnsureStep::Create { .. }));
}

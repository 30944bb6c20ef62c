use hotkey_overlay::overlay::{plan_resize, OverlayWindowState, WindowGeometry};

#[test]
fn test_resize_missing_window_is_noop() {
    let plan = plan_resize(&OverlayWindowState::Missing, 300, 200);
    assert!(plan.set_size.is_none());
    assert!(plan.set_position.is_none());
}

#[test]
fn test_resize_clamps_small_dimensions() {
    let plan = plan_resize(&OverlayWindowState::PresentUnknown, 10, 0);
    assert_eq!(plan.set_size, Some((48, 48)));
    assert!(plan.set_position.is_none());
}

#[test]
fn test_resize_clamps_negative_dimensions() {
    let geometry = WindowGeometry { x: 0, y: 0, width: 100, height: 100 };
    let plan = plan_resize(&OverlayWindowState::Present(geometry), -5, 47);
    assert_eq!(plan.set_size, Some((48, 48)));
}

#[test]
fn test_resize_keeps_requested_dimensions_at_or_above_minimum() {
    let plan = plan_resize(&OverlayWindowState::PresentUnknown, 48, 300);
    assert_eq!(plan.set_size, Some((48, 300)));
}

#[test]
fn test_resize_repositions_around_center() {
    let geometry = WindowGeometry { x: 100, y: 100, width: 200, height: 100 };
    let plan = plan_resize(&OverlayWindowState::Present(geometry), 300, 60);
    assert_eq!(plan.set_size, Some((300, 60)));
    // centre is (200, 150); new origin keeps it there
    assert_eq!(plan.set_position, Some((50, 120)));
}

#[test]
fn test_consecutive_resizes_keep_center() {
    let geometry = WindowGeometry { x: 100, y: 100, width: 200, height: 100 };
    let first = plan_resize(&OverlayWindowState::Present(geometry), 300, 60);
    let (w1, h1) = first.set_size.unwrap();
    let (x1, y1) = first.set_position.unwrap();
    let moved = WindowGeometry { x: x1, y: y1, width: w1, height: h1 };
    assert_eq!(x1 + w1 / 2, 200);
    assert_eq!(y1 + h1 / 2, 150);
    let second = plan_resize(&OverlayWindowState::Present(moved), 100, 100);
    let (w2, h2) = second.set_size.unwrap();
    let (x2, y2) = second.set_position.unwrap();
    assert_eq!(x2 + w2 / 2, 200);
    assert_eq!(y2 + h2 / 2, 150);
}

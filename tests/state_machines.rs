use gemini_overlay::gate::{DebounceGate, CAPTURE_INTERVAL_MS, NUDGE_INTERVAL_MS, TOGGLE_INTERVAL_MS};
use gemini_overlay::queue::{CaptureError, CaptureStep, ImageQueue};
use gemini_overlay::visibility::{
    anchor_origin, nudge_position, nudge_target, window_changes, Anchor, Direction, VisibilityState, WindowChange,
    WindowProps,
};

#[test]
fn gate_first_call_passes() {
    let mut g = DebounceGate::new(350);
    assert!(g.try_acquire(0));
    assert_eq!(g.last_fired_ms, Some(0));
}

#[test]
fn gate_refuses_within_interval_and_keeps_stamp() {
    let mut g = DebounceGate::new(350);
    assert!(g.try_acquire(1000));
    assert!(!g.try_acquire(1349));
    assert_eq!(g.last_fired_ms, Some(1000));
    assert!(g.try_acquire(1350));
    assert_eq!(g.last_fired_ms, Some(1350));
}

#[test]
fn gate_refuses_earlier_timestamp() {
    let mut g = DebounceGate { interval_ms: 0, last_fired_ms: Some(500) };
    assert!(!g.try_acquire(499));
    assert_eq!(g.last_fired_ms, Some(500));
}

#[test]
fn gate_same_instant_grants_exactly_one() {
    let mut g = DebounceGate::new(TOGGLE_INTERVAL_MS);
    let granted = (0..8).filter(|_| g.try_acquire(42)).count();
    assert_eq!(granted, 1);
}

#[test]
fn intervals_are_as_documented() {
    assert_eq!(TOGGLE_INTERVAL_MS, 350);
    assert_eq!(NUDGE_INTERVAL_MS, 120);
    assert_eq!(CAPTURE_INTERVAL_MS, 500);
}

#[test]
fn toggle_burst_applies_only_first() {
    let mut s = VisibilityState::new();
    assert!(s.interactive);
    let first = s.toggle(1000);
    assert!(!first.visible);
    assert_eq!(first.changes, vec![WindowChange::IgnoreCursorEvents(true)]);
    for t in [1001u64, 1100, 1200, 1349] {
        let r = s.toggle(t);
        assert!(!r.visible);
        assert!(r.changes.is_empty());
    }
    let mut once = VisibilityState::new();
    once.toggle(1000);
    assert_eq!(s, once);
}

#[test]
fn toggle_after_interval_flips_back() {
    let mut s = VisibilityState::new();
    s.toggle(0);
    let r = s.toggle(350);
    assert!(r.visible);
    assert_eq!(r.changes.len(), 5);
}

#[test]
fn show_restores_all_five_properties() {
    let mut p = WindowProps {
        always_on_top: false,
        decorations: true,
        content_protected: false,
        skip_taskbar: false,
        ignore_cursor_events: true,
    };
    for c in window_changes(true) {
        p.apply(c);
    }
    assert_eq!(
        p,
        WindowProps {
            always_on_top: true,
            decorations: false,
            content_protected: true,
            skip_taskbar: true,
            ignore_cursor_events: false,
        }
    );
}

#[test]
fn hide_changes_pointer_events_only() {
    let before = WindowProps {
        always_on_top: false,
        decorations: true,
        content_protected: false,
        skip_taskbar: true,
        ignore_cursor_events: false,
    };
    let mut p = before;
    for c in window_changes(false) {
        p.apply(c);
    }
    assert_eq!(p, WindowProps { ignore_cursor_events: true, ..before });
}

#[test]
fn nudge_moves_and_debounces() {
    let mut s = VisibilityState::new();
    assert!(s.permit_nudge(0));
    assert_eq!(nudge_target("up", 0, 10, 100), (10, 50));
    assert!(!s.permit_nudge(119));
    assert!(s.permit_nudge(120));
    assert!(!s.permit_nudge(120));
    assert_eq!(nudge_target("right", 7, 10, 50), (17, 50));
    assert_eq!(nudge_target("sideways", 7, 10, 50), (10, 50));
    assert_eq!(s.nudge_gate.last_fired_ms, Some(120));
    assert!(s.interactive);
    assert_eq!(s.toggle_gate.last_fired_ms, None);
}

#[test]
fn nudge_position_directions_and_clamp() {
    assert_eq!(nudge_position(0, 0, Direction::Left, 0), (-50, 0));
    assert_eq!(nudge_position(0, 0, Direction::Down, -3), (0, -3));
    assert_eq!(nudge_position(i32::MAX, 0, Direction::Right, 10), (i32::MAX, 0));
    assert_eq!(Direction::parse("left"), Some(Direction::Left));
    assert_eq!(Direction::parse("Left"), None);
}

#[test]
fn anchors_place_window() {
    assert_eq!(Anchor::parse("center"), Some(Anchor::Center));
    assert_eq!(anchor_origin("top-left", 1920, 1080, 400, 300), (0, 0));
    assert_eq!(anchor_origin("top-right", 1920, 1080, 400, 300), (3040, 0));
    assert_eq!(anchor_origin("bottom-left", 1920, 1080, 400, 300), (0, 1560));
    assert_eq!(anchor_origin("bottom-right", 1920, 1080, 400, 300), (3040, 1560));
    assert_eq!(anchor_origin("center", 1920, 1080, 401, 300), (1519, 780));
    assert_eq!(anchor_origin("middle", 1920, 1080, 400, 300), (200, 200));
}

fn capture(q: &mut ImageQueue, now: u64, artifact: &str) -> usize {
    match q.begin_capture(now) {
        CaptureStep::Debounced(n) => n,
        CaptureStep::Capture => q.finish_capture(Ok(artifact.to_string())).unwrap(),
    }
}

#[test]
fn rapid_captures_queue_one() {
    let mut q = ImageQueue::new();
    let mut last = 0;
    for (i, t) in [0u64, 100, 250, 400, 499].iter().enumerate() {
        last = capture(&mut q, *t, &format!("a{}.png", i));
    }
    assert_eq!(last, 1);
    assert_eq!(q.length(), 1);
    assert_eq!(q.snapshot(), vec!["a0.png".to_string()]);
}

#[test]
fn spaced_captures_queue_all_in_order() {
    let mut q = ImageQueue::new();
    let names = ["x.png", "y.png", "z.png", "x.png"];
    for (i, n) in names.iter().enumerate() {
        assert_eq!(capture(&mut q, 500 * i as u64, n), i + 1);
    }
    assert_eq!(q.length(), 4);
    assert_eq!(q.snapshot(), names.iter().map(|n| n.to_string()).collect::<Vec<_>>());
}

#[test]
fn debounced_capture_reports_current_length() {
    let mut q = ImageQueue::new();
    assert_eq!(q.begin_capture(0), CaptureStep::Capture);
    q.finish_capture(Ok("a.png".to_string())).unwrap();
    assert_eq!(q.begin_capture(10), CaptureStep::Debounced(1));
}

#[test]
fn failed_capture_leaves_queue_unchanged() {
    let mut q = ImageQueue::new();
    assert_eq!(q.begin_capture(0), CaptureStep::Capture);
    assert_eq!(q.finish_capture(Err(CaptureError::NoScreen)), Err(CaptureError::NoScreen));
    assert_eq!(q.length(), 0);
    assert_eq!(q.begin_capture(100), CaptureStep::Debounced(0));
}

#[test]
fn clear_empties_queue() {
    let mut q = ImageQueue::new();
    capture(&mut q, 0, "a.png");
    capture(&mut q, 600, "b.png");
    q.clear();
    assert_eq!(q.length(), 0);
    assert!(q.snapshot().is_empty());
}

use coral::resolve::{resolve_selection, ResolveOutcome};
use coral::{
    DragState, FitMargin, InputEvent, Point2, RawSelection, SelectionEngine, Size2D, ViewTransform,
};

#[test]
fn press_before_any_pointer_position_is_ignored() {
    let mut e = SelectionEngine::new();
    assert_eq!(e.handle_event(&InputEvent::LeftPressed), None);
    assert!(!e.is_armed());
}

#[test]
fn release_without_press_is_ignored() {
    let mut e = SelectionEngine::new();
    let _ = e.handle_event(&InputEvent::PointerMoved(Point2::from_ints(10, 20)));
    assert_eq!(e.handle_event(&InputEvent::LeftReleased), None);
}

#[test]
fn press_arms_on_last_pointer_position() {
    let mut e = SelectionEngine::new();
    let p = Point2::from_ints(10, 20);
    let _ = e.handle_event(&InputEvent::PointerMoved(p));
    assert_eq!(e.handle_event(&InputEvent::LeftPressed), None);
    assert!(e.is_armed());
    assert_eq!(e.state, DragState::Armed(p));
}

#[test]
fn full_drag_emits_anchor_and_release_position() {
    let mut e = SelectionEngine::new();
    let p = Point2::from_ints(50, 50);
    let q = Point2::from_ints(150, 120);
    let _ = e.handle_event(&InputEvent::PointerMoved(p));
    let _ = e.handle_event(&InputEvent::LeftPressed);
    let _ = e.handle_event(&InputEvent::PointerMoved(q));
    let out = e.handle_event(&InputEvent::LeftReleased);
    assert_eq!(out, Some(RawSelection::new(p, q)));
    assert!(!e.is_armed());
}

#[test]
fn moves_while_armed_track_only_the_live_corner() {
    let mut e = SelectionEngine::new();
    let p = Point2::from_ints(1, 1);
    let _ = e.handle_event(&InputEvent::PointerMoved(p));
    let _ = e.handle_event(&InputEvent::LeftPressed);
    let _ = e.handle_event(&InputEvent::PointerMoved(Point2::from_ints(2, 2)));
    let _ = e.handle_event(&InputEvent::PointerMoved(Point2::from_ints(3, 3)));
    assert_eq!(e.state, DragState::Armed(p));
    let live = e.live_corners().unwrap();
    assert_eq!(live.a, p);
    assert_eq!(live.b, Point2::from_ints(3, 3));
}

#[test]
fn second_press_overwrites_stale_anchor() {
    let mut e = SelectionEngine::new();
    let p1 = Point2::from_ints(1, 1);
    let p2 = Point2::from_ints(2, 2);
    let p3 = Point2::from_ints(3, 3);
    let _ = e.handle_event(&InputEvent::PointerMoved(p1));
    let _ = e.handle_event(&InputEvent::LeftPressed);
    let _ = e.handle_event(&InputEvent::PointerMoved(p2));
    let _ = e.handle_event(&InputEvent::LeftPressed);
    let _ = e.handle_event(&InputEvent::PointerMoved(p3));
    let out = e.handle_event(&InputEvent::LeftReleased);
    assert_eq!(out, Some(RawSelection::new(p2, p3)));
}

#[test]
fn cancel_discards_anchor_without_emitting() {
    let mut e = SelectionEngine::new();
    let _ = e.handle_event(&InputEvent::PointerMoved(Point2::from_ints(5, 5)));
    let _ = e.handle_event(&InputEvent::LeftPressed);
    assert_eq!(e.handle_event(&InputEvent::Cancelled), None);
    assert!(!e.is_armed());
    assert_eq!(e.handle_event(&InputEvent::LeftReleased), None);
}

#[test]
fn idle_engine_has_no_live_corners() {
    let e = SelectionEngine::new();
    assert_eq!(e.live_corners(), None);
}

#[test]
fn click_in_place_yields_no_crop() {
    let mut e = SelectionEngine::new();
    let p = Point2::from_ints(100, 100);
    let _ = e.handle_event(&InputEvent::PointerMoved(p));
    let _ = e.handle_event(&InputEvent::LeftPressed);
    let out = e.handle_event(&InputEvent::LeftReleased).unwrap();
    let t = ViewTransform::compute(
        Size2D::new(400, 300),
        Size2D::new(800, 600),
        FitMargin::new(95, 100).unwrap(),
    )
    .unwrap();
    let r = resolve_selection(&t, &out, Size2D::new(800, 600));
    assert_eq!(r, ResolveOutcome::NoOp);
}

#[test]
fn window_resized_to_zero_mid_drag_defers_the_crop() {
    let mut e = SelectionEngine::new();
    let _ = e.handle_event(&InputEvent::PointerMoved(Point2::from_ints(50, 50)));
    let _ = e.handle_event(&InputEvent::LeftPressed);
    let _ = e.handle_event(&InputEvent::PointerMoved(Point2::from_ints(150, 120)));
    let out = e.handle_event(&InputEvent::LeftReleased).unwrap();
    // the window collapsed to zero width before the release was resolved
    let t = ViewTransform::compute(
        Size2D::new(0, 300),
        Size2D::new(800, 600),
        FitMargin::new(95, 100).unwrap(),
    )
    .unwrap();
    let r = resolve_selection(&t, &out, Size2D::new(800, 600));
    assert_eq!(r, ResolveOutcome::Deferred);
}

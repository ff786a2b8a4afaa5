use coral::resolve::{clamp_to_dim, normalize_rect, resolve_selection, ResolveOutcome};
use coral::{CropError, CropRect, FitMargin, Frac, Point2, RawSelection, Size2D, ViewTransform};

fn scenario_transform() -> ViewTransform {
    // image 800x600 in a 400x300 window with a 0.95 fit margin
    ViewTransform::compute(
        Size2D::new(400, 300),
        Size2D::new(800, 600),
        FitMargin::new(95, 100).unwrap(),
    )
    .unwrap()
}

#[test]
fn scale_is_smaller_ratio_times_margin() {
    // scale = min(400/800, 300/600) * 95/100 = 0.475 = 19/40
    let t = scenario_transform();
    assert_eq!(t.s_num * 40, 19 * t.s_den);
    assert_eq!(t.s_num, 38000);
    assert_eq!(t.s_den, 80000);
}

#[test]
fn image_center_maps_to_window_center() {
    let t = scenario_transform();
    let center = Point2::new(Frac::new(800, 2), Frac::new(600, 2));
    let w = t.forward(&center);
    assert!(w.x.same_value(&Frac::from_int(200)));
    assert!(w.y.same_value(&Frac::from_int(150)));
}

#[test]
fn forward_is_exact() {
    // (0, 0) maps to the translation: (10, 7.5)
    let t = scenario_transform();
    let w = t.forward(&Point2::from_ints(0, 0));
    assert!(w.x.same_value(&Frac::from_int(10)));
    assert!(w.y.same_value(&Frac::new(15, 2)));
}

#[test]
fn round_trip_is_exact() {
    let t = scenario_transform();
    let p = Point2::new(Frac::new(123, 7), Frac::new(-55, 3));
    let w = t.forward(&p);
    let back = t.inverse(&w).unwrap();
    assert!(back.x.same_value(&p.x));
    assert!(back.y.same_value(&p.y));
}

#[test]
fn zero_image_size_is_invalid() {
    let r = ViewTransform::compute(
        Size2D::new(400, 300),
        Size2D::new(0, 600),
        FitMargin::whole(),
    );
    assert_eq!(r, Err(CropError::InvalidImageSize));
}

#[test]
fn zero_window_gives_non_invertible_transform() {
    let t = ViewTransform::compute(
        Size2D::new(0, 300),
        Size2D::new(800, 600),
        FitMargin::whole(),
    )
    .unwrap();
    assert!(!t.is_invertible());
    let r = t.inverse(&Point2::from_ints(10, 10));
    assert_eq!(r, Err(CropError::NonInvertible));
}

#[test]
fn margin_must_be_a_ratio_in_unit_interval() {
    assert!(FitMargin::new(95, 100).is_some());
    assert!(FitMargin::new(1, 1).is_some());
    assert!(FitMargin::new(0, 100).is_none());
    assert!(FitMargin::new(101, 100).is_none());
}

#[test]
fn clamp_floors_negatives_and_caps_at_dimension() {
    assert_eq!(clamp_to_dim(&Frac::new(-5, 1), 800), 0);
    assert_eq!(clamp_to_dim(&Frac::new(1700, 19), 800), 89);
    assert_eq!(clamp_to_dim(&Frac::new(900, 1), 800), 800);
}

#[test]
fn clamp_in_bounds_is_noop_and_idempotent() {
    assert_eq!(clamp_to_dim(&Frac::from_int(300), 800), 300);
    let once = clamp_to_dim(&Frac::new(1700, 19), 50);
    assert_eq!(once, 50);
    let twice = clamp_to_dim(&Frac::new(once as i128, 1), 50);
    assert_eq!(twice, once);
}

#[test]
fn normalize_orders_corners_and_takes_absolute_difference() {
    let r = normalize_rect(5, 10, 2, 20);
    assert_eq!(r, CropRect { x: 2, y: 10, width: 3, height: 10 });
}

#[test]
fn drag_across_image_gives_cropped_region() {
    // press at window point (50, 50), release at (150, 120): the inverted
    // image-space corners are (84.21.., 89.47..) and (294.73.., 236.84..),
    // so the crop is origin (84, 89), size (210, 147)
    let t = scenario_transform();
    let sel = RawSelection::new(Point2::from_ints(50, 50), Point2::from_ints(150, 120));
    let r = resolve_selection(&t, &sel, Size2D::new(800, 600));
    assert_eq!(
        r,
        ResolveOutcome::Crop(CropRect { x: 84, y: 89, width: 210, height: 147 })
    );
}

#[test]
fn drag_left_of_image_clamps_to_zero_width_noop() {
    // both corners lie left of the drawn image, so both x coordinates clamp
    // to 0 and the zero-width selection is a no-op
    let t = scenario_transform();
    let sel = RawSelection::new(Point2::from_ints(2, 50), Point2::from_ints(8, 120));
    let r = resolve_selection(&t, &sel, Size2D::new(800, 600));
    assert_eq!(r, ResolveOutcome::NoOp);
}

#[test]
fn identity_scale_crop_matches_corners() {
    // window equal to image with a whole margin gives scale 1, translation 0
    let t = ViewTransform::compute(
        Size2D::new(800, 600),
        Size2D::new(800, 600),
        FitMargin::whole(),
    )
    .unwrap();
    assert_eq!(t.tx, 0);
    assert_eq!(t.ty, 0);
    let sel = RawSelection::new(Point2::from_ints(200, 150), Point2::from_ints(400, 300));
    let r = resolve_selection(&t, &sel, Size2D::new(800, 600));
    assert_eq!(
        r,
        ResolveOutcome::Crop(CropRect { x: 200, y: 150, width: 200, height: 150 })
    );
}

#[test]
fn resolution_is_symmetric_in_the_corners() {
    let t = scenario_transform();
    let p = Point2::from_ints(50, 50);
    let q = Point2::from_ints(150, 120);
    let img = Size2D::new(800, 600);
    let pq = resolve_selection(&t, &RawSelection::new(p, q), img);
    let qp = resolve_selection(&t, &RawSelection::new(q, p), img);
    assert_eq!(pq, qp);
}

#[test]
fn click_without_drag_is_noop() {
    let t = scenario_transform();
    let p = Point2::from_ints(100, 100);
    let r = resolve_selection(&t, &RawSelection::new(p, p), Size2D::new(800, 600));
    assert_eq!(r, ResolveOutcome::NoOp);
}

#[test]
fn non_invertible_transform_defers_resolution() {
    let t = ViewTransform::compute(
        Size2D::new(0, 300),
        Size2D::new(800, 600),
        FitMargin::whole(),
    )
    .unwrap();
    let sel = RawSelection::new(Point2::from_ints(50, 50), Point2::from_ints(150, 120));
    let r = resolve_selection(&t, &sel, Size2D::new(800, 600));
    assert_eq!(r, ResolveOutcome::Deferred);
}

use oxiedraw_ui::canvas::crop_geom::CropHandle;
use oxiedraw_ui::canvas::nav::{
    can_fit, drag_modifier, first_frame, frame_chain, hover, hover_cursor_name, may_sample,
    nav_begin, nav_cursor, nav_step, resync_canvas_size, scroll_step, stable_random_for,
    zoom_cursor, FirstFrame, FrameChain, HeldKeys, HoverCursor, Modifier, MotionTrail, NavDrag,
    NavStep, PanDrag, Pinch, PinchPhase, ScrollStep,
};
use oxiedraw_ui::canvas::transform_geometry::TransformHandle;
use oxiedraw_ui::geometry::{Point, Size};
use oxiedraw_ui::ieee::Single;
use oxiedraw_ui::tool::{FillTool, Tool};

fn s(v: f32) -> Single {
    Single::from_bits(v.to_bits())
}

fn p(x: f32, y: f32) -> Point {
    Point { x: s(x), y: s(y) }
}

const SHIFT: HeldKeys = HeldKeys { shift: true, ctrl: false, alt: false };
const CTRL: HeldKeys = HeldKeys { shift: false, ctrl: true, alt: false };
const BOTH: HeldKeys = HeldKeys { shift: true, ctrl: true, alt: false };
const NONE: HeldKeys = HeldKeys { shift: false, ctrl: false, alt: false };

#[test]
fn a_binding_names_its_first_modifier() {
    let parts: Vec<String> = ["F", "Alt", "Shift"].iter().map(|p| p.to_string()).collect();
    assert_eq!(drag_modifier(Some(&parts)), Some(Modifier::Alt));
    assert_eq!(drag_modifier(Some(&vec!["F".to_string()])), None);
    assert_eq!(drag_modifier(None), None);
}

#[test]
fn rotating_comes_before_zooming_unless_it_is_ctrl() {
    assert_eq!(nav_begin(NONE, Some(Modifier::Shift)), NavDrag::Pan);
    assert_eq!(nav_begin(CTRL, Some(Modifier::Shift)), NavDrag::Zoom);
    assert_eq!(nav_begin(BOTH, Some(Modifier::Shift)), NavDrag::Rotate);
    assert_eq!(nav_begin(CTRL, Some(Modifier::Ctrl)), NavDrag::Zoom);
    assert_eq!(nav_begin(SHIFT, None), NavDrag::Pan);
}

#[test]
fn a_rotation_snaps_while_its_modifier_is_held() {
    assert_eq!(nav_step(NavDrag::Rotate, CTRL, Some(Modifier::Ctrl)), NavStep::RotateToStop);
    assert_eq!(nav_step(NavDrag::Rotate, NONE, Some(Modifier::Ctrl)), NavStep::RotateFreely);
    assert_eq!(nav_step(NavDrag::Rotate, CTRL, None), NavStep::RotateFreely);
    assert_eq!(nav_step(NavDrag::Zoom, CTRL, None), NavStep::Zoom);
    assert_eq!(nav_step(NavDrag::Pan, CTRL, None), NavStep::Pan);
}

#[test]
fn navigation_has_its_cursors() {
    assert_eq!(nav_cursor(NavDrag::Idle), None);
    assert_eq!(nav_cursor(NavDrag::Pan), Some("grabbing"));
    assert_eq!(nav_cursor(NavDrag::Rotate), Some("crosshair"));
    assert_eq!(zoom_cursor(s(1.0), s(1.0)), "zoom-in");
    assert_eq!(zoom_cursor(s(1.0), s(0.9)), "zoom-out");
}

#[test]
fn one_overlay_stands_for_the_pointer() {
    let brush = hover(NavDrag::Idle, Tool::Brush, CropHandle::Nothing, None);
    assert_eq!(brush.cursor, HoverCursor::Hidden);
    assert!(brush.brush && !brush.picker && !brush.gradient);
    let gradient =
        hover(NavDrag::Idle, Tool::Fill(FillTool::Gradient), CropHandle::Nothing, None);
    assert!(gradient.gradient && !gradient.brush);
    let panning = hover(NavDrag::Pan, Tool::Brush, CropHandle::Nothing, None);
    assert_eq!(panning.cursor, HoverCursor::Keep);
    assert!(!panning.brush);
    let handle = Some(TransformHandle::Rotate);
    let transform = hover(NavDrag::Idle, Tool::Transform, CropHandle::Nothing, handle);
    assert_eq!(hover_cursor_name(transform.cursor, None), Some("crosshair"));
    let text = hover(NavDrag::Idle, Tool::Text, CropHandle::Nothing, None);
    assert_eq!(hover_cursor_name(text.cursor, None), Some("text"));
    assert_eq!(hover_cursor_name(text.cursor, Some("ew-resize")), Some("ew-resize"));
    assert_eq!(hover_cursor_name(brush.cursor, None), Some("none"));
    assert_eq!(hover_cursor_name(panning.cursor, None), None);
}

#[test]
fn a_pause_keeps_the_direction() {
    let mut trail = MotionTrail::new();
    assert!(trail.advance(p(0.0, 0.0), 100).is_none());
    let leg = trail.advance(p(5.0, 0.0), 110).expect("a leg");
    assert_eq!(leg.from, p(0.0, 0.0));
    assert_eq!(leg.millis, 10);
    assert_eq!(trail.turn(s(1.0), s(1.25)), s(1.25));
    assert_eq!(trail.turn(s(0.99), s(2.0)), s(1.25), "less than a pixel");
    assert_eq!(trail.turn(s(f32::NAN), s(2.0)), s(1.25));
    let back = trail.advance(p(5.0, 0.0), 50).expect("a leg");
    assert_eq!(back.millis, 0, "time ran back");
}

#[test]
fn the_jitter_of_a_place_is_its_own() {
    for (x, y) in [(0.0_f32, 0.0_f32), (12.5, -3.0), (1000.25, 7.75)] {
        let bits = x.to_bits() ^ y.to_bits().rotate_left(13);
        let want = bits.wrapping_mul(0x9e37_79b9) >> 8;
        assert_eq!(stable_random_for(p(x, y)), want);
    }
}

#[test]
fn nothing_is_sampled_before_the_canvas() {
    assert!(may_sample(p(0.0, 0.0)));
    assert!(!may_sample(p(-0.5, 0.0)));
    assert!(!may_sample(p(0.0, -0.5)));
    assert!(may_sample(p(f32::NAN, 0.0)));
}

#[test]
fn a_texture_follows_only_one_of_its_size() {
    assert_eq!(frame_chain(None, 10, 10, Some((0, 0, 5, 5))), FrameChain::Alone);
    assert_eq!(frame_chain(Some((10, 11)), 10, 10, None), FrameChain::Alone);
    assert_eq!(frame_chain(Some((10, 10)), 10, 10, None), FrameChain::Whole);
    assert_eq!(
        frame_chain(Some((10, 10)), 10, 10, Some((1, 2, 3, 4))),
        FrameChain::Region { x: 1, y: 2, w: 3, h: 4 }
    );
    assert_eq!(
        frame_chain(Some((10, 10)), 10, 10, Some((1, 2, u32::MAX, 4))),
        FrameChain::Whole
    );
    assert_eq!(frame_chain(Some((-1, -1)), u32::MAX, u32::MAX, None), FrameChain::Whole);
}

#[test]
fn the_first_frame_waits_for_an_area() {
    assert_eq!(first_frame(0, 5, false), FirstFrame::Wait);
    assert_eq!(first_frame(5, 5, false), FirstFrame::FitAndShow);
    assert_eq!(first_frame(5, 5, true), FirstFrame::Show);
    assert!(can_fit(1, 1));
    assert!(!can_fit(0, 1));
}

#[test]
fn a_wheel_zooms_and_a_touchpad_pans() {
    assert_eq!(scroll_step(false, s(0.0), s(0.0)), ScrollStep::Zoom);
    assert_eq!(scroll_step(true, s(0.0), s(-0.0)), ScrollStep::Still);
    assert_eq!(scroll_step(true, s(0.0), s(2.0)), ScrollStep::Pan);
}

#[test]
fn a_pinch_starts_from_the_zoom_it_found() {
    let mut pinch = Pinch { start: s(1.0) };
    assert_eq!(pinch.phase(PinchPhase::Begin, s(2.5)), None);
    assert_eq!(pinch.phase(PinchPhase::Update, s(3.0)), Some(s(2.5)));
    assert_eq!(pinch.phase(PinchPhase::Other, s(3.0)), None);
}

#[test]
fn a_canvas_of_another_size_is_fitted_anew() {
    let small = Size { width: 10, height: 10 };
    let large = Size { width: 20, height: 10 };
    assert_eq!(resync_canvas_size(small, small), None);
    assert_eq!(resync_canvas_size(small, large), Some(large));
}

/// The pan after a step of a drag.
fn pan_increment(pan: (f32, f32), drag: &mut PanDrag, offset: (f32, f32)) -> (f32, f32) {
    let value = |v: Single| f32::from_bits(v.bits);
    let step = drag.advance(p(offset.0, offset.1));
    (
        pan.0 + (value(step.to.x) - value(step.from.x)),
        pan.1 + (value(step.to.y) - value(step.from.y)),
    )
}

#[test]
fn pan_increment_tracks_cumulative_drag() {
    let start = (100.0_f32, 50.0_f32);
    let mut drag = PanDrag::begin();
    let mut pan = start;
    for offset in [(5.0, 3.0), (12.0, 8.0), (20.0, 15.0)] {
        pan = pan_increment(pan, &mut drag, offset);
    }
    assert!((pan.0 - (start.0 + 20.0)).abs() < 1e-4);
    assert!((pan.1 - (start.1 + 15.0)).abs() < 1e-4);
}

#[test]
fn pan_increment_preserves_external_pan_changes() {
    let mut drag = PanDrag::begin();
    let mut pan = pan_increment((0.0, 0.0), &mut drag, (10.0, 5.0));
    assert!((pan.0 - 10.0).abs() < 1e-4);

    // A zoom toward the cursor moves the view in between.
    pan = (pan.0 - 500.0, pan.1 + 200.0);

    pan = pan_increment(pan, &mut drag, (15.0, 8.0));
    assert!((pan.0 - (10.0 - 500.0 + 5.0)).abs() < 1e-4);
    assert!((pan.1 - (5.0 + 200.0 + 3.0)).abs() < 1e-4);
}

#[test]
fn pan_increment_idempotent_for_duplicate_offset() {
    let mut drag = PanDrag::begin();
    pan_increment((0.0, 0.0), &mut drag, (10.0, 5.0));
    let pan = pan_increment((42.0, 17.0), &mut drag, (10.0, 5.0));
    assert!((pan.0 - 42.0).abs() < 1e-4);
    assert!((pan.1 - 17.0).abs() < 1e-4);
}

#[test]
fn pan_increment_resumes_after_new_drag_begin() {
    let mut drag = PanDrag::begin();
    pan_increment((0.0, 0.0), &mut drag, (30.0, 30.0));
    drag = PanDrag::begin();
    let pan = pan_increment((200.0, 100.0), &mut drag, (7.0, -4.0));
    assert!((pan.0 - 207.0).abs() < 1e-4);
    assert!((pan.1 - 96.0).abs() < 1e-4);
    assert_eq!(drag.applied, p(7.0, -4.0));
}

use oxiedraw_ui::canvas::drag::{
    on_begin, on_end, on_update, DragBegin, DragEnd, DragUpdate, Refusal,
};
use oxiedraw_ui::canvas::guide::{
    GuideConfig, GuideGesture, GuideMove, GuideSnap, SnapStep, VanishingPoint,
};
use oxiedraw_ui::canvas::select::{
    click_snapshot, deselect_via_click, no_selection, selection_end, selection_mode,
    shape_applied, shape_snapshot, squared, PendingMarquee, SelectionEnd, SelectionMode,
    SelectionShape,
};
use oxiedraw_ui::canvas::shape::{
    crop_end, figure_landed, is_pixel_sized, lone_text_target, picked_color, preview_can_start,
    shape_end, Figure, FigureEnd, FigureGesture, FigureLanding, LayerCapture, TextEnd,
    TextGesture, TransformTarget,
};
use oxiedraw_ui::canvas::transform_geometry::{
    cursor_name, hit_test, square_side, transform_drag, Side, SquareSide, TransformDrag,
    TransformHandle, TransformProbe,
};
use oxiedraw_ui::geometry::{Color, Point};
use oxiedraw_ui::ieee::Single;
use oxiedraw_ui::tool::{FillTool, LayerContent, SelectionTool, ShapeTool, Tool};

fn s(v: f32) -> Single {
    Single::from_bits(v.to_bits())
}

fn p(x: f32, y: f32) -> Point {
    Point { x: s(x), y: s(y) }
}

#[test]
fn painting_is_refused_where_there_are_no_pixels() {
    assert_eq!(
        on_begin(Tool::Brush, Some(LayerContent::Component)),
        DragBegin::Refuse(Refusal::ComponentLayer)
    );
    assert_eq!(
        on_begin(Tool::Fill(FillTool::Bucket), Some(LayerContent::Text)),
        DragBegin::Refuse(Refusal::TextLayer)
    );
    assert_eq!(on_begin(Tool::Brush, Some(LayerContent::Raster)), DragBegin::Brush);
    assert_eq!(on_begin(Tool::Crop, Some(LayerContent::Component)), DragBegin::Crop);
    assert_eq!(on_begin(Tool::Cursor, None), DragBegin::ActivateTransform);
    assert!(!Refusal::ComponentLayer.message().is_empty());
    assert_ne!(Refusal::ComponentLayer.message(), Refusal::TextLayer.message());
}

#[test]
fn a_drag_goes_to_its_tool() {
    assert_eq!(on_update(Tool::Brush), DragUpdate::Brush);
    assert_eq!(on_update(Tool::Fill(FillTool::Gradient)), DragUpdate::Gradient);
    assert_eq!(on_update(Tool::Cursor), DragUpdate::Ignore);
    assert_eq!(on_end(Tool::Shapes(ShapeTool::Line), false), DragEnd::Shape(ShapeTool::Line));
    assert_eq!(on_end(Tool::Transform, false), DragEnd::Ignore);
}

fn perspective(points: Vec<VanishingPoint>) -> GuideConfig {
    GuideConfig { perspective: true, vanishing_points: points, origin: p(5.0, 5.0), angle: s(0.5) }
}

#[test]
fn a_tap_adds_a_vanishing_point_and_a_drag_does_not() {
    let mut config = perspective(Vec::new());
    let mut g = GuideGesture::new();
    g.begin(Some(&config), p(1.0, 2.0), &Vec::new(), false);
    assert_eq!(g.update(&mut config, p(1.5, 2.0), false), GuideMove::Done);
    g.end(&mut config, s(0.1), s(0.2), s(0.3));
    assert_eq!(config.vanishing_points.len(), 1);
    assert_eq!(config.vanishing_points[0].at, p(1.0, 2.0));
    assert_eq!(g, GuideGesture::new());

    g.begin(Some(&config), p(90.0, 90.0), &vec![false], false);
    g.update(&mut config, p(120.0, 90.0), true);
    g.end(&mut config, s(0.1), s(0.2), s(0.3));
    assert_eq!(config.vanishing_points.len(), 1);

    g.begin(Some(&config), p(1.0, 2.0), &vec![true], false);
    g.update(&mut config, p(7.0, 8.0), false);
    g.end(&mut config, s(0.1), s(0.2), s(0.3));
    assert_eq!(config.vanishing_points.len(), 1);
    assert_eq!(config.vanishing_points[0].at, p(7.0, 8.0));
}

#[test]
fn another_guide_is_moved_or_turned() {
    let mut config = perspective(Vec::new());
    config.perspective = false;
    let mut g = GuideGesture::new();
    g.begin(Some(&config), p(1.0, 2.0), &Vec::new(), false);
    match g.update(&mut config, p(3.0, 3.0), true) {
        GuideMove::Shift(start) => {
            assert_eq!(start.pointer, p(1.0, 2.0));
            assert_eq!(start.origin, p(5.0, 5.0));
        }
        other => panic!("{:?}", other),
    }
    g.begin(Some(&config), p(1.0, 2.0), &Vec::new(), true);
    assert!(matches!(g.update(&mut config, p(3.0, 3.0), true), GuideMove::Turn(_)));
    g.end(&mut config, s(0.0), s(0.0), s(0.0));
    assert!(config.vanishing_points.is_empty());
}

#[test]
fn a_stroke_is_held_once_its_direction_is_clear() {
    let mut snap: GuideSnap<u8> = GuideSnap::new();
    assert_eq!(snap.step(false), SnapStep::Free);
    snap.arm(p(1.0, 1.0), true);
    assert_eq!(snap.step(true), SnapStep::Free);
    assert_eq!(snap.step(false), SnapStep::Seek(p(1.0, 1.0)));
    snap.hold(Some(7));
    assert_eq!(snap.step(true), SnapStep::Project);
    snap.arm(p(2.0, 2.0), false);
    assert_eq!(snap.step(false), SnapStep::Free);
}

#[test]
fn modifiers_combine_selections() {
    assert_eq!(selection_mode(false, false), SelectionMode::Replace);
    assert_eq!(selection_mode(true, false), SelectionMode::Add);
    assert_eq!(selection_mode(false, true), SelectionMode::Subtract);
    assert_eq!(selection_mode(true, true), SelectionMode::Intersect);
}

#[test]
fn a_click_deselects_only_when_it_replaces() {
    let click = || Some(PendingMarquee::begin(SelectionTool::Square, p(4.0, 4.0)));
    assert!(matches!(
        selection_end(click(), SelectionMode::Replace, false),
        SelectionEnd::Deselect
    ));
    assert!(matches!(selection_end(click(), SelectionMode::Add, false), SelectionEnd::Keep));
    assert!(matches!(selection_end(None, SelectionMode::Add, false), SelectionEnd::Idle));
}

#[test]
fn a_marquee_becomes_its_shape() {
    let rect = |circle: bool| PendingMarquee::Rect {
        x: s(1.0),
        y: s(2.0),
        w: s(-30.0),
        h: s(1.0),
        circle,
    };
    assert!(matches!(
        selection_end(Some(rect(false)), SelectionMode::Add, false),
        SelectionEnd::Apply(SelectionShape::Rect { .. }, SelectionMode::Add)
    ));
    assert!(matches!(
        selection_end(Some(rect(true)), SelectionMode::Replace, false),
        SelectionEnd::Apply(SelectionShape::Ellipse { .. }, SelectionMode::Replace)
    ));
}

#[test]
fn a_lasso_drops_the_point_that_closes_it() {
    let mut lasso = PendingMarquee::begin(SelectionTool::Free, p(0.0, 0.0));
    lasso.extend_lasso(p(0.5, 0.0), false);
    lasso.extend_lasso(p(10.0, 0.0), true);
    assert!(lasso.is_click());
    lasso.extend_lasso(p(10.0, 10.0), true);
    lasso.extend_lasso(p(0.0, 0.0), true);
    match selection_end(Some(lasso), SelectionMode::Replace, true) {
        SelectionEnd::Apply(SelectionShape::Polygon(points), _) => {
            assert_eq!(points, vec![p(0.0, 0.0), p(10.0, 0.0), p(10.0, 10.0)]);
        }
        _ => panic!("a polygon"),
    }
}

#[test]
fn a_mask_that_cannot_be_read_is_told_apart() {
    let drawn = shape_snapshot(true, None);
    assert!(drawn.active && drawn.mask.is_none());
    let clicked = click_snapshot(true, None);
    assert!(!clicked.active && clicked.mask.is_none());
    let kept = click_snapshot(true, Some(vec![1]));
    assert!(kept.active);
    assert!(!shape_snapshot(false, Some(vec![1])).active);
    assert!(shape_snapshot(false, Some(vec![1])).mask.is_none());
    assert!(!no_selection().active);
}

fn figure(w: f32, h: f32) -> Figure {
    Figure { x: s(0.0), y: s(0.0), w: s(w), h: s(h) }
}

fn layer() -> Option<LayerCapture> {
    Some(LayerCapture { idx: 0, id: "ink".to_string(), before: vec![0] })
}

#[test]
fn a_shape_is_drawn_unless_it_is_a_click() {
    let mut g: FigureGesture<Figure> = FigureGesture { drawn: None, layer: None };
    assert!(g.begin(layer()));
    g.update(figure(0.5, 40.0));
    assert!(matches!(shape_end(&mut g, ShapeTool::Line), FigureEnd::Commit(..)));
    assert!(g.begin(layer()));
    g.update(figure(0.5, 40.0));
    assert!(matches!(
        shape_end(&mut g, ShapeTool::Area),
        FigureEnd::Cancel { present: true }
    ));
    assert!(g.layer.is_none());
    assert!(!g.begin(None));
    g.update(figure(5.0, 5.0));
    assert!(matches!(
        shape_end(&mut g, ShapeTool::Area),
        FigureEnd::Cancel { present: false }
    ));
    g.begin(layer());
    assert!(matches!(
        shape_end(&mut g, ShapeTool::Area),
        FigureEnd::Cancel { present: true }
    ));
}

#[test]
fn a_crop_has_at_least_two_pixels_each_way() {
    assert!(crop_end(figure(1.9, 10.0)).is_none());
    assert!(crop_end(figure(10.0, 1.0)).is_none());
    assert_eq!(crop_end(figure(2.0, 2.0)), Some(figure(2.0, 2.0)));
}

#[test]
fn a_text_press_makes_the_box_it_drags() {
    let mut g = TextGesture::begin(p(1.0, 1.0), false, false);
    assert_eq!(g.end(), TextEnd::GrowingBox(p(1.0, 1.0)));
    assert!(!g.update(figure(2.9, 30.0)));
    assert_eq!(g.end(), TextEnd::GrowingBox(p(1.0, 1.0)));
    g.update(figure(-3.0, 30.0));
    assert_eq!(g.end(), TextEnd::FixedBox(figure(-3.0, 30.0)));
    let mut editing = TextGesture::begin(p(1.0, 1.0), true, false);
    assert!(editing.update(figure(30.0, 30.0)));
    assert_eq!(editing.end(), TextEnd::Release);
}

#[test]
fn the_loupe_comes_before_a_read() {
    let red = Color { r: 1, g: 0, b: 0 };
    let blue = Color { r: 0, g: 0, b: 1 };
    assert_eq!(picked_color(Some(red), Some(blue)), Some(red));
    assert_eq!(picked_color(None, Some(blue)), Some(blue));
    assert_eq!(picked_color(None, None), None);
}

fn transform_target(pixels: usize, text: bool) -> TransformTarget {
    TransformTarget { layer_idx: 3, pixels: vec![0; pixels], width: 2, height: 2, text }
}

#[test]
fn a_preview_needs_pixels_of_the_right_size() {
    assert!(is_pixel_sized(16, 2, 2));
    assert!(!is_pixel_sized(15, 2, 2));
    assert!(!is_pixel_sized(0, u32::MAX, u32::MAX));
    assert!(preview_can_start(false, &vec![transform_target(16, false)]));
    assert!(!preview_can_start(true, &vec![transform_target(16, false)]));
    assert!(!preview_can_start(false, &vec![transform_target(15, false)]));
    assert!(!preview_can_start(false, &Vec::new()));
}

#[test]
fn only_a_text_alone_is_rendered_again() {
    assert_eq!(lone_text_target(&vec![transform_target(16, true)]), Some(3));
    assert_eq!(lone_text_target(&vec![transform_target(16, false)]), None);
    let two = vec![transform_target(16, true), transform_target(16, true)];
    assert_eq!(lone_text_target(&two), None);
}

fn probe() -> TransformProbe {
    let far = s(500.0);
    TransformProbe {
        rotate: far,
        top_left: far,
        top_right: far,
        bottom_left: far,
        bottom_right: far,
        top_mid: far,
        bottom_mid: far,
        mid_left: far,
        mid_right: far,
        local_x: s(0.0),
        local_y: s(0.0),
        half_width: s(50.0),
        half_height: s(50.0),
    }
}

#[test]
fn transform_handles_are_hit_in_order() {
    assert_eq!(hit_test(probe()), TransformHandle::Move);
    let mut on_corner = probe();
    on_corner.top_left = s(9.9);
    assert_eq!(hit_test(on_corner), TransformHandle::TopLeft);
    on_corner.rotate = s(11.9);
    assert_eq!(hit_test(on_corner), TransformHandle::Rotate);
    let mut outside = probe();
    outside.local_x = s(-50.1);
    assert_eq!(hit_test(outside), TransformHandle::Nothing);
    outside.local_x = s(-50.0);
    assert_eq!(hit_test(outside), TransformHandle::Move);
    assert_eq!(cursor_name(TransformHandle::Rotate), "crosshair");
    assert_eq!(cursor_name(TransformHandle::Nothing), "default");
}

#[test]
fn a_handle_scales_its_own_axes() {
    assert_eq!(transform_drag(TransformHandle::Move), TransformDrag::Shift);
    assert_eq!(transform_drag(TransformHandle::Nothing), TransformDrag::Keep);
    assert_eq!(
        transform_drag(TransformHandle::TopRight),
        TransformDrag::Scale { x: Side::High, y: Side::Low }
    );
    assert_eq!(
        transform_drag(TransformHandle::BottomMid),
        TransformDrag::Scale { x: Side::Neither, y: Side::High }
    );
    assert_eq!(square_side(Side::High, Side::Low), SquareSide::Greater);
    assert_eq!(square_side(Side::High, Side::Neither), SquareSide::Width);
    assert_eq!(square_side(Side::Neither, Side::Low), SquareSide::Height);
    assert_eq!(square_side(Side::Neither, Side::Neither), SquareSide::Stay);
}

#[test]
fn a_box_held_square_keeps_its_directions() {
    for (w, h) in [(3.0_f32, -7.0_f32), (-9.5, 2.0), (-4.0, -4.0), (0.0, -0.0), (f32::NAN, 2.0)] {
        let side = w.abs().max(h.abs());
        assert_eq!(squared(s(w), s(h)), (s(side.copysign(w)), s(side.copysign(h))));
    }
    let PendingMarquee::Rect { x, y, w, h, circle } =
        PendingMarquee::draw_box(p(1.0, 2.0), s(-3.0), s(5.0), true, true)
    else {
        panic!("a box");
    };
    assert_eq!((x, y, w, h, circle), (s(1.0), s(2.0), s(-5.0), s(5.0), true));
    assert!(matches!(
        PendingMarquee::draw_box(p(1.0, 2.0), s(-3.0), s(5.0), false, false),
        PendingMarquee::Rect { w, h, circle: false, .. } if w == s(-3.0) && h == s(5.0)
    ));
}

#[test]
fn history_keeps_what_was_applied() {
    let before = shape_snapshot(false, None);
    let after = shape_snapshot(true, Some(vec![1]));
    let change = shape_applied(true, before, after).expect("a change");
    assert!(!change.before.active && change.after.active);
    assert!(shape_applied(false, no_selection(), no_selection()).is_none());
    let dropped = deselect_via_click(true, Some(vec![7]));
    assert!(dropped.before.active && !dropped.after.active);
    assert_eq!(dropped.before.mask, Some(vec![7]));
    assert!(!deselect_via_click(true, None).before.active);
}

#[test]
fn a_figure_is_recorded_where_it_changed_the_layer() {
    assert_eq!(figure_landed(true, true, true), FigureLanding { cancel: false, record: true });
    assert_eq!(figure_landed(true, true, false), FigureLanding { cancel: false, record: false });
    assert_eq!(figure_landed(true, false, true), FigureLanding { cancel: false, record: false });
    assert_eq!(figure_landed(false, true, true), FigureLanding { cancel: true, record: false });
}

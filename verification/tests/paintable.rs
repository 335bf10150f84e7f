use oxiedraw_ui::canvas::paintable::{
    build_checker, crop_label, grid_lines, grid_visible, paint_zoom, pending_path, Accent, Area,
    CanvasPaintable, ColorPickerOverlay, CropOverlay, PendingPath, Step, TextOverlay,
    TransformRect,
};
use oxiedraw_ui::canvas::select::PendingMarquee;
use oxiedraw_ui::geometry::{Color, Point};
use oxiedraw_ui::ieee::Single;

fn s(v: f32) -> Single {
    Single::from_bits(v.to_bits())
}

fn rect(cx: f32) -> TransformRect {
    TransformRect { cx: s(cx), cy: s(0.0), w: s(10.0), h: s(10.0), angle: s(0.0) }
}

fn fresh() -> CanvasPaintable {
    CanvasPaintable::new(100, 80, 1, CropOverlay::Grid)
}

const ACCENT: Accent = Accent {
    r: Single { bits: 0x3f80_0000 },
    g: Single { bits: 0 },
    b: Single { bits: 0 },
};

#[test]
fn a_fresh_canvas_is_backdrop_checker_and_edge() {
    let p = fresh();
    assert_eq!(
        p.snapshot(s(1.0)),
        vec![Step::Backdrop, Step::Checker { texture: 1, nearest: false }, Step::DocumentEdge]
    );
    assert!(p.wants_label());
    assert_eq!(p.accent.r, s(0.21));
    assert_eq!(p.accent.g, s(0.52));
    assert_eq!(p.accent.b, s(0.89));
    assert_eq!(p.pixel_view.nearest_threshold, s(4.0));
    assert_eq!(p.pixel_view.grid_threshold, s(8.0));
}

#[test]
fn pixels_turn_sharp_and_then_get_a_grid() {
    let mut p = fresh();
    p.texture = Some(2);
    assert!(p.snapshot(s(3.9)).contains(&Step::Canvas { texture: 2, nearest: false }));
    let sharp = p.snapshot(s(4.0));
    assert!(sharp.contains(&Step::Canvas { texture: 2, nearest: true }));
    assert!(sharp.contains(&Step::Checker { texture: 1, nearest: true }));
    assert!(!sharp.contains(&Step::PixelGrid));
    assert!(p.snapshot(s(8.0)).contains(&Step::PixelGrid));
    p.pixel_view.grid_enabled = false;
    assert!(!p.snapshot(s(8.0)).contains(&Step::PixelGrid));
    p.pixel_view.enabled = false;
    assert!(p.snapshot(s(8.0)).contains(&Step::Canvas { texture: 2, nearest: false }));
}

#[test]
fn a_transform_shows_the_layer_between_its_neighbors() {
    let mut p = fresh();
    p.set_transform_active(true);
    p.transform.source = Some(5);
    p.transform.rect = Some(rect(3.0));
    p.transform.original = Some(rect(1.0));
    p.transform.above = Some(6);
    let steps = p.snapshot(s(1.0));
    let moved = steps.iter().position(|s| matches!(s, Step::Moved { texture: 5, .. }));
    let above = steps.iter().position(|s| matches!(s, Step::Above { texture: 6, .. }));
    assert!(moved.is_some() && moved < above);
    assert!(steps.contains(&Step::Handles(rect(3.0))));

    p.transform.gpu_preview = true;
    let steps = p.snapshot(s(1.0));
    assert!(!steps.iter().any(|s| matches!(s, Step::Moved { .. } | Step::Above { .. })));
    assert!(steps.contains(&Step::Handles(rect(3.0))));

    p.set_transform_active(false);
    assert_eq!(p.transform.above, None);
    assert!(!p.transform.gpu_preview);
    assert!(!p.snapshot(s(1.0)).contains(&Step::Handles(rect(3.0))));
    p.set_transform_active(true);
    let steps = p.snapshot(s(1.0));
    assert!(steps.iter().any(|s| matches!(s, Step::Moved { .. })));
    assert!(!steps.iter().any(|s| matches!(s, Step::Above { .. })));
}

#[test]
fn overlays_come_in_their_order() {
    let mut p = fresh();
    let area = Area { x: s(1.0), y: s(1.0), w: s(5.0), h: s(5.0) };
    p.set_edit_mode(true, true, ACCENT);
    p.label_cache = Some(9);
    p.crop_active = true;
    p.crop_rect = Some(area);
    p.text = TextOverlay { active: true, frame: Some(rect(7.0)), caret: Some(area), ..p.text };
    p.text_pending = Some(rect(8.0));
    p.brush_cursor = Some(11);
    p.selection_pending = true;
    let picker = ColorPickerOverlay { cursor: Point::origin(), color: None };
    p.color_picker = Some(picker);
    p.perf = true;
    let one = s(1.0);
    assert_eq!(
        p.snapshot(s(1.0)),
        vec![
            Step::Backdrop,
            Step::Checker { texture: 1, nearest: false },
            Step::DocumentEdge,
            Step::AccentEdge(ACCENT),
            Step::Label(9),
            Step::Crop { area, overlay: CropOverlay::Grid },
            Step::TextEdit { frame: rect(7.0), caret: Some(area), scale_x: one, scale_y: one },
            Step::TextPending(rect(8.0)),
            Step::BrushCursor(11),
            Step::Selection,
            Step::Picker(picker),
            Step::Perf,
        ]
    );
    p.crop_active = false;
    p.text.active = false;
    let steps = p.snapshot(s(1.0));
    assert!(!steps.iter().any(|s| matches!(s, Step::Crop { .. } | Step::TextEdit { .. })));
}

#[test]
fn a_blinking_caret_repaints_only_on_a_change() {
    let mut p = fresh();
    assert!(!p.set_text_caret_visible(true));
    assert!(p.set_text_caret_visible(false));
    assert!(!p.set_text_caret_visible(false));
    let area = Area { x: s(1.0), y: s(1.0), w: s(1.0), h: s(9.0) };
    p.text = TextOverlay { active: true, frame: Some(rect(7.0)), caret: Some(area), ..p.text };
    assert!(p.snapshot(s(1.0)).iter().any(|s| matches!(s, Step::TextEdit { caret: None, .. })));
}

#[test]
fn a_new_label_is_drawn_anew() {
    let mut p = fresh();
    p.label_cache = Some(3);
    assert!(!p.wants_label());
    p.set_edit_mode(true, false, ACCENT);
    assert!(p.wants_label());
    p.set_edit_mode(false, false, ACCENT);
    assert!(!p.wants_label(), "an empty label has no picture");
}

#[test]
fn the_picker_knows_its_color() {
    let mut p = fresh();
    assert_eq!(p.picker_color(), None);
    let red = Color { r: 255, g: 0, b: 0 };
    p.color_picker = Some(ColorPickerOverlay { cursor: Point::origin(), color: Some(red) });
    assert_eq!(p.picker_color(), Some(red));
}

#[test]
fn the_zoom_never_vanishes() {
    assert_eq!(paint_zoom(s(2.0)), s(2.0));
    for z in [0.0, -3.0, f32::NAN, f32::EPSILON / 2.0, f32::EPSILON] {
        assert_eq!(paint_zoom(s(z)), s(z.max(f32::EPSILON)));
    }
}

#[test]
fn the_checker_has_two_greys_in_cells() {
    let bytes = build_checker();
    assert_eq!(bytes.len(), 128 * 128 * 4);
    let at = |x: usize, y: usize| &bytes[(y * 128 + x) * 4..(y * 128 + x) * 4 + 4];
    for (x, y) in [(0, 0), (63, 63), (64, 0), (127, 63), (0, 64), (64, 64), (127, 127)] {
        let dark = ((x / 64) ^ (y / 64)) & 1 == 0;
        let want: [u8; 4] =
            if dark { [0xc7, 0xc7, 0xc7, 0xff] } else { [0xeb, 0xeb, 0xeb, 0xff] };
        assert_eq!(at(x, y), &want[..]);
    }
}

#[test]
fn grid_lines_lie_between_pixels() {
    assert_eq!(grid_lines(2, 6, 100), vec![3, 4, 5]);
    assert_eq!(grid_lines(2, 600, 5), vec![3, 4]);
    assert_eq!(grid_lines(5, 5, 100), Vec::<u32>::new());
    assert_eq!(grid_lines(500, 600, 100), Vec::<u32>::new());
    assert!(grid_visible(s(9.0), 10, 10, s(0.0), s(0.0), s(50.0), s(50.0)));
    assert!(!grid_visible(s(0.0), 10, 10, s(0.0), s(0.0), s(50.0), s(50.0)));
    assert!(!grid_visible(s(9.0), 0, 10, s(0.0), s(0.0), s(50.0), s(50.0)));
    assert!(!grid_visible(s(9.0), 10, 10, s(50.0), s(0.0), s(50.0), s(50.0)));
}

#[test]
fn a_pending_selection_has_its_outline() {
    let rect = |circle: bool| PendingMarquee::Rect {
        x: s(0.0),
        y: s(0.0),
        w: s(1.0),
        h: s(1.0),
        circle,
    };
    assert_eq!(pending_path(&rect(false), s(0.0), s(0.0)), PendingPath::Rectangle);
    assert_eq!(pending_path(&rect(true), s(-0.5), s(9.0)), PendingPath::Nothing);
    assert_eq!(pending_path(&rect(true), s(-1.0), s(9.0)), PendingPath::Ellipse);
    let one = PendingMarquee::Lasso(vec![Point::origin()]);
    assert_eq!(pending_path(&one, s(0.0), s(0.0)), PendingPath::Nothing);
    let two = PendingMarquee::Lasso(vec![Point::origin(), Point::origin()]);
    assert_eq!(pending_path(&two, s(0.0), s(0.0)), PendingPath::Polygon);
}

#[test]
fn the_crop_box_says_its_size() {
    assert_eq!(crop_label(640, 7), "CROP  640 x 7  px");
}

#[test]
fn colors_are_written_in_hexadecimal() {
    assert_eq!(Color { r: 0, g: 0x9a, b: 0xff }.to_hex(), "#009AFF");
    assert_eq!(Color { r: 0xc3, g: 7, b: 0x10 }.to_hex(), "#C30710");
}

#[test]
fn grid_lines_stop_short_of_the_largest_canvas() {
    assert_eq!(grid_lines(u32::MAX, u32::MAX, u32::MAX), Vec::<u32>::new());
    assert_eq!(grid_lines(u32::MAX - 2, u32::MAX, u32::MAX), vec![u32::MAX - 1]);
}

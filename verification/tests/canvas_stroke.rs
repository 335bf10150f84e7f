use oxiedraw_ui::canvas::stroke::{
    before_region, frame_drawn, frame_interval, move_samples, redraw_calls, stroke_paint,
    FrameDrawn, FrameNext, RedrawCall, ShapeCorrection, ShapeKind, Stroke, StrokeEnd, StrokePaint, StrokeTarget, StrokeTimer,
    TOTAL_FRAMES,
};
use oxiedraw_ui::geometry::{Color, InputSample, Point};
use oxiedraw_ui::ieee::Single;

fn s(v: f32) -> Single {
    Single::from_bits(v.to_bits())
}

fn p(x: f32, y: f32) -> Point {
    Point { x: s(x), y: s(y) }
}

fn sample(x: f32, time_ms: u64) -> InputSample {
    InputSample {
        position: p(x, 0.0),
        pressure: s(0.5),
        tilt_x: s(0.1),
        tilt_y: s(0.2),
        rotation: s(0.3),
        time_ms,
    }
}

const BLACK: Color = Color { r: 0, g: 0, b: 0 };
const RED: Color = Color { r: 200, g: 0, b: 0 };
const GRAY: Color = Color { r: 60, g: 60, b: 60 };

fn paint() -> StrokePaint {
    StrokePaint { color: BLACK, opacity: s(1.0), erase: false }
}

fn correction() -> ShapeCorrection {
    ShapeCorrection {
        enabled: true,
        trigger_delay_ms: 400,
        animation_speed_ms: 300,
        correct_line: true,
        correct_circle: false,
        correct_rectangle: true,
    }
}

fn target() -> Option<StrokeTarget> {
    Some(StrokeTarget { idx: 2, id: "ink".to_string() })
}

fn begun(smudge: bool, assisted: bool) -> Stroke {
    let mut stroke = Stroke::new(paint(), correction());
    stroke.begin(sample(0.0, 0), paint(), correction(), smudge, target(), assisted);
    stroke
}

#[test]
fn an_adjustment_is_painted_gray_and_never_erased() {
    let on_layer = stroke_paint(RED, GRAY, s(0.5), true, false);
    assert_eq!(on_layer, StrokePaint { color: RED, opacity: s(0.5), erase: true });
    let on_mask = stroke_paint(RED, GRAY, s(0.5), true, true);
    assert_eq!(on_mask, StrokePaint { color: GRAY, opacity: s(0.5), erase: false });
}

#[test]
fn a_resting_pen_starts_the_timer() {
    let mut stroke = begun(false, false);
    assert_eq!(stroke.extend(true, sample(1.0, 5), false), Some(Some(400)));
    assert_eq!(stroke.timer, StrokeTimer::Idle);
    assert_eq!(stroke.extend(false, sample(2.0, 6), false), None);
    assert_eq!(stroke.samples.len(), 2);
    assert_eq!(stroke.extend(true, sample(2.0, 6), true), Some(None), "building up");
    assert_eq!(begun(true, false).extend(true, sample(1.0, 5), false), Some(None), "smudging");
    assert_eq!(begun(false, true).extend(true, sample(1.0, 5), false), Some(None), "assisted");
}

#[test]
fn only_the_kinds_that_are_switched_on_are_corrected() {
    assert!(correction().allows(ShapeKind::Line));
    assert!(!correction().allows(ShapeKind::Ellipse));
    let mut stroke = begun(false, false);
    assert!(stroke.rested(true, Some(ShapeKind::Line)));
    assert!(!stroke.rested(true, Some(ShapeKind::Ellipse)));
    assert!(!stroke.rested(true, None));
    assert!(!stroke.rested(false, Some(ShapeKind::Line)));
}

#[test]
fn a_corrected_stroke_keeps_how_the_pen_was_held() {
    let samples = vec![sample(0.0, 1), sample(5.0, 9)];
    let moved = move_samples(&samples, &vec![p(1.0, 1.0), p(2.0, 2.0)]);
    assert_eq!(moved[1].position, p(2.0, 2.0));
    assert_eq!(moved[1].time_ms, 9);
    assert_eq!(moved[1].pressure, s(0.5));
}

#[test]
fn the_glide_lands_on_the_shape() {
    let mut stroke = begun(false, false);
    stroke.extend(true, sample(1.0, 5), false);
    assert_eq!(stroke.correct(&vec![p(0.0, 0.0)]), None, "one place for two samples");
    let interval = stroke.correct(&vec![p(0.0, 1.0), p(1.0, 1.0)]);
    assert_eq!(interval, Some(frame_interval(300)));
    assert!(stroke.pending(false));
    for _ in 1..TOTAL_FRAMES {
        assert!(matches!(stroke.frame(FrameDrawn::Whole), FrameNext::Go));
    }
    match stroke.frame(FrameDrawn::Whole) {
        FrameNext::Commit(Some(t)) => assert_eq!(t.id, "ink"),
        _ => panic!("the last frame commits"),
    }
    assert!(!stroke.pending(false));
    assert!(stroke.pending(true));
    assert!(matches!(stroke.end(), StrokeEnd::Freehand(None)), "it was recorded already");
}

#[test]
fn lifting_the_pen_lands_the_shape_at_once() {
    let mut stroke = begun(false, false);
    stroke.correct(&vec![p(0.0, 7.0)]);
    match stroke.end() {
        StrokeEnd::Corrected(samples, Some(t)) => {
            assert_eq!(samples[0].position, p(0.0, 7.0));
            assert_eq!(t.idx, 2);
        }
        _ => panic!("corrected"),
    }
    assert!(matches!(stroke.end(), StrokeEnd::Freehand(None)));
}

#[test]
fn a_frame_that_fails_ends_the_glide() {
    let mut stroke = begun(false, false);
    stroke.correct(&vec![p(0.0, 7.0)]);
    assert!(matches!(stroke.frame(FrameDrawn::NoBuffer), FrameNext::Stop));
    assert!(stroke.pending(false), "lifting the pen still lands it");
    stroke.correct(&vec![p(0.0, 7.0)]);
    assert!(matches!(stroke.frame(FrameDrawn::Broken), FrameNext::Discard));
    assert!(!stroke.pending(false));
}

#[test]
fn a_frame_takes_at_least_a_millisecond() {
    assert_eq!(frame_interval(0), 1);
    assert_eq!(frame_interval(TOTAL_FRAMES * 7), 7);
}

#[test]
fn pixels_of_another_size_are_not_measured_against() {
    let after = vec![1, 2, 3];
    assert_eq!(before_region(Some(vec![9, 9, 9]), None, &after), Some(vec![9, 9, 9]));
    assert_eq!(before_region(None, Some(vec![8, 8, 8]), &after), Some(vec![8, 8, 8]));
    assert_eq!(before_region(Some(vec![9]), Some(vec![8, 8, 8]), &after), None);
    assert_eq!(before_region(None, None, &after), None);
}

#[test]
fn samples_are_drawn_into_a_fresh_buffer() {
    assert_eq!(
        redraw_calls(3),
        vec![
            RedrawCall::Discard,
            RedrawCall::Begin,
            RedrawCall::First,
            RedrawCall::Next(1),
            RedrawCall::Next(2),
            RedrawCall::End,
        ]
    );
    assert_eq!(redraw_calls(0), vec![RedrawCall::Discard, RedrawCall::Begin, RedrawCall::End]);
    assert_eq!(frame_drawn(None), FrameDrawn::Whole);
    assert_eq!(frame_drawn(Some(1)), FrameDrawn::NoBuffer);
    assert_eq!(frame_drawn(Some(2)), FrameDrawn::Broken);
}

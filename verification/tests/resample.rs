use oxiedraw_ui::canvas::resample::{lesser, reach, EventClock, Moment, Placement, PointerResampler, Reach};
use oxiedraw_ui::geometry::Point;
use oxiedraw_ui::ieee::{Double, Single};

fn d(v: f64) -> Double {
    Double::from_bits(v.to_bits())
}

fn value(v: Double) -> f64 {
    f64::from_bits(v.bits)
}

fn p(x: f32, y: f32) -> Point {
    Point { x: Single::from_bits(x.to_bits()), y: Single::from_bits(y.to_bits()) }
}

/// Take a sample, with the usual interval smoothed in.
fn push(r: &mut PointerResampler, t: f64, at: Point) {
    let since = r.last.map_or(0.0, |m| t - value(m.t));
    let interval = r.interval_ms.map_or(since, |i| (since - value(i)).mul_add(0.3, value(i)));
    r.push_at(d(t), at, d(since), d(interval));
}

fn coordinate(v: Single) -> f32 {
    f32::from_bits(v.bits)
}

/// Where the pointer was half an interval before `now`.
fn position_at(r: &PointerResampler, now: f64) -> Option<(f32, f32)> {
    let (from, to, interval) = match r.placement() {
        Placement::Unknown => return None,
        Placement::At(at) => return Some((coordinate(at.x), coordinate(at.y))),
        Placement::Along { from, to, interval } => (from, to, value(interval).max(1.0)),
    };
    let segment = (value(to.t) - value(from.t)).max(1.0);
    let target = now - interval * 0.5;
    let (ahead, max_ahead) = (target - value(to.t), interval * 0.5);
    let along = |f: f64| {
        let step = |a: f32, b: f32| b + (f64::from(b - a) / segment * f) as f32;
        (
            step(coordinate(from.at.x), coordinate(to.at.x)),
            step(coordinate(from.at.y), coordinate(to.at.y)),
        )
    };
    Some(match reach(d(target), to.t, d(ahead), d(max_ahead)) {
        Reach::Between => along(ahead.max(-segment)),
        Reach::Ahead => along(ahead),
        Reach::Unwinding => {
            let unwound = (ahead - max_ahead) / (interval * 2.0);
            along(max_ahead * (1.0 - unwound).max(0.0))
        }
    })
}

fn assert_near(p: Option<(f32, f32)>, x: f32, y: f32) {
    let p = p.expect("position");
    assert!(
        (p.0 - x).abs() < 1e-3 && (p.1 - y).abs() < 1e-3,
        "got {:?}, want ({}, {})",
        p,
        x,
        y
    );
}

fn two_samples() -> PointerResampler {
    let mut r = PointerResampler::new();
    push(&mut r, 0.0, p(0.0, 0.0));
    push(&mut r, 10.0, p(10.0, 0.0));
    r
}

#[test]
fn single_sample_is_returned_as_is() {
    let mut r = PointerResampler::new();
    push(&mut r, 5.0, p(3.0, 4.0));
    assert_eq!(r.placement(), Placement::At(p(3.0, 4.0)));
    assert_near(position_at(&r, 100.0), 3.0, 4.0);
}

#[test]
fn interpolates_half_an_interval_behind_now() {
    let r = two_samples();
    assert_near(position_at(&r, 15.0), 10.0, 0.0);
    assert_near(position_at(&r, 12.5), 7.5, 0.0);
    assert_near(position_at(&r, 10.0), 5.0, 0.0);
    assert_near(position_at(&r, 2.0), 0.0, 0.0);
}

#[test]
fn extrapolation_is_capped_then_unwinds_onto_the_last_sample() {
    let r = two_samples();
    assert_near(position_at(&r, 20.0), 15.0, 0.0);
    assert_near(position_at(&r, 22.0), 14.5, 0.0);
    assert_near(position_at(&r, 25.0), 13.75, 0.0);
    assert_near(position_at(&r, 45.0), 10.0, 0.0);
    assert_near(position_at(&r, 90.0), 10.0, 0.0);
}

#[test]
fn same_millisecond_replaces_the_position() {
    let mut r = two_samples();
    push(&mut r, 10.0, p(11.0, 0.0));
    match r.placement() {
        Placement::Along { from, to, interval } => {
            assert_eq!(from, Moment { t: d(0.0), at: p(0.0, 0.0) });
            assert_eq!(to, Moment { t: d(10.0), at: p(11.0, 0.0) });
            assert_eq!(interval, d(10.0));
        }
        other => panic!("{:?}", other),
    }
    assert_near(position_at(&r, 15.0), 11.0, 0.0);
}

#[test]
fn interval_estimate_is_smoothed() {
    let mut r = two_samples();
    push(&mut r, 12.0, p(12.0, 0.0));
    let interval = value(r.interval_ms.expect("interval"));
    assert!((interval - 7.6).abs() < 1e-9, "got {}", interval);
}

#[test]
fn begin_forgets_samples() {
    let mut r = two_samples();
    r.begin();
    assert_eq!(r.placement(), Placement::Unknown);
    assert!(position_at(&r, 20.0).is_none());
    assert_eq!(r, PointerResampler::new());
}

#[test]
fn the_least_delay_holds_within_a_window() {
    let mut c = EventClock::new(d(0.0));
    assert_eq!(c.offset_ms, None);
    c.observe(d(10.0), d(7.0), d(10.0));
    assert_eq!(c.offset_ms, Some(d(7.0)));
    c.observe(d(20.0), d(9.0), d(20.0));
    assert_eq!(c.offset_ms, Some(d(7.0)));
    c.observe(d(30.0), d(3.0), d(30.0));
    assert_eq!(c.offset_ms, Some(d(3.0)));
    assert_eq!(c.window_min_ms, Some(d(3.0)));
}

#[test]
fn a_new_window_forgets_a_delay_that_was_too_small() {
    let mut c = EventClock::new(d(0.0));
    c.observe(d(10.0), d(1.0), d(10.0));
    c.observe(d(500.0), d(8.0), d(500.0));
    assert_eq!(c.offset_ms, Some(d(1.0)));
    assert_eq!(c.window_started_ms, d(500.0));
    assert_eq!(c.window_min_ms, None);
    c.observe(d(1000.0), d(9.0), d(500.0));
    assert_eq!(c.offset_ms, Some(d(9.0)));
}

#[test]
fn the_lesser_of_two_is_what_the_hardware_gives() {
    for a in [1.0, 2.0, -3.0, f64::NAN, f64::INFINITY] {
        for b in [1.0, 2.0, -3.0, f64::NEG_INFINITY] {
            assert_eq!(value(lesser(d(a), d(b))), a.min(b));
        }
    }
}

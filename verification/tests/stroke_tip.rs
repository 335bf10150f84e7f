use oxiedraw_ui::canvas::stroke_tip::{segment_span, BrushFamily, DeferredDabs, DueRun};
use oxiedraw_ui::ieee::Double;

fn d(v: f64) -> Double {
    Double::from_bits(v.to_bits())
}

fn value(v: Double) -> f64 {
    f64::from_bits(v.bits)
}

fn dabs(n: usize) -> Vec<i32> {
    (0..n).map(|i| i as i32).collect()
}

/// The dabs of a segment, due evenly over the time that it takes to replay.
fn paint_segment(q: &mut DeferredDabs<i32>, dabs: Vec<i32>, from_ms: u64, to_ms: u64) {
    let span = segment_span(from_ms, to_ms) as f64;
    let start = value(q.now_ms);
    let count = dabs.len() as f64;
    let times: Vec<Double> =
        (0..dabs.len()).map(|i| d((i as f64 + 1.0).mul_add(span / count, start))).collect();
    q.push_run(dabs, times);
}

fn xs(runs: &Vec<DueRun<i32>>) -> Vec<i32> {
    runs.iter().flat_map(|r| r.dabs.iter().copied()).collect()
}

#[test]
fn first_dab_is_due_at_once() {
    let mut q = DeferredDabs::new();
    q.now_ms = d(100.0);
    q.set_family(BrushFamily::SoftRound);
    q.paint_dabs(dabs(1));
    assert_eq!(xs(&q.take_until(d(100.0))), vec![0]);
    assert!(q.take_all().is_empty());
}

#[test]
fn segment_replays_over_the_time_it_took() {
    let mut q = DeferredDabs::new();
    q.now_ms = d(100.0);
    q.set_family(BrushFamily::SoftRound);
    paint_segment(&mut q, dabs(4), 90, 98);
    assert!(q.take_until(d(101.0)).is_empty());
    assert_eq!(xs(&q.take_until(d(105.0))), vec![0, 1]);
    assert_eq!(xs(&q.take_until(d(108.0))), vec![2, 3]);
    assert!(q.take_all().is_empty());
}

#[test]
fn runs_keep_stroke_order_and_family() {
    let mut q = DeferredDabs::new();
    q.now_ms = d(0.0);
    q.set_family(BrushFamily::SoftRound);
    paint_segment(&mut q, dabs(2), 0, 10);
    q.now_ms = d(10.0);
    q.set_family(BrushFamily::Pixel);
    paint_segment(&mut q, dabs(2), 10, 20);
    let due = q.take_until(d(15.0));
    assert_eq!(xs(&due), vec![0, 1, 0]);
    assert!(matches!(due[0].family, BrushFamily::SoftRound));
    assert!(matches!(due[1].family, BrushFamily::Pixel));
    assert_eq!(xs(&q.take_all()), vec![1]);
    assert!(q.take_all().is_empty());
}

#[test]
fn a_stalled_input_stream_does_not_make_the_tip_crawl() {
    let mut q = DeferredDabs::new();
    q.now_ms = d(200.0);
    q.set_family(BrushFamily::SoftRound);
    paint_segment(&mut q, dabs(4), 50, 200);
    assert!(q.take_until(d(203.0)).is_empty());
    assert_eq!(xs(&q.take_until(d(208.0))), vec![0, 1]);
    assert_eq!(xs(&q.take_until(d(216.0))), vec![2, 3]);
}

#[test]
fn a_segment_takes_as_long_as_it_took_up_to_the_limit() {
    assert_eq!(segment_span(90, 98), 8);
    assert_eq!(segment_span(50, 200), 16);
    assert_eq!(segment_span(0, 16), 16);
    assert_eq!(segment_span(20, 10), 0);
}

#[test]
fn dabs_without_a_family_are_soft_and_round() {
    let mut q = DeferredDabs::new();
    q.paint_dabs(dabs(1));
    let due = q.take_all();
    assert_eq!(due[0].family, BrushFamily::SoftRound);
}

#[test]
fn nothing_is_due_before_the_first_input() {
    let mut q = DeferredDabs::new();
    q.begin_sample(d(5.0));
    q.paint_dabs(dabs(2));
    q.paint_dabs(dabs(0));
    assert!(q.take_due(None).is_empty());
    assert!(q.take_due(Some(d(4.0))).is_empty());
    assert_eq!(xs(&q.take_due(Some(d(5.0)))), vec![0, 1]);
}

#[test]
fn a_new_stroke_drops_what_waits() {
    let mut q = DeferredDabs::new();
    q.begin_sample(d(5.0));
    q.set_family(BrushFamily::Textured(3));
    q.paint_dabs(dabs(2));
    q.begin();
    assert!(q.take_all().is_empty());
    assert_eq!(q.family, None);
}

#[test]
fn releasing_in_steps_gives_the_whole_stroke() {
    let mut q = DeferredDabs::new();
    let mut all: Vec<i32> = Vec::new();
    for k in 0..5u64 {
        q.begin_sample(d((k * 8) as f64));
        paint_segment(&mut q, vec![k as i32 * 2, k as i32 * 2 + 1], k * 8, k * 8 + 8);
        all.extend(xs(&q.take_until(d((k * 8 + 3) as f64))));
    }
    all.extend(xs(&q.take_all()));
    assert_eq!(all, (0..10).collect::<Vec<i32>>());
}

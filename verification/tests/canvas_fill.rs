use oxiedraw_ui::canvas::fill::{
    copy_pixels, find_layer, percent, press_pixels, seed_pixel, FillArrival, FillLanding, FillMotion, FillNext,
    FillPress, FillRelease, FillState, RevealTick,
};
use oxiedraw_ui::canvas::pump::RenderPump;
use oxiedraw_ui::ieee::Double;

fn press(before: Vec<u8>) -> FillPress {
    FillPress {
        before,
        sample: None,
        occluders: None,
        mask: None,
        seed: (0, 0),
        size: (1, 1),
        color_bgr: (1, 2, 3),
        auto_edge: false,
        origin_x: Double::from_bits(12.5_f64.to_bits()),
    }
}

fn ids(names: &[&str]) -> Vec<String> {
    names.iter().map(|n| n.to_string()).collect()
}

fn opened(tolerance: u8) -> (FillState, RenderPump) {
    let mut f = FillState::new(tolerance);
    let mut pump = RenderPump::new();
    let (job, uncover) = f.open(&mut pump, 1, "ink".to_string(), press(vec![9, 9, 9, 255]));
    assert_eq!(job.generation, 1);
    assert_eq!(job.tolerance, tolerance);
    assert!(job.reveal_order);
    assert!(!uncover);
    (f, pump)
}

#[test]
fn the_pressed_pixel_lies_on_the_canvas() {
    assert_eq!(seed_pixel(3, 4, 10, 10), Some((3, 4)));
    assert_eq!(seed_pixel(-1, 4, 10, 10), None);
    assert_eq!(seed_pixel(3, -1, 10, 10), None);
    assert_eq!(seed_pixel(10, 4, 10, 10), None);
    assert_eq!(seed_pixel(3, 10, 10, 10), None);
    assert_eq!(seed_pixel(0, 0, 1, 1), Some((0, 0)));
}

#[test]
fn the_threshold_is_a_percentage() {
    assert_eq!(percent(0), 0);
    assert_eq!(percent(255), 100);
    assert_eq!(percent(128), 50);
    assert_eq!(percent(32), 12);
}

#[test]
fn a_layer_is_found_by_its_id() {
    let list = ids(&["a", "b", "b"]);
    assert_eq!(find_layer(&list, &"b".to_string()), Some(1));
    assert_eq!(find_layer(&list, &"c".to_string()), None);
}

#[test]
fn a_flood_paints_on_the_pixels_of_the_press() {
    let (mut f, _) = opened(10);
    match f.arrive(1, true, true) {
        FillArrival::Paint { buf, animate } => {
            assert_eq!(buf, vec![9, 9, 9, 255]);
            assert!(animate);
        }
        _ => panic!("paint"),
    }
    assert!(matches!(f.land(&vec![1, 2, 3, 4], &ids(&["ink", "paper"])), FillLanding::Layer(0)));
    assert!(matches!(f.settle(), FillNext::Nothing));
    match f.release() {
        FillRelease::Closed { slider, record: Some(record) } => {
            assert_eq!(slider, 10);
            assert_eq!(record.layer_id, "ink");
            assert_eq!(record.press.before, vec![9, 9, 9, 255]);
            assert_eq!(record.after, vec![1, 2, 3, 4]);
        }
        _ => panic!("a record"),
    }
    assert!(matches!(f.release(), FillRelease::Idle));
    assert!(f.finish().is_none());
}

#[test]
fn a_stale_flood_changes_nothing() {
    let (mut f, mut pump) = opened(10);
    let (job, _) = f.open(&mut pump, 1, "ink".to_string(), press(vec![0; 4]));
    assert_eq!(job.generation, 2);
    assert!(matches!(f.arrive(1, true, true), FillArrival::Stale));
    assert!(matches!(f.arrive(2, true, false), FillArrival::Unchanged));
}

#[test]
fn another_tool_closes_the_gesture() {
    let (mut f, _) = opened(10);
    assert!(matches!(f.arrive(1, false, true), FillArrival::Closed(None)));
    assert!(matches!(f.arrive(1, true, true), FillArrival::Stale));
}

#[test]
fn one_flood_runs_at_a_time() {
    let (mut f, mut pump) = opened(10);
    let moved = f.adjust(&mut pump, 11).expect("moved");
    assert!(moved.job.is_none(), "the first one is still running");
    assert_eq!(moved.announce, Some(4));
    assert!(f.adjust(&mut pump, 11).is_none(), "it has not moved");
    assert!(matches!(f.release(), FillRelease::Waiting { slider: 11 }));
    assert!(matches!(f.arrive(1, true, true), FillArrival::Paint { animate: false, .. }));
    assert!(matches!(f.land(&vec![7; 4], &ids(&["paper", "ink"])), FillLanding::Layer(1)));
    match f.settle() {
        FillNext::Flood(job) => {
            assert_eq!(job.tolerance, 11);
            assert!(!job.reveal_order);
        }
        _ => panic!("the threshold has moved meanwhile"),
    }
    assert!(matches!(f.arrive(1, true, true), FillArrival::Paint { .. }));
    assert!(matches!(f.land(&vec![8; 4], &ids(&["paper", "ink"])), FillLanding::Layer(1)));
    match f.settle() {
        FillNext::Closed(Some(record)) => assert_eq!(record.after, vec![8; 4]),
        _ => panic!("the pointer is up"),
    }
}

#[test]
fn the_next_fill_starts_where_the_drag_ended() {
    let (mut f, mut pump) = opened(10);
    f.adjust(&mut pump, 90).expect("moved");
    assert_eq!(f.tolerance, 90);
    assert!(matches!(f.release(), FillRelease::Waiting { slider: 90 }));
    f.finish();
    let (job, _) = f.open(&mut pump, 1, "ink".to_string(), press(vec![0; 4]));
    assert_eq!(job.tolerance, 90);
    f.set_tolerance(33);
    f.finish();
    let (job, _) = f.open(&mut pump, 1, "ink".to_string(), press(vec![0; 4]));
    assert_eq!(job.tolerance, 33);
}

#[test]
fn a_deleted_layer_abandons_the_gesture() {
    let (mut f, _) = opened(10);
    assert!(matches!(f.arrive(1, true, true), FillArrival::Paint { .. }));
    assert!(matches!(f.land(&vec![1; 4], &ids(&["paper"])), FillLanding::Abandoned));
    assert!(matches!(f.land(&vec![1; 4], &ids(&["ink"])), FillLanding::Idle));
    assert!(f.finish().is_none());
}

#[test]
fn a_motion_drags_only_while_the_button_is_held() {
    let (f, _) = opened(10);
    assert!(matches!(f.motion(true), FillMotion::Drag(x) if f64::from_bits(x.bits) == 12.5));
    assert!(matches!(f.motion(false), FillMotion::End));
    assert!(matches!(FillState::new(5).motion(true), FillMotion::Ignore));
}

#[test]
fn a_sweep_holds_the_pump_until_it_ends() {
    let mut f = FillState::new(5);
    let mut pump = RenderPump::new();
    assert!(f.begin_animation(&mut pump, 1_000_000, true));
    assert_eq!(pump.active, 1);
    assert!(matches!(f.reveal_tick(&mut pump, true, 41_000_000), RevealTick::Show(40)));
    assert!(matches!(f.reveal_tick(&mut pump, true, 10_000_000_000), RevealTick::Complete));
    assert_eq!(pump.active, 0);
    assert!(matches!(f.reveal_tick(&mut pump, true, 10_000_000_000), RevealTick::Idle));
    assert!(!f.end_animation(&mut pump));
    assert_eq!(pump.active, 0);

    f.begin_animation(&mut pump, 0, true);
    assert!(matches!(f.reveal_tick(&mut pump, false, 1), RevealTick::Gone));
    assert_eq!(pump.active, 0);
}

#[test]
fn a_new_press_cuts_the_sweep_short() {
    let mut f = FillState::new(5);
    let mut pump = RenderPump::new();
    f.begin_animation(&mut pump, 0, true);
    let (_, uncover) = f.open(&mut pump, 0, "ink".to_string(), press(vec![0; 4]));
    assert!(uncover);
    assert_eq!(pump.active, 0);
    assert!(f.request().is_none(), "its flood is running");
}

#[test]
fn pixels_are_copied_whole() {
    let pixels: Vec<u8> = (0..=255).collect();
    assert_eq!(copy_pixels(&pixels), pixels);
    assert_eq!(copy_pixels(&Vec::new()), Vec::<u8>::new());
}

#[test]
fn a_fill_needs_what_confines_it() {
    let some = |v: u8| Some(vec![v]);
    let r = press_pixels(some(1), true, some(2), true, some(3), some(4)).expect("pixels");
    assert_eq!((r.before, r.mask), (vec![1], some(2)));
    assert_eq!((r.sample, r.occluders), (some(3), some(4)));
    let r = press_pixels(some(1), false, some(2), false, some(3), some(4)).expect("pixels");
    assert_eq!((r.mask, r.sample, r.occluders), (None, None, None));
    let r = press_pixels(some(1), false, None, true, some(3), None).expect("pixels");
    assert_eq!(r.occluders, None);
    assert!(press_pixels(None, false, None, false, None, None).is_none());
    assert!(press_pixels(some(1), true, None, false, None, None).is_none());
    assert!(press_pixels(some(1), false, None, true, None, some(4)).is_none());
}

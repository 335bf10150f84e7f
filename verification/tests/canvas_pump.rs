use oxiedraw_ui::canvas::pump::{EaseInterval, EaseStep, PumpTick, RenderPump, RotationAnimator};
use oxiedraw_ui::ieee::Single;

fn s(v: f32) -> Single {
    Single::from_bits(v.to_bits())
}

#[test]
fn the_tick_runs_while_an_interaction_does() {
    let mut pump = RenderPump::new();
    assert!(pump.arm(true), "the first one installs the tick");
    assert!(!pump.arm(true), "the second one joins");
    assert_eq!(pump.tick(true), PumpTick::Present);
    assert_eq!(pump.tick(false), PumpTick::Repaint);
    pump.disarm();
    assert_eq!(pump.tick(false), PumpTick::Repaint);
    pump.disarm();
    assert_eq!(pump.tick(true), PumpTick::Stop);
    assert!(!pump.installed);
    assert!(pump.arm(true));
}

#[test]
fn a_widget_that_is_not_there_gets_no_tick() {
    let mut pump = RenderPump::new();
    assert!(!pump.arm(false));
    assert!(!pump.installed);
    assert!(pump.arm(true));
    assert_eq!(pump.active, 2);
}

#[test]
fn an_end_too_many_is_none() {
    let mut pump = RenderPump::new();
    pump.disarm();
    assert_eq!(pump, RenderPump::new());
    pump.arm(false);
    pump.disarm();
    assert_eq!(pump.active, 0);
}

#[test]
fn the_ease_runs_to_its_target() {
    let mut a = RotationAnimator::new();
    assert!(a.animate_to(s(1.5), true));
    assert!(!a.animate_to(s(3.0), true), "the running tick takes the new target");
    assert_eq!(a.tick(false, 1000), EaseStep::Toward(s(3.0), EaseInterval::FirstFrame));
    assert_eq!(a.tick(false, 17_000), EaseStep::Toward(s(3.0), EaseInterval::Micros(16_000)));
    assert_eq!(a.tick(true, 33_000), EaseStep::Settle(s(3.0)));
    assert_eq!(a.tick(true, 34_000), EaseStep::Stop);
}

#[test]
fn a_cancelled_ease_stops_where_it_is() {
    let mut a = RotationAnimator::new();
    a.animate_to(s(1.0), true);
    a.cancel();
    assert_eq!(a.tick(false, 5), EaseStep::Stop);
    assert!(!a.installed);
    assert!(!a.animate_to(s(1.0), false));
}

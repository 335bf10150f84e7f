use oxiedraw_ui::adjustments::{
    add_or_edit, is_same_stack, layer_idx, offset_place, AdjustmentEntry, Effect, EffectDefaults,
    EffectEditor, EffectKind, EffectNumber, EffectSlot, RadiusLock, Working,
};
use oxiedraw_ui::geometry::Color;
use oxiedraw_ui::ieee::{Double, Single};

fn s(v: f32) -> Single {
    Single::from_bits(v.to_bits())
}

fn d(v: f64) -> Double {
    Double::from_bits(v.to_bits())
}

fn blur(x: f32, y: f32) -> EffectKind {
    EffectKind::Blur { radius_x: s(x), radius_y: s(y) }
}

fn hsb(hue: f32) -> EffectKind {
    EffectKind::HueSatBright { hue_degrees: s(hue), saturation: s(1.0), brightness: s(1.0) }
}

fn stroke() -> EffectKind {
    EffectKind::Stroke {
        color: Color { r: 0, g: 0, b: 0 },
        opacity: s(1.0),
        thickness: s(4.0),
        offset: s(0.0),
        softness: 0,
    }
}

fn defaults() -> EffectDefaults {
    EffectDefaults {
        hue_sat_bright: hsb(0.0),
        blur: blur(4.0, 4.0),
        sharpen: EffectKind::Sharpen { amount: s(1.0) },
        stroke: stroke(),
    }
}

fn on(kind: EffectKind) -> Effect {
    Effect { kind, enabled: true }
}

fn off(kind: EffectKind) -> Effect {
    Effect { kind, enabled: false }
}

#[test]
fn missing_effects_are_there_switched_off() {
    let data = vec![on(EffectKind::Invert), on(blur(9.0, 2.0)), on(blur(1.0, 1.0))];
    let w = Working::from_data(&data, &defaults());
    assert_eq!(w.invert, on(EffectKind::Invert));
    assert_eq!(w.blur, on(blur(9.0, 2.0)), "the first one counts");
    assert_eq!(w.hsb, off(hsb(0.0)));
    assert_eq!(w.stroke, off(stroke()));
    assert_eq!(
        w.assemble(),
        vec![w.hsb, w.blur, w.sharpen, w.invert, w.stroke],
        "bottom first"
    );
}

#[test]
fn a_round_trip_loses_nothing() {
    let w = Working::from_data(&vec![on(hsb(30.0)), off(EffectKind::Invert)], &defaults());
    assert_eq!(Working::from_data(&w.assemble(), &defaults()), w);
}

#[test]
fn switching_keeps_the_settings() {
    let mut w = Working::from_data(&vec![on(blur(9.0, 2.0))], &defaults());
    w.toggle(EffectSlot::Blur, false);
    assert_eq!(w.blur, off(blur(9.0, 2.0)));
    w.toggle(EffectSlot::Blur, true);
    assert_eq!(w.blur, on(blur(9.0, 2.0)));
    w.toggle(EffectSlot::Invert, true);
    assert!(w.invert.enabled);
}

#[test]
fn each_number_has_its_effect() {
    let mut w = Working::from_data(&Vec::new(), &defaults());
    w.set(EffectNumber::Hue, s(20.0));
    w.set(EffectNumber::Saturation, s(0.5));
    w.set(EffectNumber::Brightness, s(0.25));
    w.set(EffectNumber::RadiusX, s(7.0));
    w.set(EffectNumber::RadiusY, s(8.0));
    w.set(EffectNumber::Amount, s(3.0));
    w.set(EffectNumber::Opacity, s(0.75));
    w.set(EffectNumber::Thickness, s(6.0));
    w.set(EffectNumber::Offset, s(-1.0));
    w.set_color(Color { r: 9, g: 8, b: 7 });
    w.set_softness(2);
    assert_eq!(
        w.hsb.kind,
        EffectKind::HueSatBright {
            hue_degrees: s(20.0),
            saturation: s(0.5),
            brightness: s(0.25)
        }
    );
    assert_eq!(w.blur.kind, blur(7.0, 8.0));
    assert_eq!(w.sharpen.kind, EffectKind::Sharpen { amount: s(3.0) });
    assert_eq!(
        w.stroke.kind,
        EffectKind::Stroke {
            color: Color { r: 9, g: 8, b: 7 },
            opacity: s(0.75),
            thickness: s(6.0),
            offset: s(-1.0),
            softness: 2,
        }
    );
}

#[test]
fn stacks_are_compared_as_numbers() {
    assert!(is_same_stack(&vec![on(blur(0.0, 1.0))], &vec![on(blur(-0.0, 1.0))]));
    assert!(!is_same_stack(&vec![on(blur(f32::NAN, 1.0))], &vec![on(blur(f32::NAN, 1.0))]));
    assert!(!is_same_stack(&vec![on(blur(0.0, 1.0))], &vec![off(blur(0.0, 1.0))]));
    assert!(!is_same_stack(&vec![on(EffectKind::Invert)], &vec![on(stroke())]));
    assert!(!is_same_stack(&vec![on(EffectKind::Invert)], &Vec::new()));
    assert!(is_same_stack(&vec![on(stroke())], &vec![on(stroke())]));
}

fn whole() -> Vec<Effect> {
    Working::from_data(&vec![on(hsb(30.0))], &defaults()).assemble()
}

#[test]
fn applying_records_what_changed() {
    let mut e = EffectEditor::open("layer".to_string(), whole(), &defaults());
    assert!(e.apply().is_none(), "nothing changed");
    let mut e = EffectEditor::open("layer".to_string(), whole(), &defaults());
    e.working.set(EffectNumber::Hue, s(31.0));
    let after = e.apply().expect("a record");
    assert_eq!(after[0], on(hsb(31.0)));
    assert!(e.close().is_none(), "what was applied stays");
}

#[test]
fn cancelling_restores_the_stack() {
    let before = vec![on(hsb(30.0))];
    let mut e = EffectEditor::open("layer".to_string(), before.clone(), &defaults());
    e.working.toggle(EffectSlot::Stroke, true);
    e.working.set(EffectNumber::Hue, s(99.0));
    assert_eq!(e.close(), Some(before));
}

#[test]
fn a_layer_is_found_again_where_it_moved() {
    let ids = vec!["a".to_string(), "b".to_string()];
    assert_eq!(layer_idx(&ids, "b"), Some(1));
    assert_eq!(layer_idx(&ids, "gone"), None);
}

#[test]
fn an_adjustment_layer_is_edited_and_any_other_gets_one() {
    assert_eq!(add_or_edit(Some(3), true), AdjustmentEntry::Edit(3));
    assert_eq!(add_or_edit(Some(3), false), AdjustmentEntry::Create);
    assert_eq!(add_or_edit(None, false), AdjustmentEntry::Create);
}

#[test]
fn linked_radii_move_together() {
    let mut r = RadiusLock { horizontal: d(3.0), vertical: d(5.0), locked: false };
    r.move_horizontal(d(4.0));
    assert_eq!(r.vertical, d(5.0));
    assert_eq!(r.icon(), "changes-allow-symbolic");
    r.switch(true);
    assert_eq!(r.vertical, d(4.0));
    assert_eq!(r.icon(), "changes-prevent-symbolic");
    r.move_vertical(d(9.0));
    assert_eq!(r.horizontal, d(9.0));
    r.switch(false);
    r.move_vertical(d(1.0));
    assert_eq!(r.horizontal, d(9.0));
}

#[test]
fn an_offset_is_inside_outside_or_center() {
    assert_eq!(offset_place(d(-0.34)), "inside");
    assert_eq!(offset_place(d(-0.33)), "center");
    assert_eq!(offset_place(d(0.0)), "center");
    assert_eq!(offset_place(d(0.33)), "center");
    assert_eq!(offset_place(d(0.34)), "outside");
}

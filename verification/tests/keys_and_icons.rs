use oxiedraw_ui::icons::{build_manifest, is_icon, with_slashes};
use oxiedraw_ui::keys::{
    accel_binding, accel_target, key_for_tool, key_pressed, AccelBinding, ColorSlot, Key,
    KeyAction, KeyTool, ModalTool, ViewportAction,
};
use oxiedraw_ui::text::{push_decimal, same};

#[test]
fn a_text_field_keeps_its_keys() {
    for key in [Key::Escape, Key::Enter, Key::Delete, Key::Other] {
        for tool in [KeyTool::Crop, KeyTool::Selection, KeyTool::Modal(ModalTool::Transform)] {
            assert_eq!(key_pressed(key, true, true, false, tool), KeyAction::Proceed);
        }
        assert_eq!(
            key_pressed(key, false, false, false, KeyTool::Crop),
            KeyAction::Proceed,
            "there is no document"
        );
    }
}

#[test]
fn keys_go_to_the_tool() {
    let modal = KeyTool::Modal(ModalTool::Liquify);
    assert_eq!(
        key_pressed(Key::Enter, true, false, false, modal),
        KeyAction::Apply(ModalTool::Liquify)
    );
    assert_eq!(key_pressed(Key::Enter, true, false, true, modal), KeyAction::EditText);
    assert_eq!(
        key_pressed(Key::Escape, true, false, false, KeyTool::Other),
        KeyAction::LeaveComponent
    );
    assert_eq!(
        key_pressed(Key::Delete, true, false, false, KeyTool::Other),
        KeyAction::DeleteSelection
    );
    assert_eq!(key_for_tool(Key::Escape, KeyTool::Crop), KeyAction::CancelCrop);
    assert_eq!(key_for_tool(Key::Escape, KeyTool::Selection), KeyAction::Deselect);
    assert_eq!(
        key_for_tool(Key::Escape, KeyTool::Modal(ModalTool::Pattern)),
        KeyAction::Cancel(ModalTool::Pattern)
    );
    assert_eq!(key_for_tool(Key::Other, KeyTool::Crop), KeyAction::Proceed);
}

#[test]
fn colors_trade_places() {
    assert_eq!(ColorSlot::Primary.swapped(), ColorSlot::Secondary);
    assert_eq!(ColorSlot::Primary.swapped().swapped(), ColorSlot::Primary);
}

#[test]
fn actions_have_their_accelerators() {
    assert_eq!(ViewportAction::ZoomIn.id(), "zoom-in");
    assert_eq!(ViewportAction::PerfGraph.id(), "perf-graph");
    assert_eq!(accel_target("zoom-fit"), "app.zoom-fit");
    assert!(matches!(accel_binding(true, Some("x".to_string())), AccelBinding::Skip));
    assert!(matches!(accel_binding(false, None), AccelBinding::Bind(None)));
    assert!(matches!(
        accel_binding(false, Some("x".to_string())),
        AccelBinding::Bind(Some(a)) if a == "x"
    ));
}

#[test]
fn icons_are_listed_in_the_manifest() {
    assert!(is_icon(Some("svg")));
    assert!(is_icon(Some("png")));
    assert!(!is_icon(Some("PNG")));
    assert!(!is_icon(None));
    assert_eq!(with_slashes("a\\b/c"), "a/b/c");
    let files = vec!["scalable/a.svg".to_string(), "48x48/b.png".to_string()];
    assert_eq!(
        build_manifest(&files),
        "<?xml version=\"1.0\" encoding=\"UTF-8\"?>\n<gresources>\n  \
         <gresource prefix=\"/io/github/yokarion/OxieDraw/icons\">\n    \
         <file compressed=\"true\">scalable/a.svg</file>\n    \
         <file compressed=\"true\">48x48/b.png</file>\n  </gresource>\n</gresources>\n"
    );
}

#[test]
fn numbers_are_spelled_in_decimal() {
    for n in [0u128, 7, 10, 99, 100, 12345, u128::MAX] {
        let mut t = "n=".to_string();
        push_decimal(&mut t, n);
        assert_eq!(t, format!("n={}", n));
    }
    assert!(same("ab", "ab"));
    assert!(!same("ab", "aB"));
}

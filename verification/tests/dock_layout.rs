use oxiedraw_ui::dock::manager::{
    apply, changed, edit_button, float_changed, panel_toggled, picked, renamed, sides_text,
    LayoutBar, LayoutChange, LayoutManager,
};
use oxiedraw_ui::dock::sizing::{
    build_splits, measure_handle, position_for, seam_resizable, size_of, size_request, slot_fill,
    PositionResult, SeamResult, Settle, Settled, Sizing, SlotFill,
};
use oxiedraw_ui::layout::{Axis, DockSide, LayoutNode, PanelId, SplitChild};

fn split(axis: Axis, fixed: SplitChild, size: i32, a: LayoutNode, b: LayoutNode) -> LayoutNode {
    LayoutNode::Split { axis, fixed, size, first: Box::new(a), second: Box::new(b) }
}

fn tree() -> LayoutNode {
    split(
        Axis::Horizontal,
        SplitChild::First,
        40,
        LayoutNode::Panel(PanelId::ToolBar),
        split(
            Axis::Horizontal,
            SplitChild::Second,
            300,
            LayoutNode::Canvas,
            LayoutNode::Panel(PanelId::Layers),
        ),
    )
}

#[test]
fn taking_a_panel_away_gives_its_place_to_its_neighbor() {
    let left = tree().remove_panel(PanelId::ToolBar).expect("the rest");
    assert!(left.same(&split(
        Axis::Horizontal,
        SplitChild::Second,
        300,
        LayoutNode::Canvas,
        LayoutNode::Panel(PanelId::Layers),
    )));
    assert!(tree().remove_panel(PanelId::ColorPicker).expect("all of it").same(&tree()));
    assert!(LayoutNode::Panel(PanelId::Layers).remove_panel(PanelId::Layers).is_none());
}

#[test]
fn a_docked_panel_stands_on_its_side() {
    for side in [DockSide::Left, DockSide::Right, DockSide::Top, DockSide::Bottom] {
        let mut root = tree();
        root.dock_panel(PanelId::Layers, side);
        assert_eq!(root.side_of(PanelId::Layers), Some(side));
        assert_eq!(root.side_of(PanelId::ToolBar), Some(DockSide::Left));
    }
    assert_eq!(tree().side_of(PanelId::ColorPicker), None);
    assert_eq!(tree().side_of(PanelId::Layers), Some(DockSide::Right));
}

#[test]
fn a_panel_goes_beside_a_part_that_is_there() {
    let mut root = tree();
    assert!(root.split_leaf(&LayoutNode::Panel(PanelId::Layers), PanelId::ColorPicker, DockSide::Top));
    assert!(root.has_part(&split(
        Axis::Vertical,
        SplitChild::First,
        300,
        LayoutNode::Panel(PanelId::ColorPicker),
        LayoutNode::Panel(PanelId::Layers),
    )));
    let before = root.copy();
    assert!(!root.split_leaf(&LayoutNode::Panel(PanelId::CanvasInfo), PanelId::Layers, DockSide::Top));
    assert!(root.same(&before));
}

#[test]
fn panels_take_their_sides() {
    assert!(PanelId::ToolOptions.spec().allows(DockSide::Top));
    assert!(!PanelId::ToolOptions.spec().allows(DockSide::Left));
    assert!(PanelId::Layers.spec().allows(DockSide::Left));
    assert!(!PanelId::CanvasInfo.spec().splittable);
    assert_eq!(PanelId::ToolBar.spec().default_size, 40);
}

#[test]
fn a_dragged_size_reaches_its_split() {
    let mut root = tree();
    let splits = build_splits(&root);
    assert_eq!(splits.len(), 2);
    assert_eq!(splits[0].panel, Some(PanelId::Layers), "the inner one comes first");
    assert_eq!(splits[1].panel, Some(PanelId::ToolBar));
    assert_eq!(splits[0].size, 300);
    assert!(root.set_split_size(&splits[0].path, 350));
    assert!(!root.set_split_size(&splits[0].path, 350), "it has that size");
    let after = build_splits(&root);
    assert_eq!(after[0].size, 350);
    assert_eq!(after[1].size, 40);
    assert!(!root.set_split_size(&vec![SplitChild::First], 10), "a leaf has no seam");
}

#[test]
fn size_and_position_undo_each_other() {
    assert_eq!(position_for(SplitChild::First, 120, 1000, 6), Some(120));
    assert_eq!(position_for(SplitChild::Second, 120, 1000, 6), Some(874));
    assert_eq!(size_of(SplitChild::Second, 874, 1000, 6), Some(120));
    assert_eq!(size_of(SplitChild::First, 120, 1000, 6), Some(120));
}

#[test]
fn the_handle_is_what_the_parts_leave() {
    assert_eq!(measure_handle(1000, 600, 394), Some(6));
    assert_eq!(measure_handle(0, 600, 394), None);
    assert_eq!(measure_handle(1000, 0, 0), None);
    assert_eq!(measure_handle(1000, 600, 500), None);
}

#[test]
fn a_split_settles_once() {
    let mut sizing = Sizing::new(SplitChild::Second, 300, 200);
    assert!(sizing.keep_trying(0));
    assert_eq!(sizing.settle(0, 0, 0), Settle::NotYet);
    assert_eq!(sizing.settle(1000, 500, 494), Settle::Now { position: 694, request: 200 });
    assert_eq!(sizing.settle(1000, 500, 494), Settle::Already);
    assert!(!sizing.keep_trying(0));
    assert!(sizing.seam_moved(1000));
    assert!(!sizing.seam_moved(1200), "the split itself was resized");
    assert!(sizing.seam_moved(1200));
}

#[test]
fn a_split_that_is_made_to_settle_may_shrink() {
    let mut sizing = Sizing::new(SplitChild::Second, 300, 200);
    assert_eq!(sizing.make_settle(0, 0, 0), Settled { seam: None, request: None });
    assert_eq!(
        sizing.make_settle(1000, 500, 494),
        Settled { seam: Some(694), request: Some(200) }
    );
    assert_eq!(sizing.make_settle(1000, 500, 494), Settled { seam: None, request: Some(200) });
}

#[test]
fn a_seam_that_moves_stores_a_size() {
    let nothing = PositionResult { request: None, seam: None, store: None };
    let tens = |size: i32| size / 10 * 10;
    let mut sizing = Sizing::new(SplitChild::Second, 300, 200);
    assert_eq!(sizing.on_position(500, 0, 0, 0, None, tens), nothing, "not laid out yet");
    assert_eq!(
        sizing.on_position(500, 1000, 500, 494, None, tens),
        PositionResult { request: Some(200), seam: Some(694), store: Some(300) },
        "it settles on the spot"
    );
    assert_eq!(
        sizing.on_position(600, 1000, 600, 394, None, tens),
        PositionResult { request: None, seam: None, store: Some(394) }
    );
    assert_eq!(
        sizing.on_position(600, 1000, 600, 394, Some(true), tens),
        PositionResult { request: None, seam: Some(604), store: Some(390) }
    );
    assert_eq!(
        sizing.on_position(600, 1000, 600, 394, Some(false), tens),
        PositionResult { request: None, seam: Some(694), store: None },
        "a locked part goes back"
    );
    assert_eq!(sizing.on_position(600, 1200, 600, 594, None, tens), nothing);
    assert_eq!(
        sizing.on_position(600, 1200, 600, 594, None, tens),
        PositionResult { request: None, seam: None, store: Some(594) }
    );
    sizing.adjusting = true;
    assert_eq!(sizing.on_position(500, 1200, 500, 694, None, tens), nothing);
}

#[test]
fn a_locked_part_goes_back_to_its_size() {
    let mut sizing = Sizing::new(SplitChild::First, 300, 100);
    sizing.settle(1000, 300, 694);
    assert_eq!(
        sizing.seam_result(250, 250, true, 1000),
        SeamResult { seam: Some(300), store: None }
    );
    assert_eq!(
        sizing.seam_result(250, 256, false, 1000),
        SeamResult { seam: Some(256), store: Some(256) }
    );
    assert_eq!(
        sizing.seam_result(250, 250, false, 1000),
        SeamResult { seam: None, store: Some(250) }
    );
}

#[test]
fn small_decisions_of_the_dock() {
    assert_eq!(size_request(100), 100);
    assert_eq!(size_request(-7), -1);
    assert!(seam_resizable(None));
    assert!(!seam_resizable(Some(false)));
    assert_eq!(slot_fill(false, true), SlotFill::Detach);
    assert_eq!(slot_fill(true, true), SlotFill::Nothing);
    assert_eq!(slot_fill(true, false), SlotFill::Put);
}

fn manager() -> LayoutManager {
    LayoutManager {
        names: vec!["Default".to_string(), "Wide".to_string()],
        current: "Default".to_string(),
        edit_mode: false,
        save_queued: false,
    }
}

const NOTHING: LayoutChange =
    LayoutChange { rebuild: false, reanchor: false, save: false, notify: false };

#[test]
fn a_layout_is_shown_when_it_is_another_one() {
    let mut m = manager();
    assert_eq!(m.select("Default"), NOTHING);
    assert_eq!(m.select("Missing"), NOTHING);
    assert_eq!(m.current, "Default");
    assert_eq!(m.select("Wide"), apply());
    assert_eq!(m.current, "Wide");
    assert!(m.can_delete());
    m.names.truncate(1);
    assert!(!m.can_delete());
}

#[test]
fn changes_ask_for_what_they_need() {
    assert_eq!(changed(false), NOTHING);
    assert_eq!(changed(true), apply());
    assert_eq!(renamed(true), LayoutChange { save: true, notify: true, ..NOTHING });
    assert_eq!(renamed(false), NOTHING);
    assert_eq!(float_changed(), LayoutChange { reanchor: true, save: true, ..NOTHING });
}

#[test]
fn many_changes_are_saved_once() {
    let mut m = manager();
    assert!(!m.store_split_size(false));
    assert!(m.store_split_size(true));
    assert!(!m.store_split_size(true));
    assert!(m.flush());
    assert!(!m.flush());
    assert!(m.store_split_size(true), "put off anew");
    assert!(m.save_due());
    assert!(!m.save_queued);
    assert!(m.save_due(), "a timer saves whatever came before it");
    assert!(!m.flush());
    assert!(m.set_edit_mode(true));
    assert!(!m.set_edit_mode(true));
}

#[test]
fn the_bar_follows_the_edit_mode() {
    let mut bar =
        LayoutBar { duplicate: false, panels: false, reset: false, delete: false, naming: false };
    bar.set_editing(true, false);
    assert!(bar.duplicate && bar.panels && bar.reset && !bar.delete);
    bar.set_naming(true);
    bar.set_editing(false, true);
    assert!(!bar.naming && !bar.delete);
    assert_eq!(panel_toggled(true, true), None);
    assert_eq!(panel_toggled(true, false), Some(false));
    let names = vec!["a".to_string()];
    assert_eq!(picked(false, 0, &names), Some(0));
    assert_eq!(picked(false, 1, &names), None);
    assert_eq!(picked(true, 0, &names), None);
    assert_eq!(sides_text(true, false), "Docks along the top or bottom only.");
    assert_eq!(edit_button(false).0, "document-edit-symbolic");
}

use oxiedraw_ui::dock::drop::{Corner, DropTarget, FloatAnchor, FreeEdge};
use oxiedraw_ui::dock::edit::{
    clamp_axis, edge_cursor, edges_under, movable_at, resized, seam_cursor, seam_position, DeviceId, EdgeOffsets,
    EditMotion, EditPress, EditRelease, EditRequest, EditState, FloatGrip, FloatLimits,
    FloatResize, FloatSize, Hint, Movable, Moved, Seam, SeamDrag, ToolWindowId, Under,
};
use oxiedraw_ui::dock::manager::{changed, float_changed};
use oxiedraw_ui::dock::request::{perform, FloatPlace};
use oxiedraw_ui::ieee::Single;
use oxiedraw_ui::layout::{Axis, DockSide, LayoutNode, PanelId, SplitChild};

const LIMITS: FloatLimits = FloatLimits { min: 120, max: 2000 };

const CROP: ToolWindowId = ToolWindowId { index: 0 };

fn s(v: f32) -> Single {
    Single::from_bits(v.to_bits())
}

fn under(x: f32, y: f32) -> (FreeEdge, FreeEdge) {
    let (rx, ry, rw, rh) = (700.0_f32, 100.0_f32, 300.0_f32, 200.0_f32);
    let band = 7.0;
    let near = x >= rx - band && x <= rx + rw + band && y >= ry - band && y <= ry + rh + band;
    let offsets = EdgeOffsets {
        left: s(x - rx),
        right: s(x - (rx + rw)),
        top: s(y - ry),
        bottom: s(y - (ry + rh)),
    };
    edges_under(near, offsets, FloatAnchor::Corner(Corner::TopRight).free_edges())
}

#[test]
fn an_edge_is_grabbed_from_either_side_of_it() {
    let low = (FreeEdge::Low, FreeEdge::Neither);
    let none = (FreeEdge::Neither, FreeEdge::Neither);
    assert_eq!(under(701.0, 200.0), low, "just inside the left edge");
    assert_eq!(under(697.0, 200.0), low, "and just outside it");
    assert_eq!(under(850.0, 200.0), none, "the middle is for the grip");
    assert_eq!(under(999.0, 200.0), none, "the pinned edge does not give");
    assert_eq!(under(850.0, 299.0), none, "and a corner has no height to set");
}

fn along(edge: FreeEdge) -> f32 {
    match edge {
        FreeEdge::Low => -1.0,
        FreeEdge::High => 1.0,
        FreeEdge::Neither => 0.0,
    }
}

/// The size with the dragged edges at the pointer.
fn resize_to(
    resize: FloatResize,
    from_size: (f32, f32),
    from: (f32, f32),
    at: (f32, f32),
    room: Option<(i32, i32)>,
) -> FloatSize {
    let want = (
        along(resize.grip.across).mul_add(at.0 - from.0, from_size.0) as i32,
        along(resize.grip.down).mul_add(at.1 - from.1, from_size.1) as i32,
    );
    resized(resize, want, room, LIMITS)
}

#[test]
fn a_resize_runs_with_the_pointer_and_stops_at_the_canvas() {
    let resize = FloatResize {
        grip: FloatGrip { window: CROP, across: FreeEdge::Low, down: FreeEdge::Neither },
        stored: FloatSize { width: None, height: None },
    };
    let size = (300.0, 200.0);
    let from = (700.0, 200.0);
    let room = Some((900, 600));

    let wider = resize_to(resize, size, from, (600.0, 200.0), room);
    assert_eq!(wider.width, Some(400));
    assert_eq!(wider.height, None, "an axis nobody dragged is left alone");

    let narrower = resize_to(resize, size, from, (900.0, 200.0), room);
    assert_eq!(narrower.width, Some(LIMITS.min.max(100)));

    let capped = resize_to(resize, size, from, (-4000.0, 200.0), room);
    assert_eq!(capped.width, Some(900));
    let floored = resize_to(resize, size, from, (4000.0, 200.0), room);
    assert_eq!(floored.width, Some(LIMITS.min));
}

#[test]
fn resizing_keeps_the_size_stored_for_the_other_axis() {
    let resize = FloatResize {
        grip: FloatGrip { window: CROP, across: FreeEdge::Neither, down: FreeEdge::High },
        stored: FloatSize { width: Some(420), height: None },
    };
    let taller =
        resize_to(resize, (300.0, 200.0), (800.0, 300.0), (800.0, 350.0), Some((900, 600)));
    assert_eq!(taller.height, Some(250));
    assert_eq!(taller.width, Some(420), "the width it already had");
}

#[test]
fn a_size_without_room_stops_at_the_largest() {
    assert_eq!(clamp_axis(5000, None, LIMITS), 2000);
    assert_eq!(clamp_axis(500, None, LIMITS), 500);
    assert_eq!(clamp_axis(500, Some(50), LIMITS), 120);
}

#[test]
fn cursors_follow_the_edges() {
    assert_eq!(edge_cursor(FreeEdge::Neither, FreeEdge::Neither), None);
    assert_eq!(edge_cursor(FreeEdge::Low, FreeEdge::Neither), Some("ew-resize"));
    assert_eq!(edge_cursor(FreeEdge::Neither, FreeEdge::High), Some("ns-resize"));
    assert_eq!(edge_cursor(FreeEdge::Low, FreeEdge::Low), Some("nwse-resize"));
    assert_eq!(edge_cursor(FreeEdge::Low, FreeEdge::High), Some("nesw-resize"));
    assert_eq!(seam_cursor(Axis::Horizontal), "col-resize");
    assert_eq!(seam_cursor(Axis::Vertical), "row-resize");
}

#[test]
fn floating_windows_lie_over_the_panels() {
    let panels = vec![(PanelId::Layers, true)];
    assert_eq!(movable_at(&vec![(CROP, true)], &panels), Some(Movable::Float(CROP)));
    assert_eq!(movable_at(&vec![(CROP, false)], &panels), Some(Movable::Panel(PanelId::Layers)));
    assert_eq!(movable_at(&Vec::new(), &Vec::new()), None);
}

const SAME: Moved = Moved { band: false, edges: false };

#[test]
fn a_gesture_belongs_to_the_device_that_began_it() {
    let mouse = Some(DeviceId { index: 1 });
    let pen = Some(DeviceId { index: 2 });
    let mut state = EditState::new();
    assert!(state.held_by(mouse));
    state.holder = pen;
    assert!(!state.held_by(mouse));
    assert!(state.held_by(pen));
    let under = Under { seam: None, edges: None, movable: None };
    assert_eq!(state.motion(mouse, under, SAME), EditMotion::Ignore);
}

#[test]
fn hovering_redraws_only_on_a_change() {
    let mut state = EditState::new();
    let seam = Seam { split: 2, axis: Axis::Vertical };
    let under = Under { seam: Some(seam), edges: None, movable: None };
    assert_eq!(state.motion(None, under, SAME), EditMotion::Hover { redraw: true });
    assert_eq!(state.hovered_seam, Some(seam));
    assert_eq!(state.motion(None, under, SAME), EditMotion::Hover { redraw: false });
    let moved = Moved { band: true, edges: false };
    assert_eq!(state.motion(None, under, moved), EditMotion::Hover { redraw: true });
    state.invalidate();
    assert_eq!(state.hovered_seam, None);
    let window = ToolWindowId { index: 1 };
    let grip = FloatGrip { window, across: FreeEdge::High, down: FreeEdge::Neither };
    let edges = Under { seam: None, edges: Some(grip), movable: Some(Movable::Float(window)) };
    assert_eq!(state.motion(None, edges, SAME), EditMotion::Hover { redraw: true });
    assert_eq!(state.motion(None, edges, SAME), EditMotion::Hover { redraw: false });
    let elsewhere = Moved { band: false, edges: true };
    assert_eq!(state.motion(None, edges, elsewhere), EditMotion::Hover { redraw: true });
}

#[test]
fn a_dragged_seam_goes_with_the_pointer() {
    let drag = SeamDrag { seam: Seam { split: 0, axis: Axis::Horizontal }, origin: 300 };
    assert_eq!(seam_position(drag, 45), 345);
    assert_eq!(seam_position(drag, -320), -20);
}

#[test]
fn leaving_edit_mode_puts_back_what_was_lifted() {
    let mut state = EditState::new();
    state.dragging = Some(Movable::Panel(PanelId::Layers));
    state.lifted = true;
    assert!(state.deactivate());
    assert_eq!(state, EditState::new());
    assert!(!state.deactivate());
}

fn tree() -> LayoutNode {
    LayoutNode::Split {
        axis: Axis::Horizontal,
        fixed: SplitChild::Second,
        size: 300,
        first: Box::new(LayoutNode::Canvas),
        second: Box::new(LayoutNode::Panel(PanelId::Layers)),
    }
}

#[test]
fn requests_are_carried_out() {
    let place = FloatPlace {
        window: CROP,
        anchor: FloatAnchor::Corner(Corner::TopRight),
        size: FloatSize { width: None, height: None },
    };
    let mut root = tree();
    let mut floats = vec![place];

    let c = perform(&EditRequest::Remove(PanelId::Layers), &mut root, &mut floats);
    assert_eq!(c, changed(true));
    assert!(root.same(&LayoutNode::Canvas));

    let mut root = tree();
    let target = DropTarget::Edge(DockSide::Left);
    let c = perform(
        &EditRequest::Move { panel: PanelId::Layers, target },
        &mut root,
        &mut floats,
    );
    assert_eq!(c, changed(true));
    assert_eq!(root.side_of(PanelId::Layers), Some(DockSide::Left));
    assert_eq!(floats, vec![place]);

    let anchor = FloatAnchor::Edge(DockSide::Bottom);
    let c = perform(&EditRequest::Anchor { window: CROP, anchor }, &mut root, &mut floats);
    assert_eq!(c, float_changed());
    assert_eq!(floats[0].anchor, anchor);

    let size = FloatSize { width: Some(300), height: None };
    perform(&EditRequest::Resize { window: CROP, size }, &mut root, &mut floats);
    assert_eq!(floats[0].size, size);
    let other = ToolWindowId { index: 7 };
    perform(&EditRequest::Anchor { window: other, anchor }, &mut root, &mut floats);
    assert_eq!(floats.len(), 1);
    assert_eq!(root.side_of(PanelId::Layers), Some(DockSide::Left));
}

const NOTHING: Under = Under { seam: None, edges: None, movable: None };

const NATURAL: FloatSize = FloatSize { width: None, height: None };

#[test]
fn a_press_on_nothing_holds_the_device_and_no_more() {
    let mut state = EditState::new();
    let pen = Some(DeviceId { index: 9 });
    assert_eq!(state.press(pen, NOTHING, 0, NATURAL, false), EditPress::Nothing);
    assert_eq!(state.holder, pen);
    assert!(matches!(state.release(pen, NATURAL, None, None), EditRelease::Nothing));
    assert_eq!(state, EditState::new());
}

#[test]
fn a_release_by_another_device_is_ignored() {
    let mut state = EditState::new();
    state.holder = Some(DeviceId { index: 3 });
    let other = Some(DeviceId { index: 4 });
    assert_eq!(state.press(other, NOTHING, 0, NATURAL, false), EditPress::Ignore);
    assert!(matches!(state.release(other, NATURAL, None, None), EditRelease::Ignore));
}

#[test]
fn a_seam_comes_before_everything_else() {
    let mut state = EditState::new();
    let seam = Seam { split: 1, axis: Axis::Horizontal };
    let grip = FloatGrip { window: CROP, across: FreeEdge::Low, down: FreeEdge::Neither };
    let under = Under {
        seam: Some(seam),
        edges: Some(grip),
        movable: Some(Movable::Panel(PanelId::Layers)),
    };
    assert_eq!(state.press(None, under, 250, NATURAL, true), EditPress::Seam(seam));
    assert_eq!(state.seam_drag, Some(SeamDrag { seam, origin: 250 }));
    assert_eq!(
        state.motion(None, NOTHING, SAME),
        EditMotion::DragSeam(SeamDrag { seam, origin: 250 })
    );
    assert!(matches!(state.release(None, NATURAL, None, None), EditRelease::SeamDropped));
    assert_eq!(state.seam_drag, None);
}

#[test]
fn a_resize_is_asked_for_on_release() {
    let mut state = EditState::new();
    let grip = FloatGrip { window: CROP, across: FreeEdge::Low, down: FreeEdge::Neither };
    let under = Under { seam: None, edges: Some(grip), movable: None };
    let resize = FloatResize { grip, stored: NATURAL };
    assert_eq!(state.press(None, under, 0, NATURAL, false), EditPress::Resize(resize));
    assert_eq!(state.motion(None, NOTHING, SAME), EditMotion::ResizeFloat(resize));
    let size = FloatSize { width: Some(333), height: None };
    match state.release(None, size, None, None) {
        EditRelease::Ask(EditRequest::Resize { window, size: asked }) => {
            assert_eq!(window, CROP);
            assert_eq!(asked, size);
        }
        _ => panic!("a resize"),
    }
}

#[test]
fn a_carried_panel_lands_or_goes_back() {
    let movable = Movable::Panel(PanelId::Layers);
    let under = Under { seam: None, edges: None, movable: Some(movable) };
    let mut state = EditState::new();
    assert_eq!(state.press(None, under, 0, NATURAL, false), EditPress::Nothing);
    assert_eq!(state.press(None, under, 0, NATURAL, true), EditPress::Lift(movable));
    state.lift();
    assert_eq!(state.motion(None, NOTHING, SAME), EditMotion::Carry(movable));
    let hint = Hint::Panel(DropTarget::Edge(DockSide::Left));
    match state.release(None, NATURAL, Some(hint), None) {
        EditRelease::Ask(EditRequest::Move { panel, target }) => {
            assert_eq!(panel, PanelId::Layers);
            assert!(matches!(target, DropTarget::Edge(DockSide::Left)));
        }
        _ => panic!("a move"),
    }
    assert_eq!(state, EditState::new());

    assert_eq!(state.press(None, under, 0, NATURAL, true), EditPress::Lift(movable));
    state.lift();
    assert!(matches!(
        state.release(None, NATURAL, Some(Hint::Panel(DropTarget::Keep)), None),
        EditRelease::PutBack
    ));
    assert_eq!(state, EditState::new());
}

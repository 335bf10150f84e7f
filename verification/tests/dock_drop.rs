use oxiedraw_ui::dock::drop::{
    anchor_at, anchor_fit, hint_at, leaf_under, AnchorFit, Corner, DropHint, DropTarget,
    FloatAnchor, HintPlace, PartUnder, SideDistances,
};
use oxiedraw_ui::ieee::Single;
use oxiedraw_ui::layout::{Axis, DockSide, Layout, LayoutNode, PanelId, SplitChild};

const SIZE: (f32, f32) = (1000.0, 800.0);

#[derive(Clone, Copy, Debug, PartialEq)]
struct Rect {
    x: f32,
    y: f32,
    w: f32,
    h: f32,
}

fn rect(x: f32, y: f32, w: f32, h: f32) -> Rect {
    Rect { x, y, w, h }
}

fn s(v: f32) -> Single {
    Single::from_bits(v.to_bits())
}

fn split(axis: Axis, fixed: SplitChild, size: i32, a: LayoutNode, b: LayoutNode) -> LayoutNode {
    LayoutNode::Split { axis, fixed, size, first: Box::new(a), second: Box::new(b) }
}

fn default_layout() -> Layout {
    let sidebar = split(
        Axis::Vertical,
        SplitChild::First,
        330,
        LayoutNode::Panel(PanelId::ColorPicker),
        LayoutNode::Panel(PanelId::Layers),
    );
    let middle = split(
        Axis::Vertical,
        SplitChild::Second,
        24,
        LayoutNode::Canvas,
        LayoutNode::Panel(PanelId::CanvasInfo),
    );
    let right = split(Axis::Horizontal, SplitChild::Second, 300, middle, sidebar);
    let body = split(
        Axis::Horizontal,
        SplitChild::First,
        40,
        LayoutNode::Panel(PanelId::ToolBar),
        right,
    );
    let root = split(
        Axis::Vertical,
        SplitChild::First,
        40,
        LayoutNode::Panel(PanelId::ToolOptions),
        body,
    );
    Layout { name: "Default".to_string(), root }
}

fn leaves() -> Vec<(LayoutNode, Rect)> {
    vec![
        (LayoutNode::Canvas, rect(40.0, 40.0, 660.0, 736.0)),
        (LayoutNode::Panel(PanelId::Layers), rect(700.0, 370.0, 300.0, 430.0)),
        (LayoutNode::Panel(PanelId::ToolBar), rect(0.0, 40.0, 40.0, 760.0)),
    ]
}

fn strip(r: Rect, side: DockSide, thickness: f32) -> Rect {
    let span = if side.is_column() { r.w } else { r.h };
    let t = thickness.min(span * 0.5);
    match side {
        DockSide::Left => rect(r.x, r.y, t, r.h),
        DockSide::Right => rect(r.x + r.w - t, r.y, t, r.h),
        DockSide::Top => rect(r.x, r.y, r.w, t),
        DockSide::Bottom => rect(r.x, r.y + r.h - t, r.w, t),
    }
}

/// The hint at a point, with the place of its preview worked out.
fn hint(
    point: (f32, f32),
    leaves: &Vec<(LayoutNode, Rect)>,
    layout: &Layout,
    panel: PanelId,
) -> Option<(DropHint, Rect)> {
    let (x, y) = point;
    let edges = SideDistances {
        left: s(x),
        right: s(SIZE.0 - x),
        top: s(y),
        bottom: s(SIZE.1 - y),
    };
    let holds: Vec<bool> = leaves
        .iter()
        .map(|(_, r)| x >= r.x && x <= r.x + r.w && y >= r.y && y <= r.y + r.h)
        .collect();
    let under = leaf_under(&holds)
        .map(|i| &leaves[i])
        .map(|(leaf, r)| {
            let left = (x - r.x) / r.w;
            let top = (y - r.y) / r.h;
            PartUnder {
                leaf: leaf.copy(),
                fractions: SideDistances {
                    left: s(left),
                    right: s(1.0 - left),
                    top: s(top),
                    bottom: s(1.0 - top),
                },
            }
        });
    let nodes: Vec<LayoutNode> = leaves.iter().map(|(leaf, _)| leaf.copy()).collect();
    let found = hint_at(edges, under, &nodes, layout, panel)?;
    let thickness = panel.spec().default_size as f32;
    let place = match found.place {
        HintPlace::Window(side) => strip(rect(0.0, 0.0, SIZE.0, SIZE.1), side, thickness),
        HintPlace::Strip(i, side) => strip(leaves[i].1, side, thickness),
        HintPlace::Leaf(i) => leaves[i].1,
    };
    Some((found, place))
}

fn is_split(target: &DropTarget, leaf: &LayoutNode, side: DockSide) -> bool {
    match target {
        DropTarget::Split { leaf: l, side: s } => l.same(leaf) && *s == side,
        _ => false,
    }
}

#[test]
fn the_window_edge_wins_over_whatever_is_under_it() {
    let layout = default_layout();
    let (hint, place) = hint((6.0, 400.0), &leaves(), &layout, PanelId::Layers)
        .expect("left edge accepts the layers panel");
    assert!(matches!(hint.target, DropTarget::Edge(DockSide::Left)));
    assert_eq!(place.x, 0.0);
    assert_eq!(place.h, SIZE.1, "an edge dock spans the window");
}

#[test]
fn dropping_inside_a_panel_splits_it_towards_the_nearest_edge() {
    let layout = default_layout();
    let (hint, place) = hint((850.0, 400.0), &leaves(), &layout, PanelId::ColorPicker)
        .expect("the layers panel can be split");
    assert!(is_split(&hint.target, &LayoutNode::Panel(PanelId::Layers), DockSide::Top));
    assert_eq!(place.y, 370.0);
    assert_eq!(place.h, 215.0);
}

#[test]
fn a_split_preview_is_the_size_the_panel_will_be() {
    let layout = default_layout();
    let (hint, place) = hint((200.0, 400.0), &leaves(), &layout, PanelId::ToolBar)
        .expect("the canvas can be split");
    assert!(is_split(&hint.target, &LayoutNode::Canvas, DockSide::Left));
    assert_eq!(
        place.w,
        PanelId::ToolBar.spec().default_size as f32,
        "a tool bar's width, not half of what it was dropped into"
    );
    assert_eq!(place.h, 736.0, "the full height of the canvas");
}

#[test]
fn a_bar_cannot_be_dropped_down_the_side_of_the_window() {
    let layout = default_layout();
    assert!(
        hint((6.0, 400.0), &leaves(), &layout, PanelId::ToolOptions).is_none(),
        "the tool properties bar is top/bottom only"
    );
    assert!(
        hint((500.0, 6.0), &leaves(), &layout, PanelId::ToolOptions).is_some(),
        "but it takes the top edge"
    );
}

#[test]
fn a_split_is_judged_by_where_the_panel_ends_up() {
    let layout = default_layout();
    assert!(
        hint((850.0, 400.0), &leaves(), &layout, PanelId::ToolOptions).is_none(),
        "splitting the sidebar would leave the bar docked right"
    );
}

#[test]
fn a_panel_dropped_on_itself_stays_where_it_is() {
    let layout = default_layout();
    let leaves = leaves();
    let (hint, place) = hint((850.0, 400.0), &leaves, &layout, PanelId::Layers)
        .expect("its own place is somewhere it can be dropped");
    assert!(matches!(hint.target, DropTarget::Keep));
    assert_eq!(place, leaves[1].1, "exactly the space it already has");

    let mut root = layout.root.copy();
    let before = root.copy();
    hint.target.apply(&mut root, PanelId::Layers);
    assert!(root.same(&before), "and nothing moves");
}

#[test]
fn an_unsplittable_panel_can_still_be_docked_against_an_edge() {
    let layout = default_layout();
    let (hint, _) = hint((500.0, 794.0), &leaves(), &layout, PanelId::CanvasInfo)
        .expect("the info strip takes the bottom edge");
    assert!(matches!(hint.target, DropTarget::Edge(DockSide::Bottom)));
}

fn anchor(point: (f32, f32), canvas: Rect) -> FloatAnchor {
    if canvas.w <= 0.0 || canvas.h <= 0.0 {
        return anchor_at(None);
    }
    let across = ((point.0 - canvas.x) / canvas.w).clamp(0.0, 1.0);
    let down = ((point.1 - canvas.y) / canvas.h).clamp(0.0, 1.0);
    anchor_at(Some(SideDistances {
        left: s(across),
        right: s(1.0 - across),
        top: s(down),
        bottom: s(1.0 - down),
    }))
}

#[test]
fn a_floating_window_takes_the_corner_or_the_edge_it_is_dropped_on() {
    let canvas = rect(0.0, 0.0, 900.0, 600.0);
    assert_eq!(anchor((880.0, 20.0), canvas), FloatAnchor::Corner(Corner::TopRight));
    assert_eq!(anchor((20.0, 580.0), canvas), FloatAnchor::Corner(Corner::BottomLeft));
    assert_eq!(
        anchor((450.0, 580.0), canvas),
        FloatAnchor::Edge(DockSide::Bottom),
        "the middle of an edge stretches the window along it"
    );
    assert_eq!(anchor((20.0, 300.0), canvas), FloatAnchor::Edge(DockSide::Left));
    assert_eq!(
        anchor((450.0, 320.0), canvas),
        FloatAnchor::Edge(DockSide::Bottom),
        "the dead centre falls to the nearest edge"
    );
}

fn anchor_preview(canvas: Rect, size: (f32, f32), anchor: FloatAnchor, margin: f32) -> Rect {
    let inner = rect(
        canvas.x + margin,
        canvas.y + margin,
        (canvas.w - margin * 2.0).max(1.0),
        (canvas.h - margin * 2.0).max(1.0),
    );
    let along = |fit: AnchorFit, start: f32, length: f32, size: f32| {
        let size = size.min(length).max(1.0);
        match fit {
            AnchorFit::Near => (start, size),
            AnchorFit::Far => (start + length - size, size),
            AnchorFit::Whole => (start, length),
        }
    };
    let (across, down) = anchor_fit(anchor);
    let (x, w) = along(across, inner.x, inner.w, size.0);
    let (y, h) = along(down, inner.y, inner.h, size.1);
    rect(x, y, w, h)
}

#[test]
fn a_stretched_window_runs_the_length_of_its_edge() {
    let canvas = rect(10.0, 20.0, 900.0, 600.0);
    let corner =
        anchor_preview(canvas, (300.0, 200.0), FloatAnchor::Corner(Corner::TopRight), 12.0);
    assert_eq!(corner.w, 300.0);
    assert_eq!(corner.x, 10.0 + 900.0 - 12.0 - 300.0);
    assert_eq!(corner.y, 32.0);

    let edge = anchor_preview(canvas, (300.0, 200.0), FloatAnchor::Edge(DockSide::Bottom), 12.0);
    assert_eq!(edge.w, 900.0 - 24.0, "full width, inside the margin");
    assert_eq!(edge.h, 200.0);
    assert_eq!(edge.y, 20.0 + 600.0 - 12.0 - 200.0);
}

#[test]
fn dropping_on_the_canvas_docks_beside_it() {
    let layout = default_layout();
    let (hint, _) = hint((80.0, 400.0), &leaves(), &layout, PanelId::Layers)
        .expect("the canvas can be split");
    assert!(is_split(&hint.target, &LayoutNode::Canvas, DockSide::Left));
}

#[test]
fn a_canvas_without_area_pins_to_the_top_right() {
    assert_eq!(anchor((5.0, 5.0), rect(0.0, 0.0, 0.0, 10.0)), FloatAnchor::Corner(Corner::TopRight));
}

#[test]
fn a_point_over_nothing_has_no_hint() {
    let layout = default_layout();
    assert!(hint((500.0, 400.0), &Vec::new(), &layout, PanelId::Layers).is_none());
}

#[test]
fn an_unsplittable_panel_shares_its_place_with_nothing() {
    let layout = default_layout();
    let target = DropTarget::Split { leaf: LayoutNode::Canvas, side: DockSide::Top };
    assert!(!target.allowed(&layout, PanelId::CanvasInfo));
    assert!(target.allowed(&layout, PanelId::ToolOptions));
    let onto_info = DropTarget::Split {
        leaf: LayoutNode::Panel(PanelId::CanvasInfo),
        side: DockSide::Top,
    };
    assert!(!onto_info.allowed(&layout, PanelId::Layers));
    let onto_itself = DropTarget::Split {
        leaf: LayoutNode::Panel(PanelId::Layers),
        side: DockSide::Top,
    };
    assert!(!onto_itself.allowed(&layout, PanelId::Layers));
}

#[test]
fn a_permitted_drop_keeps_the_other_panels() {
    let layout = default_layout();
    for side in [DockSide::Left, DockSide::Right, DockSide::Top, DockSide::Bottom] {
        let target = DropTarget::Edge(side);
        assert!(target.allowed(&layout, PanelId::Layers));
        let mut root = layout.root.copy();
        target.apply(&mut root, PanelId::Layers);
        assert_eq!(root.side_of(PanelId::Layers), Some(side));
        assert!(root.has_canvas());
        for panel in [
            PanelId::ToolBar,
            PanelId::ToolOptions,
            PanelId::ColorPicker,
            PanelId::Layers,
            PanelId::CanvasInfo,
        ] {
            assert!(root.has_panel(panel));
        }
    }
}

#[test]
fn the_first_leaf_that_holds_the_pointer_is_under_it() {
    assert_eq!(leaf_under(&vec![false, true, true]), Some(1));
    assert_eq!(leaf_under(&vec![false, false]), None);
    assert_eq!(leaf_under(&Vec::new()), None);
}

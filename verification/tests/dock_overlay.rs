use oxiedraw_ui::dock::carry::{Carried, Carrier, CarryBegin, Parent, Placement, Request};
use oxiedraw_ui::dock::drop::FreeEdge;
use oxiedraw_ui::dock::edit::{EditState, FloatGrip, Movable, Seam, SeamDrag, ToolWindowId};
use oxiedraw_ui::dock::overlay::{
    edge_lines, float_edges_at, handle_at, handles, Glide, OverlayStep, Scene,
};
use oxiedraw_ui::dock::sizing::build_splits;
use oxiedraw_ui::ieee::Single;
use oxiedraw_ui::layout::{Axis, LayoutNode, PanelId, SplitChild};

fn s(v: f32) -> Single {
    Single::from_bits(v.to_bits())
}

const ASKED: Request = Request { width: -1, height: 30 };
const SLOT_ASKED: Request = Request { width: 200, height: -1 };
const SLOT_SIZE: Request = Request { width: 220, height: 400 };

#[test]
fn a_panel_is_put_back_where_it_was() {
    let mut carrier = Carrier::new();
    let from = Placement { parent: Parent::Slot(4), request: ASKED };
    assert_eq!(
        carrier.begin(1, Some(from), SLOT_ASKED, SLOT_SIZE, s(220.0), s(400.0)),
        CarryBegin { put_back: None, hold_open: Some(SLOT_SIZE), taken: true }
    );
    assert!(carrier.follows());
    assert_eq!(
        carrier.end(),
        Some(Carried {
            widget: 1,
            from,
            slot: Some(SLOT_ASKED),
            width: s(220.0),
            height: s(400.0)
        })
    );
    assert_eq!(carrier.end(), None);
    assert!(!carrier.follows());
}

#[test]
fn a_second_carry_ends_the_first() {
    let mut carrier = Carrier::new();
    let window = Placement { parent: Parent::Overlay(9), request: ASKED };
    let first = carrier.begin(7, Some(window), SLOT_ASKED, SLOT_SIZE, s(0.0), s(50.0));
    assert_eq!(first, CarryBegin { put_back: None, hold_open: None, taken: true });
    assert!(!carrier.follows(), "it has no width to scale from");
    let odd = Placement { parent: Parent::Other(3), request: ASKED };
    let second = carrier.begin(8, Some(odd), SLOT_ASKED, SLOT_SIZE, s(10.0), s(10.0));
    assert_eq!(second.put_back.map(|c| c.widget), Some(7));
    assert!(!second.taken, "it could not be put back there");
    assert_eq!(carrier.carried, None);
    assert!(!carrier.begin(8, None, SLOT_ASKED, SLOT_SIZE, s(10.0), s(10.0)).taken);
}

const NOTHING: Scene = Scene {
    seam_band: false,
    hovered_place: false,
    removable: false,
    landing: false,
    preview: false,
};

#[test]
fn a_removable_panel_offers_its_deletion() {
    let mut e = EditState::new();
    assert_eq!(e.draw(NOTHING), Vec::new());
    e.hovered = Some(Movable::Panel(PanelId::Layers));
    let scene = Scene { hovered_place: true, removable: true, ..NOTHING };
    assert_eq!(
        e.draw(scene),
        vec![OverlayStep::Veil { lifted: false }, OverlayStep::Grip, OverlayStep::Delete]
    );
    assert_eq!(
        e.draw(Scene { removable: false, ..scene }),
        vec![OverlayStep::Veil { lifted: false }, OverlayStep::Grip]
    );
    e.hovered = Some(Movable::Float(ToolWindowId { index: 1 }));
    assert!(!e.draw(scene).contains(&OverlayStep::Delete));
    let grip = FloatGrip {
        window: ToolWindowId { index: 1 },
        across: FreeEdge::Low,
        down: FreeEdge::Neither,
    };
    e.float_edges = Some(grip);
    assert_eq!(e.draw(scene).last(), Some(&OverlayStep::Edges(grip)));
}

#[test]
fn a_carry_shows_where_it_would_land() {
    let mut e = EditState::new();
    e.hovered = Some(Movable::Panel(PanelId::Layers));
    e.dragging = e.hovered;
    let scene =
        Scene { seam_band: true, hovered_place: true, removable: true, preview: true, ..NOTHING };
    assert_eq!(
        e.draw(scene),
        vec![
            OverlayStep::SeamBand,
            OverlayStep::Veil { lifted: true },
            OverlayStep::Dim,
            OverlayStep::Landing { lands: false },
            OverlayStep::PointerGrip,
        ]
    );
    e.lift();
    assert_eq!(
        e.draw(Scene { landing: true, hovered_place: false, ..scene }),
        vec![
            OverlayStep::SeamBand,
            OverlayStep::Veil { lifted: true },
            OverlayStep::Landing { lands: true },
        ]
    );
}

#[test]
fn the_dragged_seam_is_drawn_before_the_hovered_one() {
    let seam = |split: usize| Seam { split, axis: Axis::Horizontal };
    let mut e = EditState::new();
    assert_eq!(e.shown_seam(), None);
    e.hovered_seam = Some(seam(1));
    assert_eq!(e.shown_seam(), Some(seam(1)));
    e.seam_drag = Some(SeamDrag { seam: seam(2), origin: 10 });
    assert_eq!(e.shown_seam(), Some(seam(2)));
}

#[test]
fn locked_panels_have_no_handle() {
    let root = LayoutNode::Split {
        axis: Axis::Vertical,
        fixed: SplitChild::First,
        size: 40,
        first: Box::new(LayoutNode::Panel(PanelId::ToolOptions)),
        second: Box::new(LayoutNode::Split {
            axis: Axis::Horizontal,
            fixed: SplitChild::Second,
            size: 300,
            first: Box::new(LayoutNode::Canvas),
            second: Box::new(LayoutNode::Panel(PanelId::Layers)),
        }),
    };
    let splits = build_splits(&root);
    let all = handles(&splits, &Vec::new());
    assert_eq!(
        all,
        vec![
            Seam { split: 0, axis: Axis::Horizontal },
            Seam { split: 1, axis: Axis::Vertical }
        ]
    );
    let free = handles(&splits, &vec![PanelId::ToolOptions]);
    assert_eq!(free, vec![Seam { split: 0, axis: Axis::Horizontal }]);
    assert_eq!(handle_at(&vec![(all[0], false), (all[1], true)]), Some(all[1]));
    assert_eq!(handle_at(&vec![(all[0], true), (all[1], true)]), Some(all[0]));
    assert_eq!(handle_at(&vec![(all[0], false)]), None);
}

#[test]
fn the_first_window_with_an_edge_under_the_pointer_is_grabbed() {
    let grip = |index: u32, across: FreeEdge, down: FreeEdge| FloatGrip {
        window: ToolWindowId { index },
        across,
        down,
    };
    let grips = vec![
        grip(0, FreeEdge::Neither, FreeEdge::Neither),
        grip(1, FreeEdge::Neither, FreeEdge::High),
        grip(2, FreeEdge::Low, FreeEdge::Neither),
    ];
    assert_eq!(float_edges_at(&grips), Some(grips[1]));
    assert_eq!(float_edges_at(&vec![grips[0]]), None);
    assert_eq!(
        edge_lines((FreeEdge::Low, FreeEdge::Neither), (FreeEdge::Neither, FreeEdge::Neither)),
        (Some(false), None)
    );
    assert_eq!(
        edge_lines((FreeEdge::Low, FreeEdge::High), (FreeEdge::Low, FreeEdge::Neither)),
        (Some(true), Some(false))
    );
}

#[test]
fn a_glide_runs_until_everything_is_there() {
    let mut g = Glide::new();
    g.begin();
    assert!(g.preview);
    assert!(g.keep());
    assert!(!g.keep(), "one callback at a time");
    assert!(g.tick(false, None));
    assert!(g.tick(true, Some(false)));
    assert!(!g.tick(true, Some(true)));
    assert!(!g.ticking);
    assert!(g.keep());
    assert!(g.stop());
    assert_eq!(g, Glide::new());
    assert!(!g.stop());
}

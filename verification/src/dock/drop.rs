//! Where a dragged panel or window lands.

use vstd::prelude::*;

use crate::ieee::Single;
use crate::layout::{DockSide, Layout, LayoutNode, Leaf, PanelId};

verus! {

/// How near the window's edge a panel is docked to it, twenty-eight pixels.
pub const EDGE_ZONE: u32 = 0x41e0_0000;

/// One third, rounded to a single.
pub const ONE_THIRD: u32 = 0x3eaa_aaab;

/// Two thirds, rounded to a single.
pub const TWO_THIRDS: u32 = 0x3f2a_aaab;

/// Where a panel lands: at an edge of the window, beside a part of the layout, or
/// where it is.
#[derive(Debug)]
pub enum DropTarget {
    Edge(DockSide),
    Split { leaf: LayoutNode, side: DockSide },
    Keep,
}

impl DropTarget {
    /// The layout once a panel has landed.
    pub open spec fn applied(self, root: LayoutNode, panel: PanelId) -> LayoutNode {
        match self {
            DropTarget::Edge(side) => root.docked(panel, side),
            DropTarget::Split { leaf, side } => root.split(leaf, panel, side),
            DropTarget::Keep => root,
        }
    }

    /// Whether the panel may share a place with the part it lands beside: not
    /// with itself, and only where both put up with it.
    pub open spec fn shares(self, panel: PanelId) -> bool {
        self matches DropTarget::Split { leaf, .. } ==> {
            &&& leaf != LayoutNode::Panel(panel)
            &&& panel.about().splittable
            &&& (leaf matches LayoutNode::Panel(id) ==> id.about().splittable)
        }
    }

    /// Whether a panel may land here: the side that it ends up on is what counts.
    pub open spec fn permits(self, root: LayoutNode, panel: PanelId) -> bool {
        self is Keep || (self.shares(panel) && (self.applied(root, panel).side(
            panel,
        ) matches Some(side) && panel.about().takes(side)))
    }

    /// Land a panel.
    pub fn apply(&self, root: &mut LayoutNode, panel: PanelId)
        ensures
            *final(root) == self.applied(*old(root), panel),
    {
        match self {
            DropTarget::Edge(side) => root.dock_panel(panel, *side),
            DropTarget::Split { leaf, side } => {
                root.split_leaf(leaf, panel, *side);
            },
            DropTarget::Keep => {},
        }
    }

    /// Whether a panel may land here. The move is played out on a copy, and the
    /// side that the panel ends up on is held against what it takes.
    pub fn allowed(&self, layout: &Layout, panel: PanelId) -> (r: bool)
        ensures
            r == self.permits(layout.root, panel),
    {
        match self {
            DropTarget::Keep => {
                return true;
            },
            DropTarget::Split { leaf, .. } => {
                if leaf.same(&LayoutNode::Panel(panel)) {
                    return false;
                }
                let target_splittable = match leaf {
                    LayoutNode::Panel(id) => id.spec().splittable,
                    _ => true,
                };
                if !panel.spec().splittable || !target_splittable {
                    return false;
                }
            },
            DropTarget::Edge(_) => {},
        }
        let mut probe = layout.root.copy();
        self.apply(&mut probe, panel);
        match probe.side_of(panel) {
            Some(side) => panel.spec().allows(side),
            None => false,
        }
    }
}

/// Leaving a panel where it is changes nothing.
pub proof fn law_keep_changes_nothing(root: LayoutNode, panel: PanelId)
    ensures
        DropTarget::Keep.applied(root, panel) == root,
        DropTarget::Keep.permits(root, panel),
{
}

/// The leaf under the pointer, given for each leaf whether it holds the pointer: the
/// first one that does.
pub fn leaf_under(holds: &Vec<bool>) -> (r: Option<usize>)
    ensures
        match r {
            Some(i) => i < holds@.len() && holds@[i as int] && forall|k: int|
                0 <= k < i ==> !#[trigger] holds@[k],
            None => forall|k: int| 0 <= k < holds@.len() ==> !#[trigger] holds@[k],
        },
{
    let mut i: usize = 0;
    while i < holds.len()
        invariant
            i <= holds@.len(),
            forall|k: int| 0 <= k < i ==> !#[trigger] holds@[k],
        decreases holds@.len() - i,
    {
        if holds[i] {
            return Some(i);
        }
        i = i + 1;
    }
    None
}

/// A panel that may land somewhere else ends up on a side that it takes, and the
/// other leaves keep their order.
pub proof fn law_permitted_drop_respects_the_panel(
    target: DropTarget,
    root: LayoutNode,
    panel: PanelId,
)
    requires
        target.permits(root, panel),
        !(target is Keep),
    ensures
        target.applied(root, panel).side(panel) matches Some(side) && panel.about().takes(side),
        crate::layout::others(target.applied(root, panel).leaves(), panel)
            == crate::layout::others(root.leaves(), panel),
{
    match target {
        DropTarget::Edge(side) => {
            crate::layout::law_moving_keeps_the_other_leaves(
                root,
                LayoutNode::Canvas,
                panel,
                side,
            );
        },
        DropTarget::Split { leaf, side } => {
            crate::layout::law_moving_keeps_the_other_leaves(root, leaf, panel, side);
        },
        DropTarget::Keep => {},
    }
}

/// An edge takes exactly the panels that take its side, even those that share
/// their place with nothing.
pub proof fn law_edge_takes_what_takes_the_side(root: LayoutNode, panel: PanelId, side: DockSide)
    requires
        root.has(Leaf::Canvas),
    ensures
        DropTarget::Edge(side).permits(root, panel) == panel.about().takes(side),
{
    crate::layout::law_docked_panel_stands_on_its_side(root, panel, side);
}

/// The distances of a point from the four sides of a part.
#[derive(Clone, Copy, Debug, PartialEq, Eq, Structural)]
pub struct SideDistances {
    pub left: Single,
    pub right: Single,
    pub top: Single,
    pub bottom: Single,
}

impl SideDistances {
    /// The distance from a side.
    pub open spec fn of(self, side: DockSide) -> Single {
        match side {
            DockSide::Left => self.left,
            DockSide::Right => self.right,
            DockSide::Top => self.top,
            DockSide::Bottom => self.bottom,
        }
    }
}

/// The sides in the order in which they are tried.
pub open spec fn rank(side: DockSide) -> int {
    match side {
        DockSide::Left => 0,
        DockSide::Right => 1,
        DockSide::Top => 2,
        DockSide::Bottom => 3,
    }
}

/// Whether a side is at least as near as another: by distance, and by order where
/// the distances are the same.
pub open spec fn no_farther(d: SideDistances, a: DockSide, b: DockSide) -> bool {
    d.of(a).total() < d.of(b).total() || (d.of(a).total() == d.of(b).total() && rank(a) <= rank(b))
}

/// The nearest side.
pub fn nearest_side(d: SideDistances) -> (s: DockSide)
    ensures
        forall|other: DockSide| #![trigger no_farther(d, s, other)] no_farther(d, s, other),
{
    let mut best = DockSide::Left;
    let mut at = d.left;
    if d.right.total_less(at) {
        best = DockSide::Right;
        at = d.right;
    }
    if d.top.total_less(at) {
        best = DockSide::Top;
        at = d.top;
    }
    if d.bottom.total_less(at) {
        best = DockSide::Bottom;
    }
    best
}

/// Whether a distance is inside the edge zone.
pub open spec fn in_zone(d: Single) -> bool {
    (Single { bits: 0 }).le_spec(d) && d.lt_spec(Single { bits: EDGE_ZONE })
}

/// Whether a distance is inside the edge zone.
fn is_in_zone(d: Single) -> (r: bool)
    ensures
        r == in_zone(d),
{
    (Single { bits: 0 }).at_most(d) && d.less(Single { bits: EDGE_ZONE })
}

/// The edge of the window that a point is at: the nearest of those whose zone it
/// is in.
pub fn edge_at(d: SideDistances) -> (r: Option<DockSide>)
    ensures
        match r {
            Some(s) => in_zone(d.of(s)) && forall|other: DockSide|
                #![trigger d.of(other)]
                in_zone(d.of(other)) ==> no_farther(d, s, other),
            None => forall|other: DockSide| #![trigger d.of(other)] !in_zone(d.of(other)),
        },
{
    let mut best: Option<DockSide> = None;
    let mut at = d.left;
    if is_in_zone(d.left) {
        best = Some(DockSide::Left);
    }
    if is_in_zone(d.right) && (best.is_none() || d.right.total_less(at)) {
        best = Some(DockSide::Right);
        at = d.right;
    }
    if is_in_zone(d.top) && (best.is_none() || d.top.total_less(at)) {
        best = Some(DockSide::Top);
        at = d.top;
    }
    if is_in_zone(d.bottom) && (best.is_none() || d.bottom.total_less(at)) {
        best = Some(DockSide::Bottom);
    }
    best
}

/// The part of the layout under a point, with the point's distances from its
/// sides in fractions of it.
pub struct PartUnder {
    pub leaf: LayoutNode,
    pub fractions: SideDistances,
}

/// Where a panel dropped at a point lands before it is asked whether it may: the
/// window's edge wins over the part under the point, and a panel dropped on
/// itself stays.
pub open spec fn is_target(
    edges: SideDistances,
    under: Option<PartUnder>,
    panel: PanelId,
    t: DropTarget,
) -> bool {
    ||| t matches DropTarget::Edge(s) && in_zone(edges.of(s)) && forall|other: DockSide|
        in_zone(#[trigger] edges.of(other)) ==> no_farther(edges, s, other)
    ||| {
        &&& forall|other: DockSide| !in_zone(#[trigger] edges.of(other))
        &&& under matches Some(part)
        &&& if part.leaf == LayoutNode::Panel(panel) {
            t is Keep
        } else {
            t matches DropTarget::Split { leaf, side } && leaf == part.leaf && forall|
                other: DockSide,
            |
                #[trigger] no_farther(part.fractions, side, other)
        }
    }
}

/// Where a panel dropped at a point lands, if it may land there.
pub fn target_at(
    edges: SideDistances,
    under: Option<PartUnder>,
    layout: &Layout,
    panel: PanelId,
) -> (r: Option<DropTarget>)
    ensures
        match r {
            Some(t) => is_target(edges, under, panel, t) && t.permits(layout.root, panel),
            None => forall|t: DropTarget|
                #![trigger is_target(edges, under, panel, t)]
                is_target(edges, under, panel, t) ==> !t.permits(layout.root, panel),
        },
{
    let target = match edge_at(edges) {
        Some(side) => DropTarget::Edge(side),
        None => match &under {
            None => {
                return None;
            },
            Some(part) => if part.leaf.same(&LayoutNode::Panel(panel)) {
                DropTarget::Keep
            } else {
                DropTarget::Split { leaf: part.leaf.copy(), side: nearest_side(part.fractions) }
            },
        },
    };
    assert(is_target(edges, under, panel, target));
    proof {
        lemma_one_target(edges, under, panel, target);
    }
    if target.allowed(layout, panel) {
        Some(target)
    } else {
        None
    }
}

/// There is only one place where a panel lands.
proof fn lemma_one_target(
    edges: SideDistances,
    under: Option<PartUnder>,
    panel: PanelId,
    t: DropTarget,
)
    requires
        is_target(edges, under, panel, t),
    ensures
        forall|u: DropTarget| #[trigger] is_target(edges, under, panel, u) ==> u == t,
{
    assert forall|u: DropTarget| #[trigger] is_target(edges, under, panel, u) implies u == t by {
        match (t, u) {
            (DropTarget::Edge(a), DropTarget::Edge(b)) => {
                assert(in_zone(edges.of(a)) && in_zone(edges.of(b)));
                assert(no_farther(edges, a, b) && no_farther(edges, b, a));
            },
            (DropTarget::Split { side: a, .. }, DropTarget::Split { side: b, .. }) => {
                let part = under->Some_0;
                assert(no_farther(part.fractions, a, b) && no_farther(part.fractions, b, a));
            },
            (DropTarget::Edge(a), _) => {
                assert(in_zone(edges.of(a)));
            },
            (_, DropTarget::Edge(b)) => {
                assert(in_zone(edges.of(b)));
            },
            _ => {},
        }
    }
}

/// The first of the leaves that is this one.
pub open spec fn first_leaf(leaves: Seq<LayoutNode>, leaf: LayoutNode) -> Option<int>
    decreases leaves.len(),
{
    if leaves.len() == 0 {
        None
    } else {
        match first_leaf(leaves.drop_last(), leaf) {
            Some(i) => Some(i),
            None => if leaves.last() == leaf {
                Some(leaves.len() - 1)
            } else {
                None
            },
        }
    }
}

/// The place of the first of the leaves that is this one.
pub fn find_leaf(leaves: &Vec<LayoutNode>, leaf: &LayoutNode) -> (r: Option<usize>)
    ensures
        match r {
            Some(i) => first_leaf(leaves@, *leaf) == Some(i as int) && i < leaves@.len(),
            None => first_leaf(leaves@, *leaf) is None,
        },
{
    let mut i: usize = 0;
    let mut found: Option<usize> = None;
    assert(leaves@.take(0) =~= Seq::empty());
    while i < leaves.len()
        invariant
            i <= leaves.len(),
            match found {
                Some(k) => k < i && first_leaf(leaves@.take(i as int), *leaf) == Some(k as int),
                None => first_leaf(leaves@.take(i as int), *leaf) is None,
            },
        decreases leaves.len() - i,
    {
        assert(leaves@.take(i + 1).drop_last() =~= leaves@.take(i as int));
        if found.is_none() && leaves[i].same(leaf) {
            found = Some(i);
        }
        i = i + 1;
    }
    assert(leaves@.take(i as int) =~= leaves@);
    found
}

/// The place of a landing panel among the leaves: its own where it stays, that of
/// the part it splits, and none at an edge, where the whole window counts.
pub fn landing_leaf(target: &DropTarget, leaves: &Vec<LayoutNode>, panel: PanelId) -> (r: Option<
    usize,
>)
    ensures
        ({
            let place = match *target {
                DropTarget::Edge(_) => None,
                DropTarget::Split { leaf, .. } => first_leaf(leaves@, leaf),
                DropTarget::Keep => first_leaf(leaves@, LayoutNode::Panel(panel)),
            };
            match r {
                Some(i) => place == Some(i as int) && i < leaves@.len(),
                None => place is None,
            }
        }),
{
    match target {
        DropTarget::Edge(_) => None,
        DropTarget::Split { leaf, .. } => find_leaf(leaves, leaf),
        DropTarget::Keep => find_leaf(leaves, &LayoutNode::Panel(panel)),
    }
}

/// What the preview of a landing panel covers.
#[derive(Clone, Copy, Debug, PartialEq, Eq, Structural)]
pub enum HintPlace {
    /// A strip along this side of the window.
    Window(DockSide),
    /// A strip along this side of a leaf.
    Strip(usize, DockSide),
    /// The whole of a leaf.
    Leaf(usize),
}

/// Where a dragged panel lands, and what its preview covers.
pub struct DropHint {
    pub target: DropTarget,
    pub place: HintPlace,
}

/// Where a panel dropped at a point lands and what its preview covers. None where
/// it may not land, or where the part it would land at is not on the screen.
pub fn hint_at(
    edges: SideDistances,
    under: Option<PartUnder>,
    leaves: &Vec<LayoutNode>,
    layout: &Layout,
    panel: PanelId,
) -> (r: Option<DropHint>)
    ensures
        match r {
            Some(hint) => {
                &&& is_target(edges, under, panel, hint.target)
                &&& hint.target.permits(layout.root, panel)
                &&& match hint.target {
                    DropTarget::Edge(side) => hint.place == HintPlace::Window(side),
                    DropTarget::Split { leaf, side } => hint.place matches HintPlace::Strip(i, s)
                        && s == side && first_leaf(leaves@, leaf) == Some(i as int),
                    DropTarget::Keep => hint.place matches HintPlace::Leaf(i) && first_leaf(
                        leaves@,
                        LayoutNode::Panel(panel),
                    ) == Some(i as int),
                }
            },
            None => forall|t: DropTarget|
                #![trigger is_target(edges, under, panel, t)]
                is_target(edges, under, panel, t) ==> !t.permits(layout.root, panel) || match t {
                    DropTarget::Edge(_) => false,
                    DropTarget::Split { leaf, .. } => first_leaf(leaves@, leaf) is None,
                    DropTarget::Keep => first_leaf(leaves@, LayoutNode::Panel(panel)) is None,
                },
        },
{
    let ghost part = under;
    match target_at(edges, under, layout, panel) {
        None => None,
        Some(target) => {
            proof {
                lemma_one_target(edges, part, panel, target);
            }
            let leaf = landing_leaf(&target, leaves, panel);
            let place = match (&target, leaf) {
                (DropTarget::Edge(side), _) => HintPlace::Window(*side),
                (DropTarget::Split { side, .. }, Some(i)) => HintPlace::Strip(i, *side),
                (DropTarget::Keep, Some(i)) => HintPlace::Leaf(i),
                _ => {
                    return None;
                },
            };
            Some(DropHint { target, place })
        },
    }
}

/// A corner of the canvas.
#[derive(Clone, Copy, Debug, PartialEq, Eq, Structural)]
pub enum Corner {
    TopLeft,
    TopRight,
    BottomLeft,
    BottomRight,
}

/// What a floating window is pinned to.
#[derive(Clone, Copy, Debug, PartialEq, Eq, Structural)]
pub enum FloatAnchor {
    Corner(Corner),
    /// Along the whole of an edge.
    Edge(DockSide),
}

/// An edge of a window along one axis.
#[derive(Clone, Copy, Debug, PartialEq, Eq, Structural)]
pub enum FreeEdge {
    /// Neither gives.
    Neither,
    /// The left or the top one.
    Low,
    /// The right or the bottom one.
    High,
}

impl FloatAnchor {
    /// The edges of a pinned window that can be dragged, across and down: the one
    /// away from where it is pinned. A window in a corner is as tall as it is.
    pub open spec fn gives(self) -> (FreeEdge, FreeEdge) {
        match self {
            FloatAnchor::Corner(Corner::TopLeft) | FloatAnchor::Corner(Corner::BottomLeft) => (
                FreeEdge::High,
                FreeEdge::Neither,
            ),
            FloatAnchor::Corner(_) => (FreeEdge::Low, FreeEdge::Neither),
            FloatAnchor::Edge(DockSide::Left) => (FreeEdge::High, FreeEdge::Neither),
            FloatAnchor::Edge(DockSide::Right) => (FreeEdge::Low, FreeEdge::Neither),
            FloatAnchor::Edge(DockSide::Top) => (FreeEdge::Neither, FreeEdge::High),
            FloatAnchor::Edge(DockSide::Bottom) => (FreeEdge::Neither, FreeEdge::Low),
        }
    }

    /// The edges of a pinned window that can be dragged, across and down.
    pub fn free_edges(self) -> (r: (FreeEdge, FreeEdge))
        ensures
            r == self.gives(),
    {
        match self {
            FloatAnchor::Corner(Corner::TopLeft) | FloatAnchor::Corner(Corner::BottomLeft) => (
                FreeEdge::High,
                FreeEdge::Neither,
            ),
            FloatAnchor::Corner(_) => (FreeEdge::Low, FreeEdge::Neither),
            FloatAnchor::Edge(DockSide::Left) => (FreeEdge::High, FreeEdge::Neither),
            FloatAnchor::Edge(DockSide::Right) => (FreeEdge::Low, FreeEdge::Neither),
            FloatAnchor::Edge(DockSide::Top) => (FreeEdge::Neither, FreeEdge::High),
            FloatAnchor::Edge(DockSide::Bottom) => (FreeEdge::Neither, FreeEdge::Low),
        }
    }
}

/// Which third of the way a fraction is in. One that is no number is in the last.
pub open spec fn third_spec(value: Single) -> u8 {
    if value.lt_spec(Single { bits: ONE_THIRD }) {
        0
    } else if value.lt_spec(Single { bits: TWO_THIRDS }) {
        1
    } else {
        2
    }
}

/// Which third of the way a fraction is in.
pub fn third(value: Single) -> (t: u8)
    ensures
        t == third_spec(value),
        t <= 2,
{
    if value.less(Single { bits: ONE_THIRD }) {
        0
    } else if value.less(Single { bits: TWO_THIRDS }) {
        1
    } else {
        2
    }
}

/// What a window dropped on the canvas is pinned to, given how far across and
/// down it is dropped: the corner or the edge of that ninth, and in the middle
/// ninth the nearest edge. The top right corner where the canvas has no area.
pub fn anchor_at(fractions: Option<SideDistances>) -> (a: FloatAnchor)
    ensures
        match fractions {
            None => a == FloatAnchor::Corner(Corner::TopRight),
            Some(f) => match (third_spec(f.left), third_spec(f.top)) {
                (0, 0) => a == FloatAnchor::Corner(Corner::TopLeft),
                (2, 0) => a == FloatAnchor::Corner(Corner::TopRight),
                (0, 2) => a == FloatAnchor::Corner(Corner::BottomLeft),
                (2, 2) => a == FloatAnchor::Corner(Corner::BottomRight),
                (1, 0) => a == FloatAnchor::Edge(DockSide::Top),
                (1, 2) => a == FloatAnchor::Edge(DockSide::Bottom),
                (0, 1) => a == FloatAnchor::Edge(DockSide::Left),
                (2, 1) => a == FloatAnchor::Edge(DockSide::Right),
                _ => a matches FloatAnchor::Edge(side) && forall|other: DockSide|
                    #![trigger no_farther(f, side, other)]
                    no_farther(f, side, other),
            },
        },
{
    let f = match fractions {
        None => {
            return FloatAnchor::Corner(Corner::TopRight);
        },
        Some(f) => f,
    };
    let column: u8 = third(f.left);
    let row: u8 = third(f.top);
    if column == 0 {
        if row == 0 {
            FloatAnchor::Corner(Corner::TopLeft)
        } else if row == 1 {
            FloatAnchor::Edge(DockSide::Left)
        } else {
            FloatAnchor::Corner(Corner::BottomLeft)
        }
    } else if column == 1 {
        if row == 0 {
            FloatAnchor::Edge(DockSide::Top)
        } else if row == 1 {
            FloatAnchor::Edge(nearest_side(f))
        } else {
            FloatAnchor::Edge(DockSide::Bottom)
        }
    } else {
        if row == 0 {
            FloatAnchor::Corner(Corner::TopRight)
        } else if row == 1 {
            FloatAnchor::Edge(DockSide::Right)
        } else {
            FloatAnchor::Corner(Corner::BottomRight)
        }
    }
}

/// How a pinned window lies along one axis of the canvas.
#[derive(Clone, Copy, Debug, PartialEq, Eq, Structural)]
pub enum AnchorFit {
    /// At the near end, as long as it is.
    Near,
    /// At the far end, as long as it is.
    Far,
    /// From end to end.
    Whole,
}

/// How a pinned window lies across and down the canvas.
pub fn anchor_fit(anchor: FloatAnchor) -> (f: (AnchorFit, AnchorFit))
    ensures
        f == (match anchor {
            FloatAnchor::Corner(Corner::TopLeft) => (AnchorFit::Near, AnchorFit::Near),
            FloatAnchor::Corner(Corner::TopRight) => (AnchorFit::Far, AnchorFit::Near),
            FloatAnchor::Corner(Corner::BottomLeft) => (AnchorFit::Near, AnchorFit::Far),
            FloatAnchor::Corner(Corner::BottomRight) => (AnchorFit::Far, AnchorFit::Far),
            FloatAnchor::Edge(DockSide::Top) => (AnchorFit::Whole, AnchorFit::Near),
            FloatAnchor::Edge(DockSide::Bottom) => (AnchorFit::Whole, AnchorFit::Far),
            FloatAnchor::Edge(DockSide::Left) => (AnchorFit::Near, AnchorFit::Whole),
            FloatAnchor::Edge(DockSide::Right) => (AnchorFit::Far, AnchorFit::Whole),
        }),
{
    match anchor {
        FloatAnchor::Corner(Corner::TopLeft) => (AnchorFit::Near, AnchorFit::Near),
        FloatAnchor::Corner(Corner::TopRight) => (AnchorFit::Far, AnchorFit::Near),
        FloatAnchor::Corner(Corner::BottomLeft) => (AnchorFit::Near, AnchorFit::Far),
        FloatAnchor::Corner(Corner::BottomRight) => (AnchorFit::Far, AnchorFit::Far),
        FloatAnchor::Edge(DockSide::Top) => (AnchorFit::Whole, AnchorFit::Near),
        FloatAnchor::Edge(DockSide::Bottom) => (AnchorFit::Whole, AnchorFit::Far),
        FloatAnchor::Edge(DockSide::Left) => (AnchorFit::Near, AnchorFit::Whole),
        FloatAnchor::Edge(DockSide::Right) => (AnchorFit::Far, AnchorFit::Whole),
    }
}

/// A panel lands where its target says: at the edge, beside the part on the side, or
/// nowhere else than where it is.
pub proof fn law_a_panel_lands_where_its_target_says(
    target: DropTarget,
    root: &mut LayoutNode,
    panel: PanelId,
)
    requires
        call_ensures(DropTarget::apply, (&target, root, panel), ()),
    ensures
        target is Keep ==> *final(root) == *old(root),
        target matches DropTarget::Edge(side) ==> *final(root) == old(root).docked(panel, side),
        target matches DropTarget::Split { leaf, side } ==> *final(root) == old(root).split(
            leaf,
            panel,
            side,
        ),
{
}

/// A panel shares its place with nothing where it keeps to itself, nor with a panel
/// that does, nor with itself; with the canvas it may share where it puts up with it.
pub proof fn law_who_shares_a_place(panel: PanelId, other: PanelId, side: DockSide)
    ensures
        ({
            let beside = DropTarget::Split { leaf: LayoutNode::Panel(other), side };
            let canvas = DropTarget::Split { leaf: LayoutNode::Canvas, side };
            &&& beside.shares(panel) <==> panel != other && panel.about().splittable
                && other.about().splittable
            &&& canvas.shares(panel) <==> panel.about().splittable
            &&& DropTarget::Edge(side).shares(panel)
        }),
{
}

/// A panel may be dropped beside the canvas on a side exactly where it takes that side
/// and puts up with sharing.
pub proof fn law_dropping_beside_the_canvas(root: LayoutNode, panel: PanelId, side: DockSide)
    requires
        root.has(Leaf::Canvas),
    ensures
        (DropTarget::Split { leaf: LayoutNode::Canvas, side }).permits(root, panel)
            == (panel.about().splittable && panel.about().takes(side)),
{
    crate::layout::lemma_split_beside_canvas(root, panel, side);
}

/// Each distance is that of its own side.
pub proof fn law_distances_by_side(d: SideDistances)
    ensures
        d.of(DockSide::Left) == d.left,
        d.of(DockSide::Right) == d.right,
        d.of(DockSide::Top) == d.top,
        d.of(DockSide::Bottom) == d.bottom,
{
}

/// The nearest side has the shortest of the four distances, and of several that are as
/// short the first of left, right, top and bottom.
pub proof fn law_the_nearest_side_is_the_shortest_way(d: SideDistances, s: DockSide)
    requires
        forall|other: DockSide| #[trigger] no_farther(d, s, other),
    ensures
        d.of(s).total() <= d.left.total(),
        d.of(s).total() <= d.right.total(),
        d.of(s).total() <= d.top.total(),
        d.of(s).total() <= d.bottom.total(),
        s is Left <==> d.left.total() <= d.right.total() && d.left.total() <= d.top.total()
            && d.left.total() <= d.bottom.total(),
        s is Right ==> d.right.total() < d.left.total(),
        s is Top ==> d.top.total() < d.left.total() && d.top.total() < d.right.total(),
        s is Bottom ==> d.bottom.total() < d.left.total() && d.bottom.total() < d.right.total()
            && d.bottom.total() < d.top.total(),
{
    assert(no_farther(d, s, DockSide::Left));
    assert(no_farther(d, s, DockSide::Right));
    assert(no_farther(d, s, DockSide::Top));
    assert(no_farther(d, s, DockSide::Bottom));
}

/// A panel goes to an edge of the window only from inside, and from less than
/// twenty-eight pixels away. Near any edge it goes to one, and to the nearest.
pub proof fn law_a_point_is_at_the_nearest_edge(
    edges: SideDistances,
    under: Option<PartUnder>,
    panel: PanelId,
    t: DropTarget,
    o: DockSide,
)
    requires
        is_target(edges, under, panel, t),
    ensures
        t matches DropTarget::Edge(s) ==> (Single { bits: 0 }).le_spec(edges.of(s)) && edges.of(
            s,
        ).lt_spec(Single { bits: 0x41e0_0000 }),
        (Single { bits: 0 }).le_spec(edges.of(o)) && edges.of(o).lt_spec(
            Single { bits: 0x41e0_0000 },
        ) ==> t is Edge && edges.of(t->Edge_0).total() <= edges.of(o).total(),
{
    if in_zone(edges.of(o)) {
        assert(no_farther(edges, t->Edge_0, o));
    }
}

/// A panel dropped near an edge of the window goes to the edge, whatever is under it. A
/// panel dropped on itself stays. Anywhere else it goes beside the part under it, on
/// that part's nearest side. It goes nowhere where nothing is under it.
pub proof fn law_where_a_dropped_panel_goes(
    edges: SideDistances,
    under: Option<PartUnder>,
    panel: PanelId,
    t: DropTarget,
)
    requires
        is_target(edges, under, panel, t),
    ensures
        t is Edge <==> in_zone(edges.left) || in_zone(edges.right) || in_zone(edges.top) || in_zone(
            edges.bottom,
        ),
        !(t is Edge) ==> under is Some,
        t is Keep <==> !(t is Edge) && under->0.leaf == LayoutNode::Panel(panel),
        t matches DropTarget::Split { leaf, side } ==> {
            let f = under->0.fractions;
            &&& leaf == under->0.leaf
            &&& f.of(side).total() <= f.left.total() && f.of(side).total() <= f.right.total()
            &&& f.of(side).total() <= f.top.total() && f.of(side).total() <= f.bottom.total()
        },
{
    assert(edges.of(DockSide::Left) == edges.left && edges.of(DockSide::Right) == edges.right);
    assert(edges.of(DockSide::Top) == edges.top && edges.of(DockSide::Bottom) == edges.bottom);
    if let DropTarget::Split { leaf, side } = t {
        let f = under->0.fractions;
        assert(no_farther(f, side, DockSide::Left));
        assert(no_farther(f, side, DockSide::Right));
        assert(no_farther(f, side, DockSide::Top));
        assert(no_farther(f, side, DockSide::Bottom));
    }
    if let DropTarget::Edge(s) = t {
        assert(in_zone(edges.of(s)));
    }
}

/// The first leaf that is this one is one that is, with none before it.
pub proof fn law_the_first_leaf_is_the_first(leaves: Seq<LayoutNode>, leaf: LayoutNode)
    ensures
        match first_leaf(leaves, leaf) {
            Some(i) => {
                &&& 0 <= i < leaves.len()
                &&& leaves[i] == leaf
                &&& forall|j: int| 0 <= j < i ==> #[trigger] leaves[j] != leaf
            },
            None => forall|j: int| 0 <= j < leaves.len() ==> #[trigger] leaves[j] != leaf,
        },
    decreases leaves.len(),
{
    if leaves.len() > 0 {
        let rest = leaves.drop_last();
        law_the_first_leaf_is_the_first(rest, leaf);
        assert(forall|j: int| 0 <= j < rest.len() ==> #[trigger] leaves[j] == rest[j]);
    }
}

/// The edge of a pinned window that can be dragged is the one away from where it is
/// pinned, and it is across from the edge that is pinned.
pub proof fn law_a_pinned_window_gives_away_from_its_pin(a: FloatAnchor, r: (FreeEdge, FreeEdge))
    requires
        call_ensures(FloatAnchor::free_edges, (a,), r),
    ensures
        r.0 is High <==> a == FloatAnchor::Corner(Corner::TopLeft) || a == FloatAnchor::Corner(
            Corner::BottomLeft,
        ) || a == FloatAnchor::Edge(DockSide::Left),
        r.0 is Low <==> a == FloatAnchor::Corner(Corner::TopRight) || a == FloatAnchor::Corner(
            Corner::BottomRight,
        ) || a == FloatAnchor::Edge(DockSide::Right),
        r.1 is High <==> a == FloatAnchor::Edge(DockSide::Top),
        r.1 is Low <==> a == FloatAnchor::Edge(DockSide::Bottom),
        a is Corner ==> r.1 is Neither,
{
}

/// A pinned window lies at the end that it is pinned to, and from end to end along an
/// edge that it is pinned along; where an edge of it can be dragged, it lies at the
/// other end of that axis.
pub proof fn law_a_pinned_window_lies_at_its_pin(
    a: FloatAnchor,
    f: (AnchorFit, AnchorFit),
    r: (FreeEdge, FreeEdge),
)
    requires
        call_ensures(anchor_fit, (a,), f),
        call_ensures(FloatAnchor::free_edges, (a,), r),
    ensures
        r.0 is High ==> f.0 is Near,
        r.0 is Low ==> f.0 is Far,
        r.1 is High ==> f.1 is Near,
        r.1 is Low ==> f.1 is Far,
        f.0 is Whole <==> a == FloatAnchor::Edge(DockSide::Top) || a == FloatAnchor::Edge(
            DockSide::Bottom,
        ),
        f.1 is Whole <==> a == FloatAnchor::Edge(DockSide::Left) || a == FloatAnchor::Edge(
            DockSide::Right,
        ),
        a == FloatAnchor::Corner(Corner::TopLeft) || a == FloatAnchor::Corner(Corner::TopRight)
            ==> f.1 is Near,
        a == FloatAnchor::Corner(Corner::BottomLeft) || a == FloatAnchor::Corner(
            Corner::BottomRight,
        ) ==> f.1 is Far,
{
}

/// Thirds come in their order, and a fraction that is no number is in the last.
pub proof fn law_thirds_come_in_order(a: Single, b: Single)
    ensures
        third_spec(a) == 0 <==> a.lt_spec(Single { bits: 0x3eaa_aaab }),
        third_spec(a) == 2 <==> !a.lt_spec(Single { bits: 0x3f2a_aaab }),
        third_spec(a) <= 2,
        a.le_spec(b) ==> third_spec(a) <= third_spec(b),
        a.nan() ==> third_spec(a) == 2,
{
}

/// A window that is dropped on the canvas is pinned to the corner or the edge of the
/// ninth it is dropped in, and in the middle to the nearest edge.
pub proof fn law_a_dropped_window_is_pinned_where_it_is(f: SideDistances, a: FloatAnchor)
    requires
        call_ensures(anchor_at, (Some(f),), a),
    ensures
        ({
            let third = Single { bits: 0x3eaa_aaab };
            let thirds = Single { bits: 0x3f2a_aaab };
            let left = f.left.lt_spec(third);
            let right = !f.left.lt_spec(thirds);
            let top = f.top.lt_spec(third);
            let bottom = !f.top.lt_spec(thirds);
            &&& a == FloatAnchor::Corner(Corner::TopLeft) <==> left && top
            &&& a == FloatAnchor::Corner(Corner::TopRight) <==> right && top
            &&& a == FloatAnchor::Corner(Corner::BottomLeft) <==> left && bottom
            &&& a == FloatAnchor::Corner(Corner::BottomRight) <==> right && bottom
            &&& left && !top && !bottom ==> a == FloatAnchor::Edge(DockSide::Left)
            &&& right && !top && !bottom ==> a == FloatAnchor::Edge(DockSide::Right)
            &&& top && !left && !right ==> a == FloatAnchor::Edge(DockSide::Top)
            &&& bottom && !left && !right ==> a == FloatAnchor::Edge(DockSide::Bottom)
            &&& !left && !right && !top && !bottom ==> a is Edge
            &&& !left && !right && !top && !bottom && a is Edge ==> f.of(a->Edge_0).total()
                <= f.left.total() && f.of(a->Edge_0).total() <= f.right.total() && f.of(
                a->Edge_0,
            ).total() <= f.top.total() && f.of(a->Edge_0).total() <= f.bottom.total()
        }),
{
    if let FloatAnchor::Edge(side) = a {
        let l = no_farther(f, side, DockSide::Left);
        let r = no_farther(f, side, DockSide::Right);
        let t = no_farther(f, side, DockSide::Top);
        let b = no_farther(f, side, DockSide::Bottom);
    }
}

/// The preview covers where the panel would land: a strip of the window for an edge, a
/// strip of the part it goes beside on the side it goes to, and all of its own place
/// where it stays. It is shown only where the panel may land.
pub proof fn law_the_preview_covers_the_landing(
    edges: SideDistances,
    under: Option<PartUnder>,
    leaves: Vec<LayoutNode>,
    layout: Layout,
    panel: PanelId,
    r: Option<DropHint>,
)
    requires
        call_ensures(hint_at, (edges, under, &leaves, &layout, panel), r),
    ensures
        r matches Some(hint) ==> {
            &&& is_target(edges, under, panel, hint.target)
            &&& hint.target.permits(layout.root, panel)
            &&& hint.target is Edge <==> hint.place is Window
            &&& hint.target is Split <==> hint.place is Strip
            &&& hint.target is Keep <==> hint.place is Leaf
            &&& hint.target matches DropTarget::Edge(side) ==> hint.place == HintPlace::Window(side)
            &&& hint.target matches DropTarget::Split { leaf, side } ==> hint.place->Strip_1 == side
                && hint.place->Strip_0 < leaves@.len() && leaves@[hint.place->Strip_0 as int]
                == leaf
            &&& hint.target is Keep ==> hint.place->Leaf_0 < leaves@.len()
                && leaves@[hint.place->Leaf_0 as int] == LayoutNode::Panel(panel)
        },
{
    if let Some(hint) = r {
        match hint.target {
            DropTarget::Split { leaf, .. } => law_the_first_leaf_is_the_first(leaves@, leaf),
            DropTarget::Keep => law_the_first_leaf_is_the_first(
                leaves@,
                LayoutNode::Panel(panel),
            ),
            _ => {},
        }
    }
}

/// A panel is offered no place but its target, and only where it may land there.
pub proof fn law_only_a_target_that_may_be_taken_is_offered(
    edges: SideDistances,
    under: Option<PartUnder>,
    layout: Layout,
    panel: PanelId,
    r: Option<DropTarget>,
    t: DropTarget,
)
    requires
        call_ensures(target_at, (edges, under, &layout, panel), r),
        is_target(edges, under, panel, t),
    ensures
        r is Some ==> r == Some(t) && t.permits(layout.root, panel),
{
    lemma_one_target(edges, under, panel, t);
}

} // verus!

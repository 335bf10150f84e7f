//! The window layout: a tree of splits round the canvas.
//!
//! How the tree is cut when a panel is docked, moved or removed, and what each panel
//! puts up with, is settled in this module: the rest of the library only asks it.
//! The numbers of the panels are its own choice.

use vstd::prelude::*;

use crate::dock::sizing::part_at;

verus! {

/// A panel of the window.
#[derive(Clone, Copy, Debug, PartialEq, Eq, Structural)]
pub enum PanelId {
    ToolBar,
    ToolOptions,
    ColorPicker,
    Layers,
    CanvasInfo,
}

/// A side of the window or of a part of it.
#[derive(Clone, Copy, Debug, PartialEq, Eq, Structural)]
pub enum DockSide {
    Left,
    Right,
    Top,
    Bottom,
}

/// How a split is cut: side by side, or one above the other.
#[derive(Clone, Copy, Debug, PartialEq, Eq, Structural)]
pub enum Axis {
    Horizontal,
    Vertical,
}

/// One of the two parts of a split.
#[derive(Clone, Copy, Debug, PartialEq, Eq, Structural)]
pub enum SplitChild {
    First,
    Second,
}

/// What may be done with a panel.
#[derive(Clone, Copy, Debug, PartialEq, Eq, Structural)]
pub struct PanelSpec {
    /// How thick it is where it is docked.
    pub default_size: i32,
    /// Whether it may share its place with another panel.
    pub splittable: bool,
    /// Whether it docks along the top or the bottom.
    pub horizontal: bool,
    /// Whether it docks down the left or the right.
    pub vertical: bool,
}

/// A part of the layout: the canvas, a panel, or two parts with a seam between
/// them. `fixed` is the part that keeps its `size` when the window grows.
#[derive(Debug)]
pub enum LayoutNode {
    Canvas,
    Panel(PanelId),
    Split {
        axis: Axis,
        fixed: SplitChild,
        size: i32,
        first: Box<LayoutNode>,
        second: Box<LayoutNode>,
    },
}

/// A named layout.
pub struct Layout {
    pub name: String,
    pub root: LayoutNode,
}

/// What stands at a leaf of the tree.
pub ghost enum Leaf {
    Canvas,
    Panel(PanelId),
}

impl DockSide {
    /// Whether a panel on this side stands upright.
    pub open spec fn column(self) -> bool {
        self == DockSide::Left || self == DockSide::Right
    }

    /// How a part is cut to make room on this side.
    pub open spec fn cut(self) -> Axis {
        if self.column() {
            Axis::Horizontal
        } else {
            Axis::Vertical
        }
    }

    /// Whether this side comes first along its axis.
    pub open spec fn leading(self) -> bool {
        self == DockSide::Left || self == DockSide::Top
    }

    /// Whether a panel on this side stands upright.
    pub fn is_column(self) -> (r: bool)
        ensures
            r == self.column(),
    {
        match self {
            DockSide::Left | DockSide::Right => true,
            DockSide::Top | DockSide::Bottom => false,
        }
    }
}

impl PanelSpec {
    /// Whether a panel may be docked on a side.
    pub open spec fn takes(self, side: DockSide) -> bool {
        if side.column() {
            self.vertical
        } else {
            self.horizontal
        }
    }

    /// Whether a panel may be docked on a side.
    pub fn allows(self, side: DockSide) -> (r: bool)
        ensures
            r == self.takes(side),
    {
        if side.is_column() {
            self.vertical
        } else {
            self.horizontal
        }
    }
}

impl PanelId {
    /// What may be done with the panel. The bars lie along the top or the bottom;
    /// the info strip keeps its place to itself. How thick a panel starts out is a
    /// choice of this table and follows from nothing else.
    pub open spec fn about(self) -> PanelSpec {
        match self {
            PanelId::ToolBar => PanelSpec {
                default_size: 40,
                splittable: true,
                horizontal: true,
                vertical: true,
            },
            PanelId::ToolOptions => PanelSpec {
                default_size: 40,
                splittable: true,
                horizontal: true,
                vertical: false,
            },
            PanelId::ColorPicker | PanelId::Layers => PanelSpec {
                default_size: 300,
                splittable: true,
                horizontal: true,
                vertical: true,
            },
            PanelId::CanvasInfo => PanelSpec {
                default_size: 24,
                splittable: false,
                horizontal: true,
                vertical: false,
            },
        }
    }

    /// What may be done with the panel.
    pub fn spec(self) -> (s: PanelSpec)
        ensures
            s == self.about(),
    {
        match self {
            PanelId::ToolBar => PanelSpec {
                default_size: 40,
                splittable: true,
                horizontal: true,
                vertical: true,
            },
            PanelId::ToolOptions => PanelSpec {
                default_size: 40,
                splittable: true,
                horizontal: true,
                vertical: false,
            },
            PanelId::ColorPicker | PanelId::Layers => PanelSpec {
                default_size: 300,
                splittable: true,
                horizontal: true,
                vertical: true,
            },
            PanelId::CanvasInfo => PanelSpec {
                default_size: 24,
                splittable: false,
                horizontal: true,
                vertical: false,
            },
        }
    }
}

/// A part with a panel beside it.
pub open spec fn beside(part: LayoutNode, panel: PanelId, side: DockSide) -> LayoutNode {
    let added = Box::new(LayoutNode::Panel(panel));
    if side.leading() {
        LayoutNode::Split {
            axis: side.cut(),
            fixed: SplitChild::First,
            size: panel.about().default_size,
            first: added,
            second: Box::new(part),
        }
    } else {
        LayoutNode::Split {
            axis: side.cut(),
            fixed: SplitChild::Second,
            size: panel.about().default_size,
            first: Box::new(part),
            second: added,
        }
    }
}

/// A part with a panel beside it.
fn place_beside(part: LayoutNode, panel: PanelId, side: DockSide) -> (r: LayoutNode)
    ensures
        r == beside(part, panel, side),
{
    let size: i32 = panel.spec().default_size;
    let added = Box::new(LayoutNode::Panel(panel));
    match side {
        DockSide::Left => LayoutNode::Split {
            axis: Axis::Horizontal,
            fixed: SplitChild::First,
            size,
            first: added,
            second: Box::new(part),
        },
        DockSide::Top => LayoutNode::Split {
            axis: Axis::Vertical,
            fixed: SplitChild::First,
            size,
            first: added,
            second: Box::new(part),
        },
        DockSide::Right => LayoutNode::Split {
            axis: Axis::Horizontal,
            fixed: SplitChild::Second,
            size,
            first: Box::new(part),
            second: added,
        },
        DockSide::Bottom => LayoutNode::Split {
            axis: Axis::Vertical,
            fixed: SplitChild::Second,
            size,
            first: Box::new(part),
            second: added,
        },
    }
}

impl LayoutNode {
    /// The leaves from left to right and from top to bottom.
    pub open spec fn leaves(self) -> Seq<Leaf>
        decreases self,
    {
        match self {
            LayoutNode::Canvas => seq![Leaf::Canvas],
            LayoutNode::Panel(id) => seq![Leaf::Panel(id)],
            LayoutNode::Split { first, second, .. } => first.leaves() + second.leaves(),
        }
    }

    /// Whether a leaf is in the tree.
    pub open spec fn has(self, leaf: Leaf) -> bool
        decreases self,
    {
        match self {
            LayoutNode::Canvas => leaf == Leaf::Canvas,
            LayoutNode::Panel(id) => leaf == Leaf::Panel(id),
            LayoutNode::Split { first, second, .. } => first.has(leaf) || second.has(leaf),
        }
    }

    /// The tree without a panel: what shared a split with it takes the whole of
    /// the split's place. None where nothing is left.
    pub open spec fn without(self, panel: PanelId) -> Option<LayoutNode>
        decreases self,
    {
        match self {
            LayoutNode::Canvas => Some(self),
            LayoutNode::Panel(id) => if id == panel {
                None
            } else {
                Some(self)
            },
            LayoutNode::Split { axis, fixed, size, first, second } => match (
                first.without(panel),
                second.without(panel),
            ) {
                (Some(a), Some(b)) => Some(
                    LayoutNode::Split {
                        axis,
                        fixed,
                        size,
                        first: Box::new(a),
                        second: Box::new(b),
                    },
                ),
                (Some(a), None) => Some(a),
                (None, b) => b,
            },
        }
    }

    /// Whether a part of the tree is this one.
    pub open spec fn contains(self, part: LayoutNode) -> bool
        decreases self,
    {
        self == part || match self {
            LayoutNode::Split { first, second, .. } => first.contains(part) || second.contains(
                part,
            ),
            _ => false,
        }
    }

    /// The tree with a panel beside one of its parts, the first that is this one.
    pub open spec fn with_beside(
        self,
        part: LayoutNode,
        panel: PanelId,
        side: DockSide,
    ) -> LayoutNode
        decreases self,
    {
        if self == part {
            beside(part, panel, side)
        } else {
            match self {
                LayoutNode::Split { axis, fixed, size, first, second } => if first.contains(part) {
                    LayoutNode::Split {
                        axis,
                        fixed,
                        size,
                        first: Box::new(first.with_beside(part, panel, side)),
                        second,
                    }
                } else {
                    LayoutNode::Split {
                        axis,
                        fixed,
                        size,
                        first,
                        second: Box::new(second.with_beside(part, panel, side)),
                    }
                },
                _ => self,
            }
        }
    }

    /// The tree with a panel moved to an edge of the window, which it gets to itself:
    /// the panel and all the rest become the two parts of a split. A panel that is
    /// alone stays. That this is what docking means is a choice of this module.
    pub open spec fn docked(self, panel: PanelId, side: DockSide) -> LayoutNode {
        match self.without(panel) {
            Some(rest) => beside(rest, panel, side),
            None => self,
        }
    }

    /// The tree with a panel moved beside one of the other parts, with which it then
    /// shares a split; as it was where that part is not there. That this is what
    /// moving means is a choice of this module.
    pub open spec fn split(self, part: LayoutNode, panel: PanelId, side: DockSide) -> LayoutNode {
        match self.without(panel) {
            Some(rest) => if rest.contains(part) {
                rest.with_beside(part, panel, side)
            } else {
                self
            },
            None => self,
        }
    }

    /// The side of the canvas on which a panel stands: that of the split which
    /// parts the two.
    pub open spec fn side(self, panel: PanelId) -> Option<DockSide>
        decreases self,
    {
        match self {
            LayoutNode::Split { axis, first, second, .. } => if first.has(Leaf::Canvas) {
                if first.has(Leaf::Panel(panel)) {
                    first.side(panel)
                } else if second.has(Leaf::Panel(panel)) {
                    Some(
                        if axis == Axis::Horizontal {
                            DockSide::Right
                        } else {
                            DockSide::Bottom
                        },
                    )
                } else {
                    None
                }
            } else if second.has(Leaf::Canvas) {
                if second.has(Leaf::Panel(panel)) {
                    second.side(panel)
                } else if first.has(Leaf::Panel(panel)) {
                    Some(
                        if axis == Axis::Horizontal {
                            DockSide::Left
                        } else {
                            DockSide::Top
                        },
                    )
                } else {
                    None
                }
            } else {
                None
            },
            _ => None,
        }
    }

    /// Whether two trees are the same.
    pub fn same(&self, other: &LayoutNode) -> (r: bool)
        ensures
            r == (*self == *other),
        decreases self,
    {
        match (self, other) {
            (LayoutNode::Canvas, LayoutNode::Canvas) => true,
            (LayoutNode::Panel(a), LayoutNode::Panel(b)) => *a == *b,
            (
                LayoutNode::Split { axis: a, fixed: f, size: s, first: x, second: y },
                LayoutNode::Split { axis: b, fixed: g, size: t, first: u, second: v },
            ) => *a == *b && *f == *g && *s == *t && x.same(u) && y.same(v),
            _ => false,
        }
    }

    /// A copy of the tree.
    pub fn copy(&self) -> (r: LayoutNode)
        ensures
            r == *self,
        decreases self,
    {
        match self {
            LayoutNode::Canvas => LayoutNode::Canvas,
            LayoutNode::Panel(id) => LayoutNode::Panel(*id),
            LayoutNode::Split { axis, fixed, size, first, second } => LayoutNode::Split {
                axis: *axis,
                fixed: *fixed,
                size: *size,
                first: Box::new(first.copy()),
                second: Box::new(second.copy()),
            },
        }
    }

    /// Whether the canvas is in the tree.
    pub fn has_canvas(&self) -> (r: bool)
        ensures
            r == self.has(Leaf::Canvas),
        decreases self,
    {
        match self {
            LayoutNode::Canvas => true,
            LayoutNode::Panel(_) => false,
            LayoutNode::Split { first, second, .. } => first.has_canvas() || second.has_canvas(),
        }
    }

    /// Whether a panel is in the tree.
    pub fn has_panel(&self, panel: PanelId) -> (r: bool)
        ensures
            r == self.has(Leaf::Panel(panel)),
        decreases self,
    {
        match self {
            LayoutNode::Canvas => false,
            LayoutNode::Panel(id) => *id == panel,
            LayoutNode::Split { first, second, .. } => first.has_panel(panel) || second.has_panel(
                panel,
            ),
        }
    }

    /// Whether a part of the tree is this one.
    pub fn has_part(&self, part: &LayoutNode) -> (r: bool)
        ensures
            r == self.contains(*part),
        decreases self,
    {
        if self.same(part) {
            return true;
        }
        match self {
            LayoutNode::Split { first, second, .. } => first.has_part(part) || second.has_part(
                part,
            ),
            _ => false,
        }
    }

    /// The tree without a panel.
    pub fn remove_panel(self, panel: PanelId) -> (r: Option<LayoutNode>)
        ensures
            r == self.without(panel),
        decreases self,
    {
        match self {
            LayoutNode::Canvas => Some(LayoutNode::Canvas),
            LayoutNode::Panel(id) => if id == panel {
                None
            } else {
                Some(LayoutNode::Panel(id))
            },
            LayoutNode::Split { axis, fixed, size, first, second } => {
                let a = (*first).remove_panel(panel);
                let b = (*second).remove_panel(panel);
                match (a, b) {
                    (Some(a), Some(b)) => Some(
                        LayoutNode::Split {
                            axis,
                            fixed,
                            size,
                            first: Box::new(a),
                            second: Box::new(b),
                        },
                    ),
                    (Some(a), None) => Some(a),
                    (None, b) => b,
                }
            },
        }
    }

    /// The tree with a panel beside one of its parts.
    fn insert_beside(self, part: &LayoutNode, panel: PanelId, side: DockSide) -> (r: LayoutNode)
        ensures
            r == self.with_beside(*part, panel, side),
        decreases self,
    {
        if self.same(part) {
            return place_beside(self, panel, side);
        }
        match self {
            LayoutNode::Split { axis, fixed, size, first, second } => {
                if first.has_part(part) {
                    LayoutNode::Split {
                        axis,
                        fixed,
                        size,
                        first: Box::new((*first).insert_beside(part, panel, side)),
                        second,
                    }
                } else {
                    LayoutNode::Split {
                        axis,
                        fixed,
                        size,
                        first,
                        second: Box::new((*second).insert_beside(part, panel, side)),
                    }
                }
            },
            other => other,
        }
    }

    /// Move a panel to an edge of the window.
    pub fn dock_panel(&mut self, panel: PanelId, side: DockSide)
        ensures
            *final(self) == old(self).docked(panel, side),
    {
        match self.copy().remove_panel(panel) {
            Some(rest) => {
                *self = place_beside(rest, panel, side);
            },
            None => {},
        }
    }

    /// Move a panel beside one of the other parts. False where that part is not
    /// there.
    pub fn split_leaf(&mut self, part: &LayoutNode, panel: PanelId, side: DockSide) -> (done: bool)
        ensures
            *final(self) == old(self).split(*part, panel, side),
            done == (old(self).without(panel) matches Some(rest) && rest.contains(*part)),
    {
        match self.copy().remove_panel(panel) {
            Some(rest) => {
                if rest.has_part(part) {
                    *self = rest.insert_beside(part, panel, side);
                    true
                } else {
                    false
                }
            },
            None => false,
        }
    }

    /// The side of the canvas on which a panel stands.
    pub fn side_of(&self, panel: PanelId) -> (s: Option<DockSide>)
        ensures
            s == self.side(panel),
        decreases self,
    {
        match self {
            LayoutNode::Split { axis, first, second, .. } => {
                if first.has_canvas() {
                    if first.has_panel(panel) {
                        first.side_of(panel)
                    } else if second.has_panel(panel) {
                        Some(
                            if *axis == Axis::Horizontal {
                                DockSide::Right
                            } else {
                                DockSide::Bottom
                            },
                        )
                    } else {
                        None
                    }
                } else if second.has_canvas() {
                    if second.has_panel(panel) {
                        second.side_of(panel)
                    } else if first.has_panel(panel) {
                        Some(
                            if *axis == Axis::Horizontal {
                                DockSide::Left
                            } else {
                                DockSide::Top
                            },
                        )
                    } else {
                        None
                    }
                } else {
                    None
                }
            },
            _ => None,
        }
    }

    /// The size of the split at the end of a path, counted from a place on it.
    pub open spec fn size_at(self, path: Seq<SplitChild>) -> Option<i32>
        decreases path.len(),
    {
        match self {
            LayoutNode::Split { size, first, second, .. } => if path.len() == 0 {
                Some(size)
            } else if path[0] == SplitChild::First {
                first.size_at(path.skip(1))
            } else {
                second.size_at(path.skip(1))
            },
            _ => None,
        }
    }

    /// The tree with the split at the end of a path set to a size.
    pub open spec fn with_size(self, path: Seq<SplitChild>, px: i32) -> LayoutNode
        decreases path.len(),
    {
        match self {
            LayoutNode::Split { axis, fixed, size, first, second } => if path.len() == 0 {
                LayoutNode::Split { axis, fixed, size: px, first, second }
            } else if path[0] == SplitChild::First {
                LayoutNode::Split {
                    axis,
                    fixed,
                    size,
                    first: Box::new(first.with_size(path.skip(1), px)),
                    second,
                }
            } else {
                LayoutNode::Split {
                    axis,
                    fixed,
                    size,
                    first,
                    second: Box::new(second.with_size(path.skip(1), px)),
                }
            },
            _ => self,
        }
    }

    /// The tree with the split at the rest of a path set to a size.
    fn resize_from(self, path: &Vec<SplitChild>, at: usize, px: i32) -> (r: LayoutNode)
        requires
            at <= path@.len(),
        ensures
            r == self.with_size(path@.skip(at as int), px),
        decreases path@.len() - at,
    {
        match self {
            LayoutNode::Split { axis, fixed, size, first, second } => {
                if at == path.len() {
                    return LayoutNode::Split { axis, fixed, size: px, first, second };
                }
                assert(path@.skip(at as int).skip(1) =~= path@.skip(at + 1));
                match path[at] {
                    SplitChild::First => LayoutNode::Split {
                        axis,
                        fixed,
                        size,
                        first: Box::new((*first).resize_from(path, at + 1, px)),
                        second,
                    },
                    SplitChild::Second => LayoutNode::Split {
                        axis,
                        fixed,
                        size,
                        first,
                        second: Box::new((*second).resize_from(path, at + 1, px)),
                    },
                }
            },
            other => other,
        }
    }

    /// Set the split at the end of a path to a size. True where that changes it.
    pub fn set_split_size(&mut self, path: &Vec<SplitChild>, px: i32) -> (changed: bool)
        ensures
            *final(self) == old(self).with_size(path@, px),
            changed == (*final(self) != *old(self)),
    {
        assert(path@.skip(0) =~= path@);
        let resized = self.copy().resize_from(path, 0, px);
        let changed = !resized.same(self);
        *self = resized;
        changed
    }
}

/// The leaves that are not this panel.
pub open spec fn others(leaves: Seq<Leaf>, panel: PanelId) -> Seq<Leaf> {
    leaves.filter(|leaf: Leaf| leaf != Leaf::Panel(panel))
}

/// Removing a panel leaves every other leaf in its place among the rest; nothing
/// is left only where there was nothing else.
pub proof fn law_removal_keeps_the_rest(node: LayoutNode, panel: PanelId)
    ensures
        match node.without(panel) {
            Some(rest) => rest.leaves() == others(node.leaves(), panel) && !rest.has(
                Leaf::Panel(panel),
            ),
            None => others(node.leaves(), panel).len() == 0,
        },
    decreases node,
{
    let keep = |leaf: Leaf| leaf != Leaf::Panel(panel);
    reveal(Seq::filter);
    match node {
        LayoutNode::Canvas => {
            assert(seq![Leaf::Canvas].drop_last() =~= Seq::<Leaf>::empty());
            assert(Seq::<Leaf>::empty().filter(keep) =~= Seq::<Leaf>::empty());
            assert(others(node.leaves(), panel) =~= node.leaves());
        },
        LayoutNode::Panel(id) => {
            assert(seq![Leaf::Panel(id)].drop_last() =~= Seq::<Leaf>::empty());
            assert(Seq::<Leaf>::empty().filter(keep) =~= Seq::<Leaf>::empty());
            if id != panel {
                assert(others(node.leaves(), panel) =~= node.leaves());
            }
        },
        LayoutNode::Split { first, second, .. } => {
            law_removal_keeps_the_rest(*first, panel);
            law_removal_keeps_the_rest(*second, panel);
            Seq::filter_distributes_over_add(first.leaves(), second.leaves(), keep);
            let a = others(first.leaves(), panel);
            let b = others(second.leaves(), panel);
            assert(others(node.leaves(), panel) == a + b);
            if first.without(panel) is None {
                assert(a + b =~= b);
            }
            if second.without(panel) is None {
                assert(a + b =~= a);
            }
        },
    }
}

/// A panel docked at an edge stands on that side of the canvas.
pub proof fn law_docked_panel_stands_on_its_side(root: LayoutNode, panel: PanelId, side: DockSide)
    requires
        root.has(Leaf::Canvas),
    ensures
        root.docked(panel, side).side(panel) == Some(side),
        root.docked(panel, side).has(Leaf::Canvas),
{
    lemma_without_keeps_canvas(root, panel);
    law_removal_keeps_the_rest(root, panel);
    let rest = root.without(panel)->Some_0;
    let added = LayoutNode::Panel(panel);
    assert(added.has(Leaf::Panel(panel)));
    assert(!added.has(Leaf::Canvas));
    assert(rest.has(Leaf::Canvas));
    assert(!rest.has(Leaf::Panel(panel)));
}

proof fn lemma_without_keeps_canvas(node: LayoutNode, panel: PanelId)
    requires
        node.has(Leaf::Canvas),
    ensures
        node.without(panel) matches Some(rest) && rest.has(Leaf::Canvas),
    decreases node,
{
    match node {
        LayoutNode::Split { first, second, .. } => {
            if first.has(Leaf::Canvas) {
                lemma_without_keeps_canvas(*first, panel);
            } else {
                lemma_without_keeps_canvas(*second, panel);
            }
        },
        _ => {},
    }
}

proof fn lemma_beside_leaves(part: LayoutNode, panel: PanelId, side: DockSide)
    ensures
        others(beside(part, panel, side).leaves(), panel) == others(part.leaves(), panel),
        beside(part, panel, side).has(Leaf::Panel(panel)),
{
    let keep = |leaf: Leaf| leaf != Leaf::Panel(panel);
    let added = LayoutNode::Panel(panel);
    reveal(Seq::filter);
    assert(added.leaves().drop_last() =~= Seq::<Leaf>::empty());
    assert(Seq::<Leaf>::empty().filter(keep) =~= Seq::<Leaf>::empty());
    assert(added.leaves().filter(keep) =~= Seq::<Leaf>::empty());
    reveal_with_fuel(LayoutNode::leaves, 2);
    reveal_with_fuel(LayoutNode::has, 2);
    if side.leading() {
        Seq::filter_distributes_over_add(added.leaves(), part.leaves(), keep);
        assert(Seq::<Leaf>::empty() + part.leaves().filter(keep) =~= part.leaves().filter(keep));
    } else {
        Seq::filter_distributes_over_add(part.leaves(), added.leaves(), keep);
        assert(part.leaves().filter(keep) + Seq::<Leaf>::empty() =~= part.leaves().filter(keep));
    }
}

proof fn lemma_with_beside_leaves(
    node: LayoutNode,
    part: LayoutNode,
    panel: PanelId,
    side: DockSide,
)
    requires
        node.contains(part),
    ensures
        others(node.with_beside(part, panel, side).leaves(), panel) == others(node.leaves(), panel),
        node.with_beside(part, panel, side).has(Leaf::Panel(panel)),
    decreases node,
{
    let keep = |leaf: Leaf| leaf != Leaf::Panel(panel);
    if node == part {
        lemma_beside_leaves(part, panel, side);
    } else {
        match node {
            LayoutNode::Split { first, second, .. } => {
                Seq::filter_distributes_over_add(first.leaves(), second.leaves(), keep);
                if first.contains(part) {
                    lemma_with_beside_leaves(*first, part, panel, side);
                    let grown = first.with_beside(part, panel, side);
                    Seq::filter_distributes_over_add(grown.leaves(), second.leaves(), keep);
                } else {
                    lemma_with_beside_leaves(*second, part, panel, side);
                    let grown = second.with_beside(part, panel, side);
                    Seq::filter_distributes_over_add(first.leaves(), grown.leaves(), keep);
                }
            },
            _ => {},
        }
    }
}

proof fn lemma_others_twice(leaves: Seq<Leaf>, panel: PanelId)
    ensures
        others(others(leaves, panel), panel) == others(leaves, panel),
    decreases leaves.len(),
{
    let keep = |leaf: Leaf| leaf != Leaf::Panel(panel);
    reveal(Seq::filter);
    if leaves.len() > 0 {
        lemma_others_twice(leaves.drop_last(), panel);
        let rest = leaves.drop_last().filter(keep);
        if keep(leaves.last()) {
            assert(rest.push(leaves.last()).drop_last() =~= rest);
        }
    }
}

/// Moving a panel moves nothing else: the other leaves keep their order, whether
/// the panel goes to an edge or beside another part. A panel that has been moved
/// is in the tree.
pub proof fn law_moving_keeps_the_other_leaves(
    root: LayoutNode,
    part: LayoutNode,
    panel: PanelId,
    side: DockSide,
)
    ensures
        others(root.docked(panel, side).leaves(), panel) == others(root.leaves(), panel),
        others(root.split(part, panel, side).leaves(), panel) == others(root.leaves(), panel),
        root.without(panel) is Some ==> root.docked(panel, side).has(Leaf::Panel(panel)),
        root.without(panel) matches Some(rest) && rest.contains(part) ==> root.split(
            part,
            panel,
            side,
        ).has(Leaf::Panel(panel)),
{
    law_removal_keeps_the_rest(root, panel);
    if let Some(rest) = root.without(panel) {
        lemma_others_twice(root.leaves(), panel);
        lemma_beside_leaves(rest, panel, side);
        if rest.contains(part) {
            lemma_with_beside_leaves(rest, part, panel, side);
        }
    }
}

/// Setting the size of a split moves no leaf, and the split has that size after.
pub proof fn law_resizing_moves_nothing(root: LayoutNode, path: Seq<SplitChild>, px: i32)
    ensures
        root.with_size(path, px).leaves() == root.leaves(),
        root.size_at(path) is Some ==> root.with_size(path, px).size_at(path) == Some(px),
        root.size_at(path) is None ==> root.with_size(path, px) == root,
    decreases path.len(),
{
    match root {
        LayoutNode::Split { first, second, .. } => {
            if path.len() > 0 {
                if path[0] == SplitChild::First {
                    law_resizing_moves_nothing(*first, path.skip(1), px);
                } else {
                    law_resizing_moves_nothing(*second, path.skip(1), px);
                }
            }
        },
        _ => {},
    }
}

/// The tree with another part at the end of a path.
pub open spec fn replaced(node: LayoutNode, path: Seq<SplitChild>, part: LayoutNode) -> LayoutNode
    decreases path.len(),
{
    if path.len() == 0 {
        part
    } else {
        match node {
            LayoutNode::Split { axis, fixed, size, first, second } => if path[0]
                == SplitChild::First {
                LayoutNode::Split {
                    axis,
                    fixed,
                    size,
                    first: Box::new(replaced(*first, path.skip(1), part)),
                    second,
                }
            } else {
                LayoutNode::Split {
                    axis,
                    fixed,
                    size,
                    first,
                    second: Box::new(replaced(*second, path.skip(1), part)),
                }
            },
            _ => node,
        }
    }
}

/// Whether one path leads further to the left or the top than another: it turns to
/// the first part where the other turns to the second.
pub open spec fn earlier(a: Seq<SplitChild>, b: Seq<SplitChild>) -> bool
    decreases a.len(),
{
    a.len() > 0 && b.len() > 0 && (if a[0] == b[0] {
        earlier(a.skip(1), b.skip(1))
    } else {
        a[0] == SplitChild::First
    })
}

proof fn lemma_part_is_smaller(node: LayoutNode, path: Seq<SplitChild>)
    ensures
        node.leaves().len() > 0,
        part_at(node, path) matches Some(part) ==> part.leaves().len() <= node.leaves().len() && (
        path.len() > 0 ==> part.leaves().len() < node.leaves().len()),
    decreases node,
{
    match node {
        LayoutNode::Split { first, second, .. } => {
            lemma_part_is_smaller(*first, path.skip(1));
            lemma_part_is_smaller(*second, path.skip(1));
        },
        _ => {},
    }
}

/// Whether a part is in the tree is whether a path leads to it.
pub proof fn law_a_part_is_at_the_end_of_a_path(
    node: LayoutNode,
    part: LayoutNode,
    path: Seq<SplitChild>,
)
    ensures
        part_at(node, path) == Some(part) ==> node.contains(part),
        node.contains(part) ==> exists|p: Seq<SplitChild>| part_at(node, p) == Some(part),
    decreases node,
{
    if node == part {
        assert(part_at(node, Seq::empty()) == Some(part));
    }
    match node {
        LayoutNode::Split { first, second, .. } => {
            law_a_part_is_at_the_end_of_a_path(*first, part, path.skip(1));
            law_a_part_is_at_the_end_of_a_path(*second, part, path.skip(1));
            if node != part && first.contains(part) {
                let p = choose|p: Seq<SplitChild>| part_at(*first, p) == Some(part);
                let q = seq![SplitChild::First] + p;
                assert(q.skip(1) =~= p);
                assert(part_at(node, q) == Some(part));
            } else if node != part && second.contains(part) {
                let p = choose|p: Seq<SplitChild>| part_at(*second, p) == Some(part);
                let q = seq![SplitChild::Second] + p;
                assert(q.skip(1) =~= p);
                assert(part_at(node, q) == Some(part));
            }
        },
        _ => {},
    }
}

/// The path to the place where a panel goes beside a part.
proof fn lemma_with_beside_path(
    node: LayoutNode,
    part: LayoutNode,
    panel: PanelId,
    side: DockSide,
) -> (path: Seq<SplitChild>)
    requires
        node.contains(part),
    ensures
        part_at(node, path) == Some(part),
        node.with_beside(part, panel, side) == replaced(node, path, beside(part, panel, side)),
        part_at(node.with_beside(part, panel, side), path) == Some(beside(part, panel, side)),
        forall|q: Seq<SplitChild>| #[trigger]
            part_at(node, q) == Some(part) ==> q == path || earlier(path, q),
    decreases node,
{
    if node == part {
        let path = Seq::<SplitChild>::empty();
        assert forall|q: Seq<SplitChild>| #[trigger] part_at(node, q) == Some(part) implies q
            == path by {
            lemma_part_is_smaller(node, q);
            assert(q =~= path);
        }
        path
    } else {
        match node {
            LayoutNode::Split { first, second, .. } => {
                let turn = if first.contains(part) {
                    SplitChild::First
                } else {
                    SplitChild::Second
                };
                let rest = if first.contains(part) {
                    lemma_with_beside_path(*first, part, panel, side)
                } else {
                    lemma_with_beside_path(*second, part, panel, side)
                };
                let path = seq![turn] + rest;
                assert(path.skip(1) =~= rest);
                assert forall|q: Seq<SplitChild>| #[trigger] part_at(node, q) == Some(
                    part,
                ) implies q == path || earlier(path, q) by {
                    assert(q.len() > 0);
                    if q[0] == SplitChild::First {
                        law_a_part_is_at_the_end_of_a_path(*first, part, q.skip(1));
                    }
                    if q[0] == turn {
                        let tail = q.skip(1);
                        if turn == SplitChild::First {
                            assert(part_at(*first, tail) == Some(part));
                        } else {
                            assert(part_at(*second, tail) == Some(part));
                        }
                        assert(tail == rest || earlier(rest, tail));
                        if tail == rest {
                            assert(q =~= seq![turn] + tail);
                        }
                    }
                }
                path
            },
            _ => Seq::empty(),
        }
    }
}

/// A panel moved beside a part that is in the rest of the layout shares a split with
/// exactly that part, and stands where the part stood: the split is cut across for the
/// left and the right and down for the top and the bottom, the panel comes first for
/// the left and the top and second for the right and the bottom, and keeps its own
/// size. Of equal parts it is the one furthest to the left or the top. All the rest is
/// as it was without the panel. Where the part is not there, nothing moves.
pub proof fn law_moved_panel_shares_a_split_with_its_part(
    root: &mut LayoutNode,
    part: LayoutNode,
    panel: PanelId,
    side: DockSide,
    done: bool,
)
    requires
        call_ensures(LayoutNode::split_leaf, (root, &part, panel, side), done),
    ensures
        done <==> old(root).without(panel) is Some && old(root).without(panel)->0.contains(part),
        !done ==> *final(root) == *old(root),
        done ==> exists|path: Seq<SplitChild>|
            {
                let rest = old(root).without(panel)->0;
                &&& part_at(rest, path) == Some(part)
                &&& forall|q: Seq<SplitChild>| #[trigger]
                    part_at(rest, q) == Some(part) ==> q == path || earlier(path, q)
                &&& #[trigger] part_at(*final(root), path) is Some
                &&& *final(root) == replaced(rest, path, part_at(*final(root), path)->0)
                &&& part_at(*final(root), path)->0 matches LayoutNode::Split {
                    axis,
                    fixed,
                    size,
                    first,
                    second,
                }
                &&& size == panel.about().default_size
                &&& side == DockSide::Left ==> axis == Axis::Horizontal && fixed
                    == SplitChild::First && *first == LayoutNode::Panel(panel) && *second == part
                &&& side == DockSide::Right ==> axis == Axis::Horizontal && fixed
                    == SplitChild::Second && *first == part && *second == LayoutNode::Panel(panel)
                &&& side == DockSide::Top ==> axis == Axis::Vertical && fixed == SplitChild::First
                    && *first == LayoutNode::Panel(panel) && *second == part
                &&& side == DockSide::Bottom ==> axis == Axis::Vertical && fixed
                    == SplitChild::Second && *first == part && *second == LayoutNode::Panel(panel)
            },
{
    if done {
        let rest = old(root).without(panel)->0;
        let path = lemma_with_beside_path(rest, part, panel, side);
        assert(part_at(*final(root), path) == Some(beside(part, panel, side)));
    }
}

proof fn lemma_canvas_is_a_part(node: LayoutNode)
    ensures
        node.contains(LayoutNode::Canvas) == node.has(Leaf::Canvas),
    decreases node,
{
    match node {
        LayoutNode::Split { first, second, .. } => {
            lemma_canvas_is_a_part(*first);
            lemma_canvas_is_a_part(*second);
        },
        _ => {},
    }
}

proof fn lemma_beside_canvas(node: LayoutNode, panel: PanelId, side: DockSide)
    requires
        node.has(Leaf::Canvas),
        !node.has(Leaf::Panel(panel)),
    ensures
        ({
            let after = node.with_beside(LayoutNode::Canvas, panel, side);
            &&& after.side(panel) == Some(side)
            &&& after.has(Leaf::Canvas)
            &&& after.has(Leaf::Panel(panel))
        }),
    decreases node,
{
    let canvas = LayoutNode::Canvas;
    lemma_canvas_is_a_part(node);
    if node == canvas {
        let added = LayoutNode::Panel(panel);
        assert(added.has(Leaf::Panel(panel)) && !added.has(Leaf::Canvas));
        assert(canvas.has(Leaf::Canvas) && !canvas.has(Leaf::Panel(panel)));
    } else {
        match node {
            LayoutNode::Split { first, second, .. } => {
                lemma_canvas_is_a_part(*first);
                if first.has(Leaf::Canvas) {
                    lemma_beside_canvas(*first, panel, side);
                } else {
                    lemma_beside_canvas(*second, panel, side);
                }
            },
            _ => {},
        }
    }
}

/// What moving a panel beside the canvas leads to.
pub proof fn lemma_split_beside_canvas(root: LayoutNode, panel: PanelId, side: DockSide)
    requires
        root.has(Leaf::Canvas),
    ensures
        root.without(panel) matches Some(rest) && rest.contains(LayoutNode::Canvas),
        root.split(LayoutNode::Canvas, panel, side).side(panel) == Some(side),
        root.split(LayoutNode::Canvas, panel, side).has(Leaf::Canvas),
        root.split(LayoutNode::Canvas, panel, side).has(Leaf::Panel(panel)),
{
    lemma_without_keeps_canvas(root, panel);
    law_removal_keeps_the_rest(root, panel);
    let rest = root.without(panel)->0;
    lemma_canvas_is_a_part(rest);
    lemma_beside_canvas(rest, panel, side);
}

/// A panel moved beside the canvas on a side stands on that side of the canvas.
pub proof fn law_panel_moved_beside_the_canvas_stands_there(
    root: &mut LayoutNode,
    panel: PanelId,
    side: DockSide,
    done: bool,
    stands: Option<DockSide>,
)
    requires
        call_ensures(LayoutNode::split_leaf, (root, &LayoutNode::Canvas, panel, side), done),
        old(root).has(Leaf::Canvas),
        call_ensures(LayoutNode::side_of, (&*final(root), panel), stands),
    ensures
        done,
        stands == Some(side),
        final(root).has(Leaf::Canvas),
        final(root).has(Leaf::Panel(panel)),
{
    lemma_split_beside_canvas(*old(root), panel, side);
}

/// A panel docked at an edge shares a split with all the rest: the split is cut across
/// for the left and the right and down for the top and the bottom, the panel comes
/// first for the left and the top and second for the right and the bottom, and keeps
/// its own size. A panel that is alone stays.
pub proof fn law_docked_panel_shares_a_split_with_all_the_rest(
    root: &mut LayoutNode,
    panel: PanelId,
    side: DockSide,
)
    requires
        call_ensures(LayoutNode::dock_panel, (root, panel, side), ()),
    ensures
        old(root).without(panel) is None ==> *final(root) == *old(root),
        old(root).without(panel) matches Some(rest) ==> {
            &&& *final(root) matches LayoutNode::Split { axis, fixed, size, first, second }
            &&& size == panel.about().default_size
            &&& side == DockSide::Left ==> axis == Axis::Horizontal && fixed == SplitChild::First
                && *first == LayoutNode::Panel(panel) && *second == rest
            &&& side == DockSide::Right ==> axis == Axis::Horizontal && fixed
                == SplitChild::Second && *first == rest && *second == LayoutNode::Panel(panel)
            &&& side == DockSide::Top ==> axis == Axis::Vertical && fixed == SplitChild::First
                && *first == LayoutNode::Panel(panel) && *second == rest
            &&& side == DockSide::Bottom ==> axis == Axis::Vertical && fixed == SplitChild::Second
                && *first == rest && *second == LayoutNode::Panel(panel)
        },
{
}

/// Removing a panel that is not there changes nothing. What shared a split with the
/// removed panel takes the split's place. Every split that keeps both its parts is cut
/// and sized as before.
pub proof fn law_removal_changes_only_the_split_of_the_panel(
    node: LayoutNode,
    panel: PanelId,
    axis: Axis,
    fixed: SplitChild,
    size: i32,
    other: LayoutNode,
)
    ensures
        !node.has(Leaf::Panel(panel)) ==> node.without(panel) == Some(node),
        ({
            let first = LayoutNode::Split {
                axis,
                fixed,
                size,
                first: Box::new(LayoutNode::Panel(panel)),
                second: Box::new(node),
            };
            let second = LayoutNode::Split {
                axis,
                fixed,
                size,
                first: Box::new(node),
                second: Box::new(LayoutNode::Panel(panel)),
            };
            first.without(panel) == node.without(panel) && second.without(panel) == node.without(
                panel,
            )
        }),
        node.without(panel) is Some && other.without(panel) is Some ==> ({
            let both = LayoutNode::Split {
                axis,
                fixed,
                size,
                first: Box::new(node),
                second: Box::new(other),
            };
            both.without(panel) == Some(
                LayoutNode::Split {
                    axis,
                    fixed,
                    size,
                    first: Box::new(node.without(panel)->0),
                    second: Box::new(other.without(panel)->0),
                },
            )
        }),
        node.without(panel) matches Some(rest) ==> rest.without(panel) == Some(rest),
{
    law_removal_keeps_the_rest(node, panel);
    lemma_absent_panel(node, panel);
    if let Some(rest) = node.without(panel) {
        lemma_absent_panel(rest, panel);
    }
    assert(LayoutNode::Panel(panel).without(panel) is None);
}

proof fn lemma_absent_panel(node: LayoutNode, panel: PanelId)
    ensures
        !node.has(Leaf::Panel(panel)) ==> node.without(panel) == Some(node),
    decreases node,
{
    match node {
        LayoutNode::Split { first, second, .. } => {
            lemma_absent_panel(*first, panel);
            lemma_absent_panel(*second, panel);
        },
        _ => {},
    }
}

/// A leaf is in the tree exactly when it is one of its leaves.
pub proof fn law_a_leaf_is_one_of_the_leaves(node: LayoutNode, leaf: Leaf)
    ensures
        node.has(leaf) <==> node.leaves().contains(leaf),
    decreases node,
{
    match node {
        LayoutNode::Split { first, second, .. } => {
            law_a_leaf_is_one_of_the_leaves(*first, leaf);
            law_a_leaf_is_one_of_the_leaves(*second, leaf);
            let a = first.leaves();
            let b = second.leaves();
            if a.contains(leaf) {
                let i = choose|i: int| 0 <= i < a.len() && a[i] == leaf;
                assert((a + b)[i] == leaf);
            }
            if b.contains(leaf) {
                let i = choose|i: int| 0 <= i < b.len() && b[i] == leaf;
                assert((a + b)[a.len() + i] == leaf);
            }
            if (a + b).contains(leaf) {
                let i = choose|i: int| 0 <= i < (a + b).len() && (a + b)[i] == leaf;
                if i < a.len() {
                    assert(a[i] == leaf);
                } else {
                    assert(b[i - a.len()] == leaf);
                }
            }
        },
        _ => {
            assert(node.leaves().len() == 1);
            if node.leaves().contains(leaf) {
                assert(node.leaves()[0] == leaf);
            }
            if node.has(leaf) {
                assert(node.leaves()[0] == leaf);
            }
        },
    }
}

/// The split that parts a panel from the canvas says on which side the panel stands:
/// across, before it is the left and after it the right; down, before it is the top
/// and after it the bottom. What stands with the canvas in one part of a split stands
/// as it does in that part.
pub proof fn law_the_parting_split_gives_the_side(
    with_canvas: LayoutNode,
    other: LayoutNode,
    fixed: SplitChild,
    size: i32,
    panel: PanelId,
)
    requires
        with_canvas.has(Leaf::Canvas),
        !other.has(Leaf::Canvas),
    ensures
        ({
            let cut = |axis: Axis, first: LayoutNode, second: LayoutNode|
                LayoutNode::Split {
                    axis,
                    fixed,
                    size,
                    first: Box::new(first),
                    second: Box::new(second),
                };
            let across = Axis::Horizontal;
            let down = Axis::Vertical;
            let apart = other.has(Leaf::Panel(panel)) && !with_canvas.has(Leaf::Panel(panel));
            &&& apart ==> cut(across, other, with_canvas).side(panel) == Some(DockSide::Left)
            &&& apart ==> cut(across, with_canvas, other).side(panel) == Some(DockSide::Right)
            &&& apart ==> cut(down, other, with_canvas).side(panel) == Some(DockSide::Top)
            &&& apart ==> cut(down, with_canvas, other).side(panel) == Some(DockSide::Bottom)
            &&& with_canvas.has(Leaf::Panel(panel)) ==> cut(across, other, with_canvas).side(panel)
                == with_canvas.side(panel) && cut(down, with_canvas, other).side(panel)
                == with_canvas.side(panel)
        }),
{
}

/// Setting the size of a split sets no other one and changes nothing else: setting it
/// back gives the tree as it was, and of two settings the last one counts.
pub proof fn law_resizing_sets_one_split(
    root: LayoutNode,
    path: Seq<SplitChild>,
    other: Seq<SplitChild>,
    px: i32,
    again: i32,
)
    ensures
        other != path ==> root.with_size(path, px).size_at(other) == root.size_at(other),
        root.with_size(path, px).with_size(path, again) == root.with_size(path, again),
        root.size_at(path) matches Some(size) ==> root.with_size(path, size) == root,
    decreases path.len(),
{
    match root {
        LayoutNode::Split { first, second, .. } => {
            if path.len() > 0 {
                if other.len() > 0 && other[0] == path[0] && other.skip(1) == path.skip(1) {
                    assert(other =~= seq![other[0]] + other.skip(1));
                    assert(path =~= seq![path[0]] + path.skip(1));
                }
                if path[0] == SplitChild::First {
                    law_resizing_sets_one_split(*first, path.skip(1), other.skip(1), px, again);
                } else {
                    law_resizing_sets_one_split(*second, path.skip(1), other.skip(1), px, again);
                }
            } else if other.len() == 0 {
                assert(other =~= path);
            }
        },
        _ => {},
    }
}

/// A panel that may be docked on one side may be docked on the side across from it:
/// down the left and the right if it stands upright, along the top and the bottom if
/// it lies. Every panel lies; the options of a tool and the info strip never stand, and
/// only the info strip keeps its place to itself.
pub proof fn law_where_panels_may_be_docked(about: PanelSpec, panel: PanelId)
    ensures
        about.takes(DockSide::Left) <==> about.vertical,
        about.takes(DockSide::Right) <==> about.vertical,
        about.takes(DockSide::Top) <==> about.horizontal,
        about.takes(DockSide::Bottom) <==> about.horizontal,
        panel.about().takes(DockSide::Top),
        panel.about().takes(DockSide::Left) <==> panel != PanelId::ToolOptions && panel
            != PanelId::CanvasInfo,
        panel.about().splittable <==> panel != PanelId::CanvasInfo,
        panel.about().default_size > 0,
        (panel == PanelId::ColorPicker || panel == PanelId::Layers) <==> panel.about().default_size
            == 300,
        (panel == PanelId::ToolBar || panel == PanelId::ToolOptions) <==> panel.about().default_size
            == 40,
        panel == PanelId::CanvasInfo <==> panel.about().default_size == 24,
{
}

/// A path leads to the first part where it says first and to the second where it says
/// second, and its end is the part itself.
pub proof fn law_paths_lead_where_they_say(
    axis: Axis,
    fixed: SplitChild,
    size: i32,
    first: LayoutNode,
    second: LayoutNode,
    path: Seq<SplitChild>,
    px: i32,
)
    ensures
        ({
            let node = LayoutNode::Split {
                axis,
                fixed,
                size,
                first: Box::new(first),
                second: Box::new(second),
            };
            let left = seq![SplitChild::First] + path;
            let right = seq![SplitChild::Second] + path;
            &&& node.size_at(Seq::empty()) == Some(size)
            &&& node.size_at(left) == first.size_at(path)
            &&& node.size_at(right) == second.size_at(path)
            &&& part_at(node, Seq::empty()) == Some(node)
            &&& part_at(node, left) == part_at(first, path)
            &&& part_at(node, right) == part_at(second, path)
            &&& node.with_size(left, px) == (LayoutNode::Split {
                axis,
                fixed,
                size,
                first: Box::new(first.with_size(path, px)),
                second: Box::new(second),
            })
            &&& node.with_size(right, px) == (LayoutNode::Split {
                axis,
                fixed,
                size,
                first: Box::new(first),
                second: Box::new(second.with_size(path, px)),
            })
        }),
{
    assert((seq![SplitChild::First] + path).skip(1) =~= path);
    assert((seq![SplitChild::Second] + path).skip(1) =~= path);
}

/// A size that is set is told as a change exactly where the split had another.
pub proof fn law_a_set_size_is_a_change_or_not(
    root: &mut LayoutNode,
    path: Vec<SplitChild>,
    px: i32,
    changed: bool,
)
    requires
        call_ensures(LayoutNode::set_split_size, (root, &path, px), changed),
    ensures
        changed <==> old(root).size_at(path@) is Some && old(root).size_at(path@)->0 != px,
        old(root).size_at(path@) is Some ==> final(root).size_at(path@) == Some(px),
        !changed ==> *final(root) == *old(root),
{
    law_resizing_moves_nothing(*old(root), path@, px);
    law_resizing_sets_one_split(*old(root), path@, path@, px, px);
}

/// Removing a panel from the tree is what is left without it.
pub proof fn law_what_removing_leaves(root: LayoutNode, panel: PanelId, r: Option<LayoutNode>)
    requires
        call_ensures(LayoutNode::remove_panel, (root, panel), r),
    ensures
        r is Some ==> !r->0.has(Leaf::Panel(panel)),
        r is Some && root.has(Leaf::Canvas) ==> r->0.has(Leaf::Canvas),
        root.has(Leaf::Canvas) ==> r is Some,
        !root.has(Leaf::Panel(panel)) ==> r == Some(root),
{
    law_removal_keeps_the_rest(root, panel);
    lemma_absent_panel(root, panel);
    if root.has(Leaf::Canvas) {
        lemma_without_keeps_canvas(root, panel);
    }
}

} // verus!

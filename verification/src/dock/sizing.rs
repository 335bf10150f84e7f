//! The seams between panels: how a stored size becomes a seam's position, how a
//! dragged seam becomes a size, and which split each seam belongs to.
//!
//! Sizes come from the seam's position and never from what the panels were given,
//! which is a frame behind a moving seam.

use vstd::prelude::*;

use crate::layout::{Axis, LayoutNode, PanelId, SplitChild};

verus! {

/// The thickness of a seam that has not been measured yet.
pub const UNMEASURED: i32 = -1;

/// Frames within which a split must settle.
pub const SETTLE_FRAMES: u32 = 120;

/// A number that is at least this much.
pub open spec fn at_least(n: int, floor: int) -> int {
    if n < floor {
        floor
    } else {
        n
    }
}

/// A requested size: a negative one asks for none.
pub fn size_request(px: i32) -> (r: i32)
    ensures
        r == at_least(px as int, -1),
{
    if px < -1 {
        -1
    } else {
        px
    }
}

/// The size that a seam's position gives the fixed part of a split of this length.
pub open spec fn size_spec(fixed: SplitChild, position: int, total: int, handle: int) -> Option<
    int,
> {
    if fixed == SplitChild::First {
        Some(at_least(position, 0))
    } else if total <= 0 {
        None
    } else {
        Some(at_least(total - handle - position, 0))
    }
}

/// The seam's position at which the fixed part of a split of this length has a
/// size.
pub open spec fn position_spec(fixed: SplitChild, size: int, total: int, handle: int) -> Option<
    int,
> {
    if fixed == SplitChild::First {
        Some(at_least(size, 0))
    } else if total <= 0 {
        None
    } else {
        Some(at_least(total - handle - size, 0))
    }
}

/// The size that a seam's position gives the fixed part; none before the split
/// has a length.
pub fn size_of(fixed: SplitChild, position: i32, total: i32, handle: i32) -> (r: Option<i32>)
    requires
        total - handle - position <= i32::MAX,
    ensures
        match r {
            Some(size) => size_spec(fixed, position as int, total as int, handle as int) == Some(
                size as int,
            ),
            None => size_spec(fixed, position as int, total as int, handle as int) is None,
        },
{
    match fixed {
        SplitChild::First => Some(
            if position < 0 {
                0
            } else {
                position
            },
        ),
        SplitChild::Second => {
            if total <= 0 {
                return None;
            }
            let left: i64 = total as i64 - handle as i64 - position as i64;
            Some(
                if left < 0 {
                    0
                } else {
                    left as i32
                },
            )
        },
    }
}

/// The seam's position at which the fixed part has a size; none before the split
/// has a length.
pub fn position_for(fixed: SplitChild, size: i32, total: i32, handle: i32) -> (r: Option<i32>)
    requires
        total - handle - size <= i32::MAX,
    ensures
        match r {
            Some(position) => position_spec(fixed, size as int, total as int, handle as int)
                == Some(position as int),
            None => position_spec(fixed, size as int, total as int, handle as int) is None,
        },
{
    match fixed {
        SplitChild::First => Some(
            if size < 0 {
                0
            } else {
                size
            },
        ),
        SplitChild::Second => {
            if total <= 0 {
                return None;
            }
            let left: i64 = total as i64 - handle as i64 - size as i64;
            Some(
                if left < 0 {
                    0
                } else {
                    left as i32
                },
            )
        },
    }
}

/// A size that fits comes back from the position it asks for, and a position that
/// fits from the size it gives.
pub proof fn law_size_and_position_agree(fixed: SplitChild, n: int, total: int, handle: int)
    requires
        total > 0,
        0 <= n <= total - handle,
    ensures
        size_spec(
            fixed,
            position_spec(fixed, n, total, handle)->Some_0,
            total,
            handle,
        ) == Some(n),
        position_spec(
            fixed,
            size_spec(fixed, n, total, handle)->Some_0,
            total,
            handle,
        ) == Some(n),
{
}

/// Whether a split and its parts have been laid out, to tell by their lengths.
pub open spec fn laid_out(total: int, start: int, end: int) -> bool {
    total > 0 && start + end > 0 && total - start - end >= 0
}

/// The thickness of a seam, from the lengths of the split and of its parts; none
/// before they have been laid out.
pub fn measure_handle(total: i32, start: i32, end: i32) -> (r: Option<i32>)
    requires
        start >= 0,
        end >= 0,
    ensures
        r == (if laid_out(total as int, start as int, end as int) {
            Some((total - start - end) as i32)
        } else {
            None
        }),
{
    let parts: i64 = start as i64 + end as i64;
    let rest: i64 = total as i64 - parts;
    if total <= 0 || parts <= 0 || rest < 0 {
        None
    } else {
        Some(rest as i32)
    }
}

/// The sizing of one split.
pub struct Sizing {
    pub fixed: SplitChild,
    /// The stored size.
    pub size: i32,
    /// The seam's thickness, once measured.
    pub handle: i32,
    /// The least size of the fixed part.
    pub minimum: i32,
    /// The seam is being moved from here.
    pub adjusting: bool,
    /// The split's length when the seam was last heard of.
    pub length: i32,
}

/// What settling a split asks for.
#[derive(Clone, Copy, Debug, PartialEq, Eq, Structural)]
pub enum Settle {
    /// The split is not laid out yet.
    NotYet,
    /// It has settled before.
    Already,
    /// Move the seam here, then let the fixed part shrink to this.
    Now { position: i32, request: i32 },
}

/// What a seam that was dragged asks for.
#[derive(Clone, Copy, Debug, PartialEq, Eq, Structural)]
pub struct SeamResult {
    /// Move the seam here.
    pub seam: Option<i32>,
    /// Store this size.
    pub store: Option<i32>,
}

/// What making a split settle asks for.
#[derive(Clone, Copy, Debug, PartialEq, Eq, Structural)]
pub struct Settled {
    /// Move the seam here.
    pub seam: Option<i32>,
    /// Let the fixed part shrink to this.
    pub request: Option<i32>,
}

/// What a seam that is somewhere else asks for: the seam is moved first, then the
/// fixed part asked to shrink, then the size stored.
#[derive(Clone, Copy, Debug, PartialEq, Eq, Structural)]
pub struct PositionResult {
    /// Move the seam here.
    pub seam: Option<i32>,
    /// Let the fixed part shrink to this.
    pub request: Option<i32>,
    /// Store this size.
    pub store: Option<i32>,
}

/// A number, where there is one, as a mathematical one.
pub open spec fn as_int(n: Option<i32>) -> Option<int> {
    match n {
        Some(n) => Some(n as int),
        None => None,
    }
}

impl Sizing {
    /// A split that has not settled.
    pub fn new(fixed: SplitChild, size: i32, minimum: i32) -> (s: Sizing)
        ensures
            s == (Sizing {
                fixed,
                size,
                handle: UNMEASURED,
                minimum,
                adjusting: false,
                length: 0,
            }),
    {
        Sizing { fixed, size, handle: UNMEASURED, minimum, adjusting: false, length: 0 }
    }

    /// Whether the split has settled.
    pub open spec fn settled(self) -> bool {
        self.handle != UNMEASURED
    }

    /// Settle the split as soon as it is laid out: the seam goes where the fixed
    /// part has its stored size.
    pub fn settle(&mut self, total: i32, start: i32, end: i32) -> (r: Settle)
        requires
            start >= 0,
            end >= 0,
            total - old(self).size <= i32::MAX,
        ensures
            *final(self) == old(self).after_settling(total as int, start as int, end as int),
            if old(self).settled() {
                r == Settle::Already && *final(self) == *old(self)
            } else if !laid_out(total as int, start as int, end as int) {
                r == Settle::NotYet && *final(self) == *old(self)
            } else {
                let handle = total - start - end;
                &&& r matches Settle::Now { position, request }
                &&& position_spec(old(self).fixed, old(self).size as int, total as int, handle)
                    == Some(position as int)
                &&& request == at_least(old(self).minimum as int, -1)
                &&& *final(self) == (Sizing {
                    handle: handle as i32,
                    length: total,
                    ..*old(self)
                })
                &&& final(self).settled()
            },
    {
        if self.handle != UNMEASURED {
            return Settle::Already;
        }
        let measured: i32 = match measure_handle(total, start, end) {
            Some(m) => m,
            None => {
                return Settle::NotYet;
            },
        };
        match position_for(self.fixed, self.size, total, measured) {
            None => Settle::NotYet,
            Some(position) => {
                self.handle = measured;
                self.length = total;
                Settle::Now { position, request: size_request(self.minimum) }
            },
        }
    }

    /// Whether the settling tick goes on after this many frames.
    pub fn keep_trying(&self, frames: u32) -> (r: bool)
        ensures
            r == (!self.settled() && frames < SETTLE_FRAMES),
    {
        self.handle == UNMEASURED && frames < SETTLE_FRAMES
    }

    /// Make the split settle, before its seam is dragged: it settles if it has not,
    /// and once it has, the fixed part may shrink to its least size.
    pub fn make_settle(&mut self, total: i32, start: i32, end: i32) -> (r: Settled)
        requires
            start >= 0,
            end >= 0,
            total - old(self).size <= i32::MAX,
        ensures
            *final(self) == old(self).after_settling(total as int, start as int, end as int),
            r.request == (if final(self).settled() {
                Some(at_least(old(self).minimum as int, -1) as i32)
            } else {
                None
            }),
            as_int(r.seam) == (if old(self).settled() || !final(self).settled() {
                None
            } else {
                position_spec(
                    old(self).fixed,
                    old(self).size as int,
                    total as int,
                    total - start - end,
                )
            }),
    {
        match self.settle(total, start, end) {
            Settle::NotYet => Settled { seam: None, request: None },
            Settle::Already => Settled { seam: None, request: Some(size_request(self.minimum)) },
            Settle::Now { position, request } => Settled {
                seam: Some(position),
                request: Some(request),
            },
        }
    }

    /// The sizing once it was tried to settle.
    pub open spec fn after_settling(self, total: int, start: int, end: int) -> Sizing {
        if self.settled() || !laid_out(total, start, end) {
            self
        } else {
            Sizing { handle: (total - start - end) as i32, length: total as i32, ..self }
        }
    }

    /// Whether it is the seam that was moved, and not the split that has another
    /// length than when the seam was last heard of.
    pub fn seam_moved(&mut self, total: i32) -> (r: bool)
        ensures
            r == (old(self).length == total),
            *final(self) == (Sizing { length: total, ..*old(self) }),
    {
        let before: i32 = self.length;
        self.length = total;
        before == total
    }

    /// Whether the fixed part is to have a size, when the seam gives it another: a
    /// panel that cannot be resized keeps its stored one, any other panel takes the
    /// one it snaps to, and what is no panel takes what it is given. `panel` tells of
    /// a panel whether it can be resized.
    pub open spec fn wants<F: Fn(i32) -> i32>(
        self,
        panel: Option<bool>,
        snap: F,
        size: i32,
        wanted: i32,
    ) -> bool {
        match panel {
            Some(false) => wanted == self.size,
            Some(true) => call_ensures(snap, (size,), wanted),
            None => wanted == size,
        }
    }

    /// What a seam that gives the fixed part a size leads to: the part takes the size
    /// it wants. `settled_at` is where settling has just put the seam, if it has.
    pub open spec fn leads_to<F: Fn(i32) -> i32>(
        self,
        size: i32,
        total: int,
        settled_at: Option<int>,
        panel: Option<bool>,
        snap: F,
        r: PositionResult,
    ) -> bool {
        exists|wanted: i32|
            {
                &&& #[trigger] self.wants(panel, snap, size, wanted)
                &&& r.store == (if panel == Some(false) {
                    None
                } else {
                    Some(wanted)
                })
                &&& as_int(r.seam) == (if wanted != size {
                    position_spec(self.fixed, wanted as int, total, self.handle as int)
                } else {
                    settled_at
                })
            }
    }

    /// The seam is somewhere else. Not while it is being moved from here; a split
    /// that has not settled does so first, and then its seam is where settling puts
    /// it; and where the split itself has another length than before, nothing else
    /// follows. The fixed part then takes the size it wants, for which the seam may
    /// have to move once more, and the size is stored unless the part is locked.
    pub fn on_position<F: Fn(i32) -> i32>(
        &mut self,
        position: i32,
        total: i32,
        start: i32,
        end: i32,
        panel: Option<bool>,
        snap: F,
    ) -> (r: PositionResult)
        requires
            old(self).handle >= UNMEASURED,
            start >= 0,
            end >= 0,
            total - position <= i32::MAX,
            total - old(self).size <= i32::MAX,
            forall|size: i32| size >= 0 ==> #[trigger] call_requires(snap, (size,)),
            forall|size: i32, wanted: i32|
                size >= 0 && #[trigger] call_ensures(snap, (size,), wanted) ==> total - wanted
                    <= i32::MAX,
        ensures
            ({
                let now = old(self).after_settling(total as int, start as int, end as int);
                let settled_at = if old(self).settled() {
                    None
                } else {
                    position_spec(now.fixed, now.size as int, total as int, now.handle as int)
                };
                let at = match settled_at {
                    Some(p) => p,
                    None => position as int,
                };
                let size = size_spec(now.fixed, at, total as int, now.handle as int);
                if old(self).adjusting || !now.settled() {
                    &&& *final(self) == *old(self)
                    &&& r == (PositionResult { request: None, seam: None, store: None })
                } else {
                    &&& *final(self) == (Sizing { length: total, ..now })
                    &&& r.request == (if old(self).settled() {
                        None
                    } else {
                        Some(at_least(now.minimum as int, -1) as i32)
                    })
                    &&& if now.length != total || size is None {
                        r.seam is None && r.store is None
                    } else {
                        now.leads_to(
                            size->Some_0 as i32,
                            total as int,
                            settled_at,
                            panel,
                            snap,
                            r,
                        )
                    }
                }
            }),
    {
        let nothing = PositionResult { request: None, seam: None, store: None };
        if self.adjusting {
            return nothing;
        }
        let (at, request, settled_at): (i32, Option<i32>, Option<i32>) = match self.settle(
            total,
            start,
            end,
        ) {
            Settle::NotYet => {
                return nothing;
            },
            Settle::Already => (position, None, None),
            Settle::Now { position, request } => (position, Some(request), Some(position)),
        };
        if !self.seam_moved(total) {
            return PositionResult { request, seam: None, store: None };
        }
        let size: i32 = match size_of(self.fixed, at, total, self.handle) {
            Some(size) => size,
            None => {
                return PositionResult { request, seam: None, store: None };
            },
        };
        let wanted: i32 = match panel {
            Some(true) => snap(size),
            Some(false) => self.size,
            None => size,
        };
        let ghost now = old(self).after_settling(total as int, start as int, end as int);
        assert(now.wants(panel, snap, size, wanted));
        let result = self.seam_result(size, wanted, seam_resizable(panel) == false, total);
        let seam = match result.seam {
            Some(p) => Some(p),
            None => if wanted != size {
                None
            } else {
                settled_at
            },
        };
        PositionResult { request, seam, store: result.store }
    }

    /// What a dragged seam leads to: a part that is locked goes back to its stored
    /// size and stores nothing; any other takes the size it snaps to.
    pub fn seam_result(&self, size: i32, snapped: i32, locked: bool, total: i32) -> (r: SeamResult)
        requires
            total - self.handle - self.size <= i32::MAX,
            total - self.handle - snapped <= i32::MAX,
        ensures
            ({
                let wanted = if locked {
                    self.size
                } else {
                    snapped
                };
                &&& r.store == (if locked {
                    None
                } else {
                    Some(snapped)
                })
                &&& if wanted == size {
                    r.seam is None
                } else {
                    match r.seam {
                        Some(p) => position_spec(
                            self.fixed,
                            wanted as int,
                            total as int,
                            self.handle as int,
                        ) == Some(p as int),
                        None => position_spec(
                            self.fixed,
                            wanted as int,
                            total as int,
                            self.handle as int,
                        ) is None,
                    }
                }
            }),
    {
        let wanted: i32 = if locked {
            self.size
        } else {
            snapped
        };
        let seam = if wanted != size {
            position_for(self.fixed, wanted, total, self.handle)
        } else {
            None
        };
        SeamResult {
            seam,
            store: if locked {
                None
            } else {
                Some(wanted)
            },
        }
    }
}

/// A split of the layout: where it is in the tree, how it is cut, and the panel
/// that is its fixed part, if it is one.
pub struct SplitInfo {
    pub path: Vec<SplitChild>,
    pub axis: Axis,
    pub fixed: SplitChild,
    pub size: i32,
    pub panel: Option<PanelId>,
}

/// A split as a value.
pub ghost struct SplitView {
    pub path: Seq<SplitChild>,
    pub axis: Axis,
    pub fixed: SplitChild,
    pub size: i32,
    pub panel: Option<PanelId>,
}

impl View for SplitInfo {
    type V = SplitView;

    open spec fn view(&self) -> SplitView {
        SplitView {
            path: self.path@,
            axis: self.axis,
            fixed: self.fixed,
            size: self.size,
            panel: self.panel,
        }
    }
}

/// The panel that a part is, if it is one.
pub open spec fn panel_of(node: LayoutNode) -> Option<PanelId> {
    match node {
        LayoutNode::Panel(id) => Some(id),
        _ => None,
    }
}

/// The splits of a part that stands at the end of a path, each after those inside
/// it.
pub open spec fn splits_of(node: LayoutNode, path: Seq<SplitChild>) -> Seq<SplitView>
    decreases node,
{
    match node {
        LayoutNode::Split { axis, fixed, size, first, second } => (splits_of(
            *first,
            path.push(SplitChild::First),
        ) + splits_of(*second, path.push(SplitChild::Second))).push(
            SplitView {
                path,
                axis,
                fixed,
                size,
                panel: panel_of(
                    if fixed == SplitChild::First {
                        *first
                    } else {
                        *second
                    },
                ),
            },
        ),
        _ => Seq::empty(),
    }
}

/// The splits as values.
pub open spec fn split_views(splits: Seq<SplitInfo>) -> Seq<SplitView> {
    Seq::new(splits.len(), |i: int| splits[i]@)
}

/// A path one step longer.
fn step(path: &Vec<SplitChild>, child: SplitChild) -> (r: Vec<SplitChild>)
    ensures
        r@ == path@.push(child),
{
    let mut longer: Vec<SplitChild> = Vec::with_capacity(path.len());
    let mut i: usize = 0;
    while i < path.len()
        invariant
            i <= path.len(),
            longer@ == path@.take(i as int),
        decreases path.len() - i,
    {
        longer.push(path[i]);
        assert(longer@ =~= path@.take(i + 1));
        i = i + 1;
    }
    assert(path@.take(i as int) =~= path@);
    longer.push(child);
    longer
}

/// Collect the splits of a part that stands at the end of a path.
pub fn collect_splits(node: &LayoutNode, path: Vec<SplitChild>, out: &mut Vec<SplitInfo>)
    ensures
        split_views(final(out)@) == split_views(old(out)@) + splits_of(*node, path@),
    decreases node,
{
    let ghost before = split_views(out@);
    match node {
        LayoutNode::Split { axis, fixed, size, first, second } => {
            let ghost here = path@;
            collect_splits(first, step(&path, SplitChild::First), out);
            collect_splits(second, step(&path, SplitChild::Second), out);
            let part: &LayoutNode = match fixed {
                SplitChild::First => first,
                SplitChild::Second => second,
            };
            let panel = match part {
                LayoutNode::Panel(id) => Some(*id),
                _ => None,
            };
            let ghost inner = split_views(out@);
            let info = SplitInfo { path, axis: *axis, fixed: *fixed, size: *size, panel };
            let ghost view = info@;
            out.push(info);
            proof {
                assert(split_views(out@) =~= inner.push(view));
                assert(split_views(out@) =~= before + splits_of(*node, here));
            }
        },
        _ => {
            assert(split_views(out@) =~= before + splits_of(*node, path@));
        },
    }
}

/// The splits of a layout, each after those inside it.
pub fn build_splits(root: &LayoutNode) -> (out: Vec<SplitInfo>)
    ensures
        split_views(out@) == splits_of(*root, Seq::empty()),
{
    let mut out: Vec<SplitInfo> = Vec::new();
    let path: Vec<SplitChild> = Vec::new();
    assert(path@ =~= Seq::empty());
    assert(split_views(out@) =~= Seq::empty());
    collect_splits(root, path, &mut out);
    assert(split_views(out@) =~= splits_of(*root, Seq::empty()));
    out
}

/// The part at the end of a path.
pub open spec fn part_at(node: LayoutNode, path: Seq<SplitChild>) -> Option<LayoutNode>
    decreases path.len(),
{
    if path.len() == 0 {
        Some(node)
    } else {
        match node {
            LayoutNode::Split { first, second, .. } => if path[0] == SplitChild::First {
                part_at(*first, path.skip(1))
            } else {
                part_at(*second, path.skip(1))
            },
            _ => None,
        }
    }
}

proof fn lemma_part_step(node: LayoutNode, path: Seq<SplitChild>, child: SplitChild)
    ensures
        part_at(node, path.push(child)) == (match part_at(node, path) {
            Some(LayoutNode::Split { first, second, .. }) => Some(
                if child == SplitChild::First {
                    *first
                } else {
                    *second
                },
            ),
            _ => None,
        }),
    decreases path.len(),
{
    if path.len() == 0 {
        assert(path.push(child).skip(1) =~= Seq::empty());
        reveal_with_fuel(part_at, 2);
    } else {
        match node {
            LayoutNode::Split { first, second, .. } => {
                assert(path.push(child).skip(1) =~= path.skip(1).push(child));
                if path[0] == SplitChild::First {
                    lemma_part_step(*first, path.skip(1), child);
                } else {
                    lemma_part_step(*second, path.skip(1), child);
                }
            },
            _ => {},
        }
    }
}

proof fn lemma_size_at_part(node: LayoutNode, path: Seq<SplitChild>)
    ensures
        node.size_at(path) == (match part_at(node, path) {
            Some(LayoutNode::Split { size, .. }) => Some(size),
            _ => None,
        }),
    decreases path.len(),
{
    if path.len() > 0 {
        match node {
            LayoutNode::Split { first, second, .. } => {
                if path[0] == SplitChild::First {
                    lemma_size_at_part(*first, path.skip(1));
                } else {
                    lemma_size_at_part(*second, path.skip(1));
                }
            },
            _ => {},
        }
    }
}

proof fn lemma_splits_lead_home(
    root: LayoutNode,
    node: LayoutNode,
    path: Seq<SplitChild>,
    i: int,
)
    requires
        part_at(root, path) == Some(node),
        0 <= i < splits_of(node, path).len(),
    ensures
        root.size_at(splits_of(node, path)[i].path) == Some(splits_of(node, path)[i].size),
    decreases node,
{
    match node {
        LayoutNode::Split { axis, fixed, size, first, second } => {
            let a = splits_of(*first, path.push(SplitChild::First));
            let b = splits_of(*second, path.push(SplitChild::Second));
            lemma_part_step(root, path, SplitChild::First);
            lemma_part_step(root, path, SplitChild::Second);
            if i < a.len() {
                lemma_splits_lead_home(root, *first, path.push(SplitChild::First), i);
            } else if i < a.len() + b.len() {
                lemma_splits_lead_home(
                    root,
                    *second,
                    path.push(SplitChild::Second),
                    i - a.len(),
                );
            } else {
                lemma_size_at_part(root, path);
            }
        },
        _ => {},
    }
}

/// A size dragged at a seam is stored with the split whose seam it is: every
/// split's path leads back to it, and setting the size there sets that split's.
pub proof fn law_dragged_size_reaches_its_split(root: LayoutNode, i: int, px: i32)
    requires
        0 <= i < splits_of(root, Seq::empty()).len(),
    ensures
        ({
            let s = splits_of(root, Seq::empty())[i];
            &&& root.size_at(s.path) == Some(s.size)
            &&& root.with_size(s.path, px).size_at(s.path) == Some(px)
            &&& root.with_size(s.path, px).leaves() == root.leaves()
        }),
{
    lemma_splits_lead_home(root, root, Seq::empty(), i);
    crate::layout::law_resizing_moves_nothing(root, splits_of(root, Seq::empty())[i].path, px);
}

/// Whether a seam can be dragged: a panel that is the fixed part may lock it.
pub fn seam_resizable(panel_resizable: Option<bool>) -> (r: bool)
    ensures
        r == (panel_resizable != Some(false)),
{
    match panel_resizable {
        Some(r) => r,
        None => true,
    }
}

/// What putting a panel's widget into the dock does.
#[derive(Clone, Copy, Debug, PartialEq, Eq, Structural)]
pub enum SlotFill {
    /// Take it out of wherever it is: the layout has no place for it.
    Detach,
    /// It is there already.
    Nothing,
    /// Empty the place and put it in.
    Put,
}

/// What putting a panel's widget into the dock does.
pub fn slot_fill(has_slot: bool, in_slot: bool) -> (f: SlotFill)
    ensures
        f == (if !has_slot {
            SlotFill::Detach
        } else if in_slot {
            SlotFill::Nothing
        } else {
            SlotFill::Put
        }),
{
    if !has_slot {
        SlotFill::Detach
    } else if in_slot {
        SlotFill::Nothing
    } else {
        SlotFill::Put
    }
}

/// A seam before the fixed part leaves the part what the seam's thickness and position
/// leave of the split; a fixed part before the seam ends where the seam is. No part is
/// less than nothing, and only a fixed part behind the seam waits for the split to have
/// a length.
pub proof fn law_parts_and_seam_fill_the_split(position: int, total: int, handle: int)
    ensures
        position >= 0 ==> size_spec(SplitChild::First, position, total, handle) == Some(position),
        position < 0 ==> size_spec(SplitChild::First, position, total, handle) == Some(0int),
        size_spec(SplitChild::Second, position, total, handle) is None <==> total <= 0,
        total > 0 && position + handle <= total ==> size_spec(
            SplitChild::Second,
            position,
            total,
            handle,
        )->0 + handle + position == total,
        total > 0 && position + handle > total ==> size_spec(
            SplitChild::Second,
            position,
            total,
            handle,
        ) == Some(0int),
        position >= 0 ==> position_spec(SplitChild::First, position, total, handle) == Some(
            position,
        ),
        position < 0 ==> position_spec(SplitChild::First, position, total, handle) == Some(0int),
        position_spec(SplitChild::Second, position, total, handle) is None <==> total <= 0,
        total > 0 && position + handle <= total ==> position_spec(
            SplitChild::Second,
            position,
            total,
            handle,
        )->0 + handle + position == total,
        total > 0 && position + handle > total ==> position_spec(
            SplitChild::Second,
            position,
            total,
            handle,
        ) == Some(0int),
{
}

/// What is at least a floor is the number or the floor, and below neither.
pub proof fn law_at_least_is_the_greater(n: int, floor: int)
    ensures
        at_least(n, floor) >= n,
        at_least(n, floor) >= floor,
        at_least(n, floor) == n || at_least(n, floor) == floor,
{
}

/// A seam is as thick as what the parts leave of the split, once the split has a length
/// and its parts have some of it.
pub proof fn law_measured_seam_fills_the_split(total: i32, start: i32, end: i32, r: Option<i32>)
    requires
        start >= 0,
        end >= 0,
        call_ensures(measure_handle, (total, start, end), r),
    ensures
        r matches Some(handle) ==> handle + start + end == total && handle >= 0 && total > 0,
        r is None <==> total <= 0 || (start == 0 && end == 0) || start + end > total,
{
}

/// A split settles once, when it is first found laid out: then its seam is measured,
/// the seam goes where the fixed part has its stored size, and the part may shrink to
/// its least size. Before and after, settling changes nothing.
pub proof fn law_a_split_settles_once(
    s: &mut Sizing,
    total: i32,
    start: i32,
    end: i32,
    r: Settle,
)
    requires
        start >= 0,
        end >= 0,
        total - old(s).size <= i32::MAX,
        call_ensures(Sizing::settle, (s, total, start, end), r),
    ensures
        r is Already <==> old(s).handle != UNMEASURED,
        r is Now <==> old(s).handle == UNMEASURED && total > 0 && start + end > 0 && start + end
            <= total,
        !(r is Now) ==> *final(s) == *old(s),
        r matches Settle::Now { position, request } ==> {
            &&& final(s).handle + start + end == total
            &&& final(s).length == total
            &&& final(s).size == old(s).size && final(s).fixed == old(s).fixed
            &&& final(s).minimum == old(s).minimum && final(s).adjusting == old(s).adjusting
            &&& old(s).size >= 0 && old(s).size + final(s).handle <= total ==> size_spec(
                old(s).fixed,
                position as int,
                total as int,
                final(s).handle as int,
            ) == Some(old(s).size as int)
            &&& old(s).minimum >= 0 ==> request == old(s).minimum
            &&& old(s).minimum < 0 ==> request == -1
        },
{
}

/// Before its seam is dragged a split is made to settle: the fixed part may shrink from
/// then on, whether it settles now or did before, and the seam moves only where it
/// settles now.
pub proof fn law_made_to_settle(
    s: &mut Sizing,
    total: i32,
    start: i32,
    end: i32,
    r: Settled,
)
    requires
        start >= 0,
        end >= 0,
        total - old(s).size <= i32::MAX,
        call_ensures(Sizing::make_settle, (s, total, start, end), r),
    ensures
        r.request is Some <==> final(s).settled(),
        r.seam is Some <==> !old(s).settled() && final(s).settled(),
        old(s).settled() ==> *final(s) == *old(s),
        final(s).settled() <==> old(s).settled() || (total > 0 && start + end > 0 && start + end
            < total + 1),
        r.request matches Some(px) ==> px >= -1 && (old(s).minimum >= -1 ==> px == old(s).minimum),
{
}

/// A seam that something else moves is left alone while it is dragged from here and
/// until the split has settled. Where the split has another length than before, the
/// seam was not what moved, and nothing is stored. What is locked is never stored; what
/// is no panel takes the size that the seam gives it.
pub proof fn law_what_a_moved_seam_leads_to<F: Fn(i32) -> i32>(
    s: &mut Sizing,
    position: i32,
    total: i32,
    start: i32,
    end: i32,
    panel: Option<bool>,
    snap: F,
    r: PositionResult,
)
    requires
        old(s).handle >= UNMEASURED,
        start >= 0,
        end >= 0,
        total - position <= i32::MAX,
        total - old(s).size <= i32::MAX,
        call_ensures(Sizing::on_position::<F>, (s, position, total, start, end, panel, snap), r),
    ensures
        old(s).adjusting ==> r.seam is None && r.store is None && r.request is None && *final(s)
            == *old(s),
        !old(s).settled() && !laid_out(total as int, start as int, end as int) ==> r.seam is None
            && r.store is None && *final(s) == *old(s),
        old(s).settled() && old(s).length != total ==> r.seam is None && r.store is None,
        panel == Some(false) ==> r.store is None,
        final(s).size == old(s).size && final(s).fixed == old(s).fixed && final(s).minimum
            == old(s).minimum && final(s).adjusting == old(s).adjusting,
        r.request is Some <==> !old(s).adjusting && !old(s).settled() && final(s).settled(),
        !old(s).adjusting && old(s).settled() && old(s).length == total && panel is None
            && old(s).fixed == SplitChild::First && position >= 0 ==> r.store == Some(position)
            && r.seam is None,
        !old(s).adjusting && old(s).settled() && old(s).length == total && panel == Some(false)
            && old(s).fixed == SplitChild::First && position >= 0 && old(s).size >= 0 ==> (
        if position == old(s).size {
            r.seam is None
        } else {
            r.seam == Some(old(s).size)
        }),
        !old(s).adjusting && old(s).settled() && old(s).length == total && panel == Some(true)
            && old(s).fixed == SplitChild::First && position >= 0 ==> r.store is Some
            && call_ensures(snap, (position,), r.store->0),
{
}

/// A dragged seam of a locked part goes back to the stored size and stores nothing; any
/// other is stored where it snapped to, and moves only where it is not there already.
pub proof fn law_what_a_dragged_seam_leads_to(
    s: Sizing,
    size: i32,
    snapped: i32,
    locked: bool,
    total: i32,
    r: SeamResult,
)
    requires
        total - s.handle - s.size <= i32::MAX,
        total - s.handle - snapped <= i32::MAX,
        call_ensures(Sizing::seam_result, (&s, size, snapped, locked, total), r),
    ensures
        locked <==> r.store is None,
        r.store matches Some(px) ==> px == snapped,
        !locked && snapped == size ==> r.seam is None,
        locked && s.size == size ==> r.seam is None,
        !locked && snapped != size && s.fixed == SplitChild::First && snapped >= 0 ==> r.seam
            == Some(snapped),
        locked && s.size != size && s.fixed == SplitChild::First && s.size >= 0 ==> r.seam == Some(
            s.size,
        ),
        !locked && snapped != size && s.fixed == SplitChild::Second && total > 0 && snapped
            + s.handle <= total ==> r.seam is Some && r.seam->0 + s.handle + snapped == total,
        locked && s.size != size && s.fixed == SplitChild::Second && total > 0 && s.size + s.handle
            <= total ==> r.seam is Some && r.seam->0 + s.handle + s.size == total,
{
}

proof fn lemma_splits_are_as_they_stand(
    root: LayoutNode,
    node: LayoutNode,
    path: Seq<SplitChild>,
    i: int,
)
    requires
        part_at(root, path) == Some(node),
        0 <= i < splits_of(node, path).len(),
    ensures
        ({
            let s = splits_of(node, path)[i];
            &&& part_at(root, s.path) matches Some(LayoutNode::Split {
                axis,
                fixed,
                size,
                first,
                second,
            })
            &&& s.axis == axis && s.fixed == fixed && s.size == size
            &&& fixed == SplitChild::First ==> s.panel == panel_of(*first)
            &&& fixed == SplitChild::Second ==> s.panel == panel_of(*second)
        }),
    decreases node,
{
    match node {
        LayoutNode::Split { axis, fixed, size, first, second } => {
            let a = splits_of(*first, path.push(SplitChild::First));
            let b = splits_of(*second, path.push(SplitChild::Second));
            lemma_part_step(root, path, SplitChild::First);
            lemma_part_step(root, path, SplitChild::Second);
            if i < a.len() {
                lemma_splits_are_as_they_stand(root, *first, path.push(SplitChild::First), i);
            } else if i < a.len() + b.len() {
                lemma_splits_are_as_they_stand(
                    root,
                    *second,
                    path.push(SplitChild::Second),
                    i - a.len(),
                );
            }
        },
        _ => {},
    }
}

proof fn lemma_splits_counted(node: LayoutNode, path: Seq<SplitChild>)
    ensures
        splits_of(node, path).len() + 1 == node.leaves().len(),
    decreases node,
{
    match node {
        LayoutNode::Split { first, second, .. } => {
            lemma_splits_counted(*first, path.push(SplitChild::First));
            lemma_splits_counted(*second, path.push(SplitChild::Second));
        },
        _ => {},
    }
}

/// Every split is listed as it stands at the end of its path: cut as it is, with its
/// size, and with the panel that is its fixed part, if that is one. There is one for
/// each leaf but one.
pub proof fn law_splits_are_listed_as_they_stand(root: LayoutNode, i: int)
    ensures
        splits_of(root, Seq::empty()).len() + 1 == root.leaves().len(),
        0 <= i < splits_of(root, Seq::empty()).len() ==> ({
            let s = splits_of(root, Seq::empty())[i];
            &&& part_at(root, s.path) matches Some(LayoutNode::Split {
                axis,
                fixed,
                size,
                first,
                second,
            })
            &&& s.axis == axis && s.fixed == fixed && s.size == size
            &&& s.panel is Some && fixed == SplitChild::First ==> *first == LayoutNode::Panel(
                s.panel->0,
            )
            &&& s.panel is Some && fixed == SplitChild::Second ==> *second == LayoutNode::Panel(
                s.panel->0,
            )
            &&& s.panel is None && fixed == SplitChild::First ==> !(*first is Panel)
            &&& s.panel is None && fixed == SplitChild::Second ==> !(*second is Panel)
        }),
{
    lemma_splits_counted(root, Seq::empty());
    if 0 <= i < splits_of(root, Seq::empty()).len() {
        lemma_splits_are_as_they_stand(root, root, Seq::empty(), i);
    }
}

/// Only a panel locks a seam, and only one that says so; a widget is put where the
/// layout has a place for it and it is not there yet, and taken out where the layout
/// has none.
pub proof fn law_seams_and_slots(
    panel: Option<bool>,
    drags: bool,
    has_slot: bool,
    in_slot: bool,
    f: SlotFill,
)
    requires
        call_ensures(seam_resizable, (panel,), drags),
        call_ensures(slot_fill, (has_slot, in_slot), f),
    ensures
        !drags <==> panel == Some(false),
        f is Detach <==> !has_slot,
        f is Put <==> has_slot && !in_slot,
{
}

/// Once a split has settled, a seam that something else moved gives the fixed part a size
/// by where it is. What is no panel takes that size; a panel takes the size that it
/// snaps to; and a locked one its stored size, which is not stored again. The seam moves
/// once more exactly where the size is another, and then to where the part has it.
pub proof fn law_a_moved_seam_gives_the_part_its_size<F: Fn(i32) -> i32>(
    s: &mut Sizing,
    position: i32,
    total: i32,
    start: i32,
    end: i32,
    panel: Option<bool>,
    snap: F,
    r: PositionResult,
    size: i32,
)
    requires
        old(s).handle >= 0,
        start >= 0,
        end >= 0,
        total - position <= i32::MAX,
        total - old(s).size <= i32::MAX,
        !old(s).adjusting,
        old(s).length == total,
        size_spec(old(s).fixed, position as int, total as int, old(s).handle as int) == Some(
            size as int,
        ),
        call_ensures(Sizing::on_position::<F>, (s, position, total, start, end, panel, snap), r),
    ensures
        r.request is None,
        *final(s) == *old(s),
        panel is None ==> r.store == Some(size) && r.seam is None,
        panel == Some(true) ==> r.store is Some && call_ensures(snap, (size,), r.store->0),
        panel == Some(true) && r.store == Some(size) ==> r.seam is None,
        panel == Some(true) && r.store != Some(size) ==> as_int(r.seam) == position_spec(
            old(s).fixed,
            r.store->0 as int,
            total as int,
            old(s).handle as int,
        ),
        panel == Some(false) ==> r.store is None,
        panel == Some(false) && size == old(s).size ==> r.seam is None,
        panel == Some(false) && size != old(s).size ==> as_int(r.seam) == position_spec(
            old(s).fixed,
            old(s).size as int,
            total as int,
            old(s).handle as int,
        ),
{
}

/// A split that settles only now has its seam put where its stored size says, whatever
/// the seam's position was, and its part may shrink from then on.
pub proof fn law_a_seam_settles_before_it_moves<F: Fn(i32) -> i32>(
    s: &mut Sizing,
    position: i32,
    total: i32,
    start: i32,
    end: i32,
    snap: F,
    r: PositionResult,
)
    requires
        old(s).handle == UNMEASURED,
        old(s).size >= 0,
        start >= 0,
        end >= 0,
        total - position <= i32::MAX,
        total - old(s).size <= i32::MAX,
        !old(s).adjusting,
        laid_out(total as int, start as int, end as int),
        old(s).size + (total - start - end) <= total,
        call_ensures(
            Sizing::on_position::<F>,
            (s, position, total, start, end, None::<bool>, snap),
            r,
        ),
    ensures
        final(s).handle == total - start - end,
        final(s).length == total,
        r.request is Some,
        r.store == Some(old(s).size),
        as_int(r.seam) == position_spec(
            old(s).fixed,
            old(s).size as int,
            total as int,
            total - start - end,
        ),
{
    law_size_and_position_agree(
        old(s).fixed,
        old(s).size as int,
        total as int,
        total - start - end,
    );
}

/// A split is tried until it has settled, for a hundred and twenty frames at most. A
/// split of another length than last heard of is what moved, and not its seam.
pub proof fn law_settling_is_tried_for_a_while(
    s: Sizing,
    frames: u32,
    again: bool,
    t: &mut Sizing,
    total: i32,
    moved: bool,
)
    requires
        call_ensures(Sizing::keep_trying, (&s, frames), again),
        call_ensures(Sizing::seam_moved, (t, total), moved),
    ensures
        again <==> s.handle == -1 && frames < 120,
        moved <==> old(t).length == total,
        final(t).length == total,
        final(t).size == old(t).size && final(t).handle == old(t).handle && final(t).fixed
            == old(t).fixed,
{
}

/// Settling measures the seam and the split's length, and leaves which part is fixed, its
/// stored size and its least size.
pub proof fn law_settling_keeps_the_stored_size(
    s: &mut Sizing,
    total: i32,
    start: i32,
    end: i32,
    r: Settle,
    t: &mut Sizing,
    made: Settled,
)
    requires
        start >= 0,
        end >= 0,
        total - old(s).size <= i32::MAX,
        call_ensures(Sizing::settle, (s, total, start, end), r),
        total - old(t).size <= i32::MAX,
        call_ensures(Sizing::make_settle, (t, total, start, end), made),
    ensures
        final(s).fixed == old(s).fixed && final(s).size == old(s).size && final(s).minimum == old(
            s,
        ).minimum && final(s).adjusting == old(s).adjusting,
        final(t).fixed == old(t).fixed && final(t).size == old(t).size && final(t).minimum == old(
            t,
        ).minimum && final(t).adjusting == old(t).adjusting,
{
}

} // verus!

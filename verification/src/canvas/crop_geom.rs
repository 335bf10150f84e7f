//! The crop rectangle: which handle the pointer is on, what a drag of it moves,
//! and which canvas border an edge snaps to.

use vstd::prelude::*;

use crate::geometry::Point;
use crate::ieee::Single;

verus! {

/// How near a handle the pointer grabs it, ten pixels.
pub const HANDLE_R: u32 = 0x4120_0000;

/// An axis of the canvas.
#[derive(Clone, Copy, Debug, PartialEq, Eq, Structural)]
pub enum Axis {
    X,
    Y,
}

impl Axis {
    /// The other axis.
    pub open spec fn other(self) -> Axis {
        match self {
            Axis::X => Axis::Y,
            Axis::Y => Axis::X,
        }
    }

    /// The other axis.
    pub fn cross(self) -> (a: Axis)
        ensures
            a == self.other(),
    {
        match self {
            Axis::X => Axis::Y,
            Axis::Y => Axis::X,
        }
    }
}

/// Crossing twice comes back, and crossing once never stays.
pub proof fn law_cross_is_an_involution(a: Axis)
    ensures
        a.other().other() == a,
        a.other() != a,
{
}

/// A part of the crop rectangle that can be dragged.
#[derive(Clone, Copy, Debug, PartialEq, Eq, Structural)]
pub enum CropHandle {
    /// Nothing.
    Nothing,
    /// The empty canvas: a new rectangle.
    NewRect,
    /// The inside: the whole rectangle.
    Move,
    TopLeft,
    TopRight,
    BottomLeft,
    BottomRight,
    TopMid,
    BottomMid,
    MidLeft,
    MidRight,
}

impl CropHandle {
    /// The cursor over the handle.
    pub open spec fn cursor(self) -> &'static str {
        match self {
            CropHandle::Nothing | CropHandle::NewRect => "crosshair",
            CropHandle::Move => "move",
            CropHandle::TopLeft | CropHandle::BottomRight => "nwse-resize",
            CropHandle::TopRight | CropHandle::BottomLeft => "nesw-resize",
            CropHandle::TopMid | CropHandle::BottomMid => "ns-resize",
            CropHandle::MidLeft | CropHandle::MidRight => "ew-resize",
        }
    }
}

/// The cursor over a crop handle.
pub fn cursor_name(handle: CropHandle) -> (name: &'static str)
    ensures
        name@ == handle.cursor()@,
{
    match handle {
        CropHandle::Nothing | CropHandle::NewRect => "crosshair",
        CropHandle::Move => "move",
        CropHandle::TopLeft | CropHandle::BottomRight => "nwse-resize",
        CropHandle::TopRight | CropHandle::BottomLeft => "nesw-resize",
        CropHandle::TopMid | CropHandle::BottomMid => "ns-resize",
        CropHandle::MidLeft | CropHandle::MidRight => "ew-resize",
    }
}

/// The crop rectangle on the widget by two opposite corners, with the pointer's
/// offsets from its sides and middles.
#[derive(Clone, Copy, Debug, PartialEq, Eq, Structural)]
pub struct CropFrame {
    pub x1: Single,
    pub y1: Single,
    pub x2: Single,
    pub y2: Single,
    /// From `x1`, from `x2` and from halfway between them.
    pub from_x1: Single,
    pub from_x2: Single,
    pub from_mid_x: Single,
    /// From `y1`, from `y2` and from halfway between them.
    pub from_y1: Single,
    pub from_y2: Single,
    pub from_mid_y: Single,
}

/// Whether an offset is within a handle's reach.
pub open spec fn in_reach(offset: Single) -> bool {
    (Single { bits: offset.magnitude() as u32 }).lt_spec(Single { bits: HANDLE_R })
}

/// Whether a coordinate lies between two others, either way round.
pub open spec fn between(v: Single, a: Single, b: Single) -> bool {
    (a.le_spec(v) || b.le_spec(v)) && (v.le_spec(a) || v.le_spec(b))
}

impl CropFrame {
    /// Whether the pointer is within reach of a handle's place.
    pub open spec fn near(self, handle: CropHandle) -> bool {
        let dx = match handle {
            CropHandle::TopLeft | CropHandle::BottomLeft | CropHandle::MidLeft => self.from_x1,
            CropHandle::TopRight | CropHandle::BottomRight | CropHandle::MidRight => self.from_x2,
            _ => self.from_mid_x,
        };
        let dy = match handle {
            CropHandle::TopLeft | CropHandle::TopRight | CropHandle::TopMid => self.from_y1,
            CropHandle::BottomLeft | CropHandle::BottomRight | CropHandle::BottomMid =>
                self.from_y2,
            _ => self.from_mid_y,
        };
        in_reach(dx) && in_reach(dy)
    }

    /// Whether the pointer is inside the rectangle.
    pub open spec fn holds(self, at: Point) -> bool {
        between(at.x, self.x1, self.x2) && between(at.y, self.y1, self.y2)
    }
}

/// The handles with a place of their own, in the order in which they are tried:
/// the corners before the middles of the sides.
pub open spec fn placed_handles() -> Seq<CropHandle> {
    seq![
        CropHandle::TopLeft,
        CropHandle::TopRight,
        CropHandle::BottomLeft,
        CropHandle::BottomRight,
        CropHandle::TopMid,
        CropHandle::BottomMid,
        CropHandle::MidLeft,
        CropHandle::MidRight,
    ]
}

/// Whether an offset is within a handle's reach.
fn reaches(offset: Single) -> (r: bool)
    ensures
        r == in_reach(offset),
{
    offset.abs().less(Single { bits: HANDLE_R })
}

/// Whether a coordinate lies between two others, either way round.
fn is_between(v: Single, a: Single, b: Single) -> (r: bool)
    ensures
        r == between(v, a, b),
{
    (a.at_most(v) || b.at_most(v)) && (v.at_most(a) || v.at_most(b))
}

/// Which handle the pointer is on: the first placed one within reach, else the
/// inside, else the empty canvas.
pub fn hit_test_widget(rect: Option<CropFrame>, at: Point) -> (h: CropHandle)
    ensures
        match rect {
            None => h == CropHandle::NewRect,
            Some(f) => {
                ||| exists|i: int| #![trigger placed_handles()[i]]
                    0 <= i < 8 && h == placed_handles()[i] && f.near(h) && forall|j: int|
                        0 <= j < i ==> !f.near(#[trigger] placed_handles()[j])
                ||| (forall|j: int| 0 <= j < 8 ==> !f.near(#[trigger] placed_handles()[j])) && h
                    == (if f.holds(at) {
                    CropHandle::Move
                } else {
                    CropHandle::NewRect
                })
            },
        },
{
    let f = match rect {
        None => {
            return CropHandle::NewRect;
        },
        Some(f) => f,
    };
    let left = reaches(f.from_x1);
    let right = reaches(f.from_x2);
    let mid_x = reaches(f.from_mid_x);
    let top = reaches(f.from_y1);
    let bottom = reaches(f.from_y2);
    let mid_y = reaches(f.from_mid_y);
    let ghost order = placed_handles();
    assert(order.len() == 8);
    assert(order[0] == CropHandle::TopLeft && order[1] == CropHandle::TopRight && order[2]
        == CropHandle::BottomLeft && order[3] == CropHandle::BottomRight);
    assert(order[4] == CropHandle::TopMid && order[5] == CropHandle::BottomMid && order[6]
        == CropHandle::MidLeft && order[7] == CropHandle::MidRight);
    if left && top {
        CropHandle::TopLeft
    } else if right && top {
        CropHandle::TopRight
    } else if left && bottom {
        CropHandle::BottomLeft
    } else if right && bottom {
        CropHandle::BottomRight
    } else if mid_x && top {
        CropHandle::TopMid
    } else if mid_x && bottom {
        CropHandle::BottomMid
    } else if left && mid_y {
        CropHandle::MidLeft
    } else if right && mid_y {
        CropHandle::MidRight
    } else if is_between(at.x, f.x1, f.x2) && is_between(at.y, f.y1, f.y2) {
        CropHandle::Move
    } else {
        CropHandle::NewRect
    }
}

/// One.
pub const SQUARE: u32 = 0x3f80_0000;

/// What a drag is held to.
#[derive(Clone, Copy, Debug, PartialEq, Eq, Structural)]
pub enum DragRatio {
    /// Nothing.
    Free,
    /// A ratio of width to height that was chosen.
    Locked(Single),
    /// A ratio that was chosen, with width and height traded.
    Turned(Single),
    /// A square.
    Square,
    /// The shape that the rectangle had when the drag began.
    StartShape,
}

/// Whether a ratio lies the other way than a rectangle: one of the two is upright and
/// the other is not.
pub open spec fn lies_across(ratio: Single, start: (Single, Single)) -> bool {
    ratio.lt_spec(Single { bits: SQUARE }) != start.0.lt_spec(start.1)
}

/// What a drag is held to: the chosen ratio, turned as the rectangle lies, or with
/// Shift held and none chosen, a square for a new rectangle and its own shape for one
/// that has an area. `start` is the width and the height of the rectangle.
pub fn drag_ratio(
    chosen: Option<Single>,
    shift: bool,
    handle: CropHandle,
    start: Option<(Single, Single)>,
) -> (r: DragRatio)
    ensures
        r == (match chosen {
            Some(ratio) => if start matches Some(size) && lies_across(ratio, size) {
                DragRatio::Turned(ratio)
            } else {
                DragRatio::Locked(ratio)
            },
            None => if !shift {
                DragRatio::Free
            } else if handle == CropHandle::NewRect {
                DragRatio::Square
            } else if start matches Some((w, h)) && (Single { bits: 0 }).lt_spec(w) && (Single {
                bits: 0,
            }).lt_spec(h) {
                DragRatio::StartShape
            } else {
                DragRatio::Free
            },
        }),
{
    match chosen {
        Some(ratio) => match start {
            Some((w, h)) => if ratio.less(Single { bits: SQUARE }) != w.less(h) {
                DragRatio::Turned(ratio)
            } else {
                DragRatio::Locked(ratio)
            },
            None => DragRatio::Locked(ratio),
        },
        None => {
            if !shift {
                return DragRatio::Free;
            }
            if handle == CropHandle::NewRect {
                return DragRatio::Square;
            }
            let zero = Single { bits: 0 };
            match start {
                Some((w, h)) => if zero.less(w) && zero.less(h) {
                    DragRatio::StartShape
                } else {
                    DragRatio::Free
                },
                None => DragRatio::Free,
            }
        },
    }
}

/// What a drag of a handle moves.
#[derive(Clone, Copy, Debug, PartialEq, Eq, Structural)]
pub enum CropDrag {
    /// A new rectangle from where the drag began.
    New,
    /// Nothing.
    Keep,
    /// The whole rectangle.
    Whole,
    /// A corner; the far one stays. `right` and `bottom` tell which corner moves.
    Corner { right: bool, bottom: bool },
    /// A side across the axis; the far one stays. `high` tells that it is the
    /// right or the bottom one.
    Side { axis: Axis, high: bool },
}

/// What a drag of a handle moves; nothing but a new rectangle where there is none
/// yet.
pub fn crop_drag(handle: CropHandle, has_rect: bool) -> (d: CropDrag)
    ensures
        d == (if handle == CropHandle::NewRect {
            CropDrag::New
        } else if !has_rect {
            CropDrag::Keep
        } else {
            match handle {
                CropHandle::Nothing | CropHandle::NewRect => CropDrag::Keep,
                CropHandle::Move => CropDrag::Whole,
                CropHandle::TopLeft => CropDrag::Corner { right: false, bottom: false },
                CropHandle::TopRight => CropDrag::Corner { right: true, bottom: false },
                CropHandle::BottomLeft => CropDrag::Corner { right: false, bottom: true },
                CropHandle::BottomRight => CropDrag::Corner { right: true, bottom: true },
                CropHandle::TopMid => CropDrag::Side { axis: Axis::Y, high: false },
                CropHandle::BottomMid => CropDrag::Side { axis: Axis::Y, high: true },
                CropHandle::MidLeft => CropDrag::Side { axis: Axis::X, high: false },
                CropHandle::MidRight => CropDrag::Side { axis: Axis::X, high: true },
            }
        }),
{
    if handle == CropHandle::NewRect {
        return CropDrag::New;
    }
    if !has_rect {
        return CropDrag::Keep;
    }
    match handle {
        CropHandle::Nothing | CropHandle::NewRect => CropDrag::Keep,
        CropHandle::Move => CropDrag::Whole,
        CropHandle::TopLeft => CropDrag::Corner { right: false, bottom: false },
        CropHandle::TopRight => CropDrag::Corner { right: true, bottom: false },
        CropHandle::BottomLeft => CropDrag::Corner { right: false, bottom: true },
        CropHandle::BottomRight => CropDrag::Corner { right: true, bottom: true },
        CropHandle::TopMid => CropDrag::Side { axis: Axis::Y, high: false },
        CropHandle::BottomMid => CropDrag::Side { axis: Axis::Y, high: true },
        CropHandle::MidLeft => CropDrag::Side { axis: Axis::X, high: false },
        CropHandle::MidRight => CropDrag::Side { axis: Axis::X, high: true },
    }
}

/// Where an offset's length stands in the total order.
pub open spec fn reach_of(offset: Single) -> int {
    offset.magnitude()
}

/// The place of the shortest offset, the first of them where several are.
pub open spec fn is_shortest(lengths: Seq<Single>, i: int) -> bool {
    &&& 0 <= i < lengths.len()
    &&& forall|j: int| 0 <= j < i ==> reach_of(lengths[i]) < reach_of(#[trigger] lengths[j])
    &&& forall|j: int|
        i < j < lengths.len() ==> reach_of(lengths[i]) <= reach_of(#[trigger] lengths[j])
}

/// The place of the shortest offset, the first of them where several are; none
/// where there are no offsets.
pub fn nearest(offsets: &Vec<Single>) -> (r: Option<usize>)
    ensures
        match r {
            Some(i) => is_shortest(offsets@, i as int),
            None => offsets@.len() == 0,
        },
{
    if offsets.len() == 0 {
        return None;
    }
    let mut best: usize = 0;
    let mut i: usize = 1;
    while i < offsets.len()
        invariant
            0 < i <= offsets.len(),
            best < i,
            is_shortest(offsets@.take(i as int), best as int),
        decreases offsets.len() - i,
    {
        let ghost before = offsets@.take(i as int);
        let ghost after = offsets@.take(i + 1);
        assert(forall|j: int| 0 <= j < i ==> before[j] == after[j]);
        let closer = offsets[i].abs().total_less(offsets[best].abs());
        assert(closer == (reach_of(after[i as int]) < reach_of(after[best as int])));
        proof {
            if closer {
                assert forall|j: int| 0 <= j < i implies reach_of(after[i as int])
                    < reach_of(#[trigger] after[j]) by {
                    assert(reach_of(before[best as int]) <= reach_of(before[j]));
                }
            } else {
                assert forall|j: int| 0 <= j < best implies reach_of(after[best as int])
                    < reach_of(#[trigger] after[j]) by {
                    assert(reach_of(before[best as int]) < reach_of(before[j]));
                }
                assert forall|j: int| best < j < after.len() implies reach_of(after[best as int])
                    <= reach_of(#[trigger] after[j]) by {
                    if j < i {
                        assert(reach_of(before[best as int]) <= reach_of(before[j]));
                    }
                }
            }
        }
        if closer {
            best = i;
        }
        i = i + 1;
    }
    assert(offsets@.take(i as int) =~= offsets@);
    Some(best)
}

/// The offset from an edge to the border that pulls it: the nearer of the two
/// that are within the threshold, the near border's where both are as near.
pub fn pull(to_near: Single, to_far: Single, threshold: Single) -> (r: Option<Single>)
    ensures
        ({
            let near_pulls = (Single { bits: to_near.magnitude() as u32 }).lt_spec(threshold);
            let far_pulls = (Single { bits: to_far.magnitude() as u32 }).lt_spec(threshold);
            r == (if near_pulls && !(far_pulls && reach_of(to_far) < reach_of(to_near)) {
                Some(to_near)
            } else if far_pulls {
                Some(to_far)
            } else {
                None
            })
        }),
{
    let near_pulls = to_near.abs().less(threshold);
    let far_pulls = to_far.abs().less(threshold);
    if near_pulls && !(far_pulls && to_far.abs().total_less(to_near.abs())) {
        Some(to_near)
    } else if far_pulls {
        Some(to_far)
    } else {
        None
    }
}

/// An edge of a rectangle that keeps its ratio: how far it is from the border
/// that pulls it, and the size at which it lands there.
#[derive(Clone, Copy, Debug, PartialEq, Eq, Structural)]
pub struct LockedPull {
    pub offset: Single,
    pub resized: Single,
}

impl LockedPull {
    /// Whether the size is one that a rectangle can have.
    pub open spec fn usable(self) -> bool {
        (Single { bits: 0 }).lt_spec(self.resized)
    }
}

/// The pull that wins among the first `n`: the usable one with the shortest way,
/// the first of them where several are.
pub open spec fn winner(pulls: Seq<LockedPull>, n: nat) -> Option<int>
    decreases n,
{
    if n == 0 {
        None
    } else {
        let i = n - 1;
        match winner(pulls, (n - 1) as nat) {
            None => if pulls[i].usable() {
                Some(i)
            } else {
                None
            },
            Some(best) => if pulls[i].usable() && reach_of(pulls[i].offset) < reach_of(
                pulls[best].offset,
            ) {
                Some(i)
            } else {
                Some(best)
            },
        }
    }
}

/// The winning pull is usable, no usable one has a shorter way, and where one has
/// the same it comes later.
pub proof fn law_winner_is_shortest(pulls: Seq<LockedPull>, n: nat)
    requires
        n <= pulls.len(),
    ensures
        match winner(pulls, n) {
            None => forall|j: int| 0 <= j < n ==> !(#[trigger] pulls[j]).usable(),
            Some(i) => {
                &&& 0 <= i < n
                &&& pulls[i].usable()
                &&& forall|j: int|
                    0 <= j < i && (#[trigger] pulls[j]).usable() ==> reach_of(pulls[i].offset)
                        < reach_of(pulls[j].offset)
                &&& forall|j: int|
                    i < j < n && (#[trigger] pulls[j]).usable() ==> reach_of(pulls[i].offset)
                        <= reach_of(pulls[j].offset)
            },
        },
    decreases n,
{
    if n > 0 {
        law_winner_is_shortest(pulls, (n - 1) as nat);
    }
}

/// The size of a rectangle that keeps its ratio: the edge with the shortest way
/// to a border lands on it and the others follow; it stays where none is pulled
/// to a size that a rectangle can have.
pub fn snap_locked(pulls: &Vec<LockedPull>, size: Single) -> (r: Single)
    ensures
        r == (match winner(pulls@, pulls@.len()) {
            Some(i) => pulls@[i].resized,
            None => size,
        }),
{
    let zero = Single { bits: 0 };
    let mut best: Option<usize> = None;
    let mut i: usize = 0;
    while i < pulls.len()
        invariant
            i <= pulls.len(),
            zero.bits == 0,
            match best {
                Some(b) => b < i && winner(pulls@, i as nat) == Some(b as int),
                None => winner(pulls@, i as nat) is None,
            },
        decreases pulls.len() - i,
    {
        let p = pulls[i];
        if zero.less(p.resized) {
            match best {
                None => {
                    best = Some(i);
                },
                Some(b) => {
                    if p.offset.abs().total_less(pulls[b].offset.abs()) {
                        best = Some(i);
                    }
                },
            }
        }
        i = i + 1;
    }
    match best {
        Some(b) => pulls[b].resized,
        None => size,
    }
}

/// A drag of a handle moves exactly the sides that the handle lies on: the right one for
/// the handles on the right, the bottom one for those at the bottom; a corner moves two
/// sides, and the middle of a side moves that side across its own axis. Only the empty
/// canvas makes a new rectangle, and without a rectangle nothing else moves.
pub proof fn law_a_handle_moves_the_sides_it_lies_on(h: CropHandle, has_rect: bool, d: CropDrag)
    requires
        call_ensures(crop_drag, (h, has_rect), d),
    ensures
        d is New <==> h == CropHandle::NewRect,
        d is Keep <==> h != CropHandle::NewRect && (!has_rect || h == CropHandle::Nothing),
        d is Whole <==> has_rect && h == CropHandle::Move,
        d is Corner <==> has_rect && (h == CropHandle::TopLeft || h == CropHandle::TopRight || h
            == CropHandle::BottomLeft || h == CropHandle::BottomRight),
        d matches CropDrag::Corner { right, bottom } ==> {
            &&& right <==> h == CropHandle::TopRight || h == CropHandle::BottomRight
            &&& bottom <==> h == CropHandle::BottomLeft || h == CropHandle::BottomRight
        },
        d matches CropDrag::Side { axis, high } ==> {
            &&& axis == Axis::X <==> h == CropHandle::MidLeft || h == CropHandle::MidRight
            &&& axis == Axis::Y <==> h == CropHandle::TopMid || h == CropHandle::BottomMid
            &&& high <==> h == CropHandle::MidRight || h == CropHandle::BottomMid
        },
{
}

/// The pointer is on a placed handle only within reach of where that handle stands: by
/// its side across and by its side down, the middle where it has none. A corner wins
/// over the middle of a side; off all of them it is the inside that counts.
pub proof fn law_the_pointer_is_on_the_crop_handle_it_is_near(
    f: CropFrame,
    at: Point,
    h: CropHandle,
)
    requires
        call_ensures(hit_test_widget, (Some(f), at), h),
    ensures
        ({
            let left = in_reach(f.from_x1);
            let right = in_reach(f.from_x2);
            let mid_x = in_reach(f.from_mid_x);
            let top = in_reach(f.from_y1);
            let bottom = in_reach(f.from_y2);
            let mid_y = in_reach(f.from_mid_y);
            let corner = (left || right) && (top || bottom);
            let middle = (mid_x && (top || bottom)) || (mid_y && (left || right));
            &&& h == CropHandle::TopLeft <==> left && top
            &&& h == CropHandle::TopRight ==> right && top
            &&& h == CropHandle::BottomLeft ==> left && bottom && !(right && top)
            &&& h == CropHandle::BottomRight ==> right && bottom && !top && !left
            &&& h == CropHandle::TopMid ==> mid_x && top
            &&& h == CropHandle::BottomMid ==> mid_x && bottom && !top
            &&& h == CropHandle::MidLeft ==> mid_y && left && !(mid_x && (top || bottom))
            &&& h == CropHandle::MidRight ==> mid_y && right && !left && !(mid_x && (top || bottom))
            &&& (h == CropHandle::TopLeft || h == CropHandle::TopRight || h
                == CropHandle::BottomLeft || h == CropHandle::BottomRight) <==> corner
            &&& (h == CropHandle::TopMid || h == CropHandle::BottomMid || h == CropHandle::MidLeft
                || h == CropHandle::MidRight) <==> !corner && middle
            &&& h == CropHandle::Move <==> !corner && !middle && f.holds(at)
            &&& h == CropHandle::NewRect <==> !corner && !middle && !f.holds(at)
        }),
{
    let order = placed_handles();
    assert(order.len() == 8);
    assert(order[0] == CropHandle::TopLeft && order[1] == CropHandle::TopRight && order[2]
        == CropHandle::BottomLeft && order[3] == CropHandle::BottomRight);
    assert(order[4] == CropHandle::TopMid && order[5] == CropHandle::BottomMid && order[6]
        == CropHandle::MidLeft && order[7] == CropHandle::MidRight);
}

/// Whether the pointer is inside does not depend on which two opposite corners give the
/// rectangle, and a corner itself is inside.
pub proof fn law_inside_is_the_same_from_any_corner(f: CropFrame, at: Point)
    ensures
        ({
            let g = CropFrame { x1: f.x2, x2: f.x1, ..f };
            let h = CropFrame { y1: f.y2, y2: f.y1, ..f };
            &&& f.holds(at) == g.holds(at)
            &&& f.holds(at) == h.holds(at)
        }),
        !f.x1.nan() && !f.y1.nan() ==> f.holds(Point { x: f.x1, y: f.y1 }),
        f.holds(at) ==> f.x1.le_spec(at.x) || f.x2.le_spec(at.x),
        f.holds(at) ==> at.y.le_spec(f.y1) || at.y.le_spec(f.y2),
        f.x1.lt_spec(at.x) && f.x2.lt_spec(at.x) ==> !f.holds(at),
        at.y.lt_spec(f.y1) && at.y.lt_spec(f.y2) ==> !f.holds(at),
{
}

/// What a drag is held to. A chosen ratio always counts, turned exactly where one of it
/// and the rectangle is upright and the other is not. Without one only Shift holds a
/// drag: a new rectangle to a square, and one with an area to its own shape.
pub proof fn law_what_a_crop_drag_is_held_to(
    chosen: Option<Single>,
    shift: bool,
    handle: CropHandle,
    start: Option<(Single, Single)>,
    r: DragRatio,
)
    requires
        call_ensures(drag_ratio, (chosen, shift, handle, start), r),
    ensures
        chosen is Some <==> r is Locked || r is Turned,
        r matches DragRatio::Locked(ratio) ==> chosen == Some(ratio),
        r matches DragRatio::Turned(ratio) ==> chosen == Some(ratio) && start is Some,
        chosen is Some && start is None ==> r is Locked,
        chosen is Some && start is Some ==> {
            let upright = (start->0).0.lt_spec((start->0).1);
            let tall = chosen->0.lt_spec(Single { bits: 0x3f80_0000 });
            &&& r is Turned ==> (upright && !tall) || (tall && !upright)
            &&& r is Locked ==> (upright && tall) || (!tall && !upright)
        },
        r is Square <==> chosen is None && shift && handle == CropHandle::NewRect,
        r is StartShape ==> shift && handle != CropHandle::NewRect && start is Some && (Single {
            bits: 0,
        }).lt_spec((start->0).0) && (Single { bits: 0 }).lt_spec((start->0).1),
        chosen is None && !shift ==> r is Free,
        chosen is None && shift && handle != CropHandle::NewRect && start is Some && (Single {
            bits: 0,
        }).lt_spec((start->0).0) && (Single { bits: 0 }).lt_spec((start->0).1) ==> r is StartShape,
        chosen is None && shift && handle != CropHandle::NewRect && start is None ==> r is Free,
{
}

/// A border pulls an edge only from within the threshold. Of two that do, the nearer one
/// pulls, and the near border where both are as near.
pub proof fn law_the_nearer_border_pulls(
    to_near: Single,
    to_far: Single,
    threshold: Single,
    r: Option<Single>,
)
    requires
        call_ensures(pull, (to_near, to_far, threshold), r),
    ensures
        ({
            let near = (Single { bits: to_near.magnitude() as u32 }).lt_spec(threshold);
            let far = (Single { bits: to_far.magnitude() as u32 }).lt_spec(threshold);
            &&& r is Some <==> near || far
            &&& near && !far ==> r == Some(to_near)
            &&& far && !near ==> r == Some(to_far)
            &&& near && far ==> r is Some && r->0.magnitude() <= to_near.magnitude()
                && r->0.magnitude() <= to_far.magnitude() && (r == Some(to_near) || r == Some(
                to_far,
            ))
            &&& near && far && to_near.magnitude() == to_far.magnitude() ==> r == Some(to_near)
        }),
{
}

/// The nearest of several offsets is no longer than any other, and shorter than any
/// before it.
pub proof fn law_the_nearest_offset_is_the_shortest(offsets: Vec<Single>, r: Option<usize>, j: int)
    requires
        call_ensures(nearest, (&offsets,), r),
        0 <= j < offsets@.len(),
    ensures
        r is Some,
        r->0 < offsets@.len(),
        offsets@[r->0 as int].magnitude() <= offsets@[j].magnitude(),
        j < r->0 ==> offsets@[r->0 as int].magnitude() < offsets@[j].magnitude(),
{
}

/// A rectangle that keeps its ratio takes the size of a pull that a rectangle can have
/// and whose way no other such pull undercuts; without one it keeps its size.
pub proof fn law_a_locked_rectangle_takes_the_shortest_pull(
    pulls: Vec<LockedPull>,
    size: Single,
    r: Single,
    j: int,
)
    requires
        call_ensures(snap_locked, (&pulls, size), r),
        0 <= j < pulls@.len(),
        (Single { bits: 0 }).lt_spec(pulls@[j].resized),
    ensures
        (Single { bits: 0 }).lt_spec(r),
        exists|i: int|
            0 <= i < pulls@.len() && r == (#[trigger] pulls@[i]).resized
                && pulls@[i].offset.magnitude() <= pulls@[j].offset.magnitude(),
{
    law_winner_is_shortest(pulls@, pulls@.len());
    let i = winner(pulls@, pulls@.len())->0;
    assert(pulls@[j].usable());
    assert(pulls@[i].usable());
}

/// A rectangle that no border can pull keeps its size.
pub proof fn law_a_locked_rectangle_without_a_pull_stays(
    pulls: Vec<LockedPull>,
    size: Single,
    r: Single,
)
    requires
        call_ensures(snap_locked, (&pulls, size), r),
        forall|j: int|
            0 <= j < pulls@.len() ==> !(Single { bits: 0 }).lt_spec((#[trigger] pulls@[j]).resized),
    ensures
        r == size,
{
    law_winner_is_shortest(pulls@, pulls@.len());
}

/// The cursor over a crop handle shows the way its drag goes, and handles across from
/// each other share one.
pub proof fn law_crop_cursors_show_the_way_of_the_drag(h: CropHandle, name: &'static str)
    requires
        call_ensures(cursor_name, (h,), name),
    ensures
        h == CropHandle::TopLeft || h == CropHandle::BottomRight ==> name@ == "nwse-resize"@,
        h == CropHandle::TopRight || h == CropHandle::BottomLeft ==> name@ == "nesw-resize"@,
        h == CropHandle::TopMid || h == CropHandle::BottomMid ==> name@ == "ns-resize"@,
        h == CropHandle::MidLeft || h == CropHandle::MidRight ==> name@ == "ew-resize"@,
        h == CropHandle::Move ==> name@ == "move"@,
        h == CropHandle::Nothing || h == CropHandle::NewRect ==> name@ == "crosshair"@,
{
}

/// An offset is within reach of a handle from less than ten pixels away, either way; a
/// coordinate lies between two others whichever comes first.
pub proof fn law_reach_and_between(offset: Single, v: Single, a: Single, b: Single)
    ensures
        in_reach(offset) <==> offset.magnitude() < 0x4120_0000,
        between(v, a, b) == between(v, b, a),
        a.le_spec(v) && v.le_spec(b) ==> between(v, a, b),
        v.lt_spec(a) && v.lt_spec(b) ==> !between(v, a, b),
        a.lt_spec(v) && b.lt_spec(v) ==> !between(v, a, b),
        v.nan() ==> !between(v, a, b),
{
}

} // verus!

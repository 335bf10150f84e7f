//! The transform box: which handle the pointer is on and what a drag of it does.

use vstd::prelude::*;

use crate::ieee::Single;

verus! {

/// How near a scaling handle the pointer grabs it, ten pixels.
pub const HANDLE_RADIUS: u32 = 0x4120_0000;

/// How near the rotation handle the pointer grabs it, twelve pixels.
pub const ROTATE_RADIUS: u32 = 0x4140_0000;

/// A part of the transform box that can be dragged.
#[derive(Clone, Copy, Debug, PartialEq, Eq, Structural)]
pub enum TransformHandle {
    /// Nothing.
    Nothing,
    /// The inside.
    Move,
    Rotate,
    TopLeft,
    TopRight,
    BottomLeft,
    BottomRight,
    TopMid,
    BottomMid,
    MidLeft,
    MidRight,
}

impl TransformHandle {
    /// The cursor over the handle.
    pub open spec fn cursor(self) -> &'static str {
        match self {
            TransformHandle::Nothing => "default",
            TransformHandle::Move => "move",
            TransformHandle::Rotate => "crosshair",
            TransformHandle::TopLeft | TransformHandle::BottomRight => "nwse-resize",
            TransformHandle::TopRight | TransformHandle::BottomLeft => "nesw-resize",
            TransformHandle::TopMid | TransformHandle::BottomMid => "ns-resize",
            TransformHandle::MidLeft | TransformHandle::MidRight => "ew-resize",
        }
    }
}

/// The cursor over a transform handle.
pub fn cursor_name(handle: TransformHandle) -> (name: &'static str)
    ensures
        name@ == handle.cursor()@,
{
    match handle {
        TransformHandle::Nothing => "default",
        TransformHandle::Move => "move",
        TransformHandle::Rotate => "crosshair",
        TransformHandle::TopLeft | TransformHandle::BottomRight => "nwse-resize",
        TransformHandle::TopRight | TransformHandle::BottomLeft => "nesw-resize",
        TransformHandle::TopMid | TransformHandle::BottomMid => "ns-resize",
        TransformHandle::MidLeft | TransformHandle::MidRight => "ew-resize",
    }
}

/// The pointer against the box: its distance from each handle, and its place in
/// the box's own frame against half the box's sides.
#[derive(Clone, Copy, Debug, PartialEq, Eq, Structural)]
pub struct TransformProbe {
    pub rotate: Single,
    pub top_left: Single,
    pub top_right: Single,
    pub bottom_left: Single,
    pub bottom_right: Single,
    pub top_mid: Single,
    pub bottom_mid: Single,
    pub mid_left: Single,
    pub mid_right: Single,
    pub local_x: Single,
    pub local_y: Single,
    pub half_width: Single,
    pub half_height: Single,
}

impl TransformProbe {
    /// Whether the pointer is within a handle's reach.
    pub open spec fn near(self, handle: TransformHandle) -> bool {
        let reach = Single { bits: HANDLE_RADIUS };
        match handle {
            TransformHandle::Rotate => self.rotate.lt_spec(Single { bits: ROTATE_RADIUS }),
            TransformHandle::TopLeft => self.top_left.lt_spec(reach),
            TransformHandle::TopRight => self.top_right.lt_spec(reach),
            TransformHandle::BottomLeft => self.bottom_left.lt_spec(reach),
            TransformHandle::BottomRight => self.bottom_right.lt_spec(reach),
            TransformHandle::TopMid => self.top_mid.lt_spec(reach),
            TransformHandle::BottomMid => self.bottom_mid.lt_spec(reach),
            TransformHandle::MidLeft => self.mid_left.lt_spec(reach),
            TransformHandle::MidRight => self.mid_right.lt_spec(reach),
            _ => false,
        }
    }

    /// Whether the pointer is inside the box.
    pub open spec fn inside(self) -> bool {
        &&& (Single { bits: self.local_x.magnitude() as u32 }).le_spec(self.half_width)
        &&& (Single { bits: self.local_y.magnitude() as u32 }).le_spec(self.half_height)
    }
}

/// The handles with a place of their own, in the order in which they are tried.
pub open spec fn placed_handles() -> Seq<TransformHandle> {
    seq![
        TransformHandle::Rotate,
        TransformHandle::TopLeft,
        TransformHandle::TopRight,
        TransformHandle::BottomLeft,
        TransformHandle::BottomRight,
        TransformHandle::TopMid,
        TransformHandle::BottomMid,
        TransformHandle::MidLeft,
        TransformHandle::MidRight,
    ]
}

/// Which handle the pointer is on: the first placed one within reach, else the
/// inside, else nothing.
pub fn hit_test(p: TransformProbe) -> (h: TransformHandle)
    ensures
        ({
            ||| exists|i: int| #![trigger placed_handles()[i]]
                0 <= i < 9 && h == placed_handles()[i] && p.near(h) && forall|j: int|
                    0 <= j < i ==> !p.near(#[trigger] placed_handles()[j])
            ||| (forall|j: int| 0 <= j < 9 ==> !p.near(#[trigger] placed_handles()[j])) && h == (if
            p.inside() {
                TransformHandle::Move
            } else {
                TransformHandle::Nothing
            })
        }),
{
    let reach = Single { bits: HANDLE_RADIUS };
    let ghost order = placed_handles();
    assert(order.len() == 9);
    assert(order[0] == TransformHandle::Rotate && order[1] == TransformHandle::TopLeft && order[2]
        == TransformHandle::TopRight && order[3] == TransformHandle::BottomLeft && order[4]
        == TransformHandle::BottomRight);
    assert(order[5] == TransformHandle::TopMid && order[6] == TransformHandle::BottomMid
        && order[7] == TransformHandle::MidLeft && order[8] == TransformHandle::MidRight);
    if p.rotate.less(Single { bits: ROTATE_RADIUS }) {
        TransformHandle::Rotate
    } else if p.top_left.less(reach) {
        TransformHandle::TopLeft
    } else if p.top_right.less(reach) {
        TransformHandle::TopRight
    } else if p.bottom_left.less(reach) {
        TransformHandle::BottomLeft
    } else if p.bottom_right.less(reach) {
        TransformHandle::BottomRight
    } else if p.top_mid.less(reach) {
        TransformHandle::TopMid
    } else if p.bottom_mid.less(reach) {
        TransformHandle::BottomMid
    } else if p.mid_left.less(reach) {
        TransformHandle::MidLeft
    } else if p.mid_right.less(reach) {
        TransformHandle::MidRight
    } else if p.local_x.abs().at_most(p.half_width) && p.local_y.abs().at_most(p.half_height) {
        TransformHandle::Move
    } else {
        TransformHandle::Nothing
    }
}

/// Which edge along an axis moves.
#[derive(Clone, Copy, Debug, PartialEq, Eq, Structural)]
pub enum Side {
    /// Neither: the axis is left alone.
    Neither,
    /// The left or the top one.
    Low,
    /// The right or the bottom one.
    High,
}

/// What a drag of a handle does.
#[derive(Clone, Copy, Debug, PartialEq, Eq, Structural)]
pub enum TransformDrag {
    /// Nothing, but for rounding to whole pixels.
    Keep,
    /// Move the box, then round it to whole pixels.
    Shift,
    /// Turn the box about its middle; it is not rounded.
    Turn,
    /// Scale the box by these edges, then round it to whole pixels.
    Scale { x: Side, y: Side },
}

/// What a drag of a handle does.
pub open spec fn drag_of(handle: TransformHandle) -> TransformDrag {
    match handle {
        TransformHandle::Nothing => TransformDrag::Keep,
        TransformHandle::Move => TransformDrag::Shift,
        TransformHandle::Rotate => TransformDrag::Turn,
        TransformHandle::TopLeft => TransformDrag::Scale { x: Side::Low, y: Side::Low },
        TransformHandle::TopRight => TransformDrag::Scale { x: Side::High, y: Side::Low },
        TransformHandle::BottomLeft => TransformDrag::Scale { x: Side::Low, y: Side::High },
        TransformHandle::BottomRight => TransformDrag::Scale { x: Side::High, y: Side::High },
        TransformHandle::TopMid => TransformDrag::Scale { x: Side::Neither, y: Side::Low },
        TransformHandle::BottomMid => TransformDrag::Scale { x: Side::Neither, y: Side::High },
        TransformHandle::MidLeft => TransformDrag::Scale { x: Side::Low, y: Side::Neither },
        TransformHandle::MidRight => TransformDrag::Scale { x: Side::High, y: Side::Neither },
    }
}

/// What a drag of a handle does.
pub fn transform_drag(handle: TransformHandle) -> (d: TransformDrag)
    ensures
        d == drag_of(handle),
{
    match handle {
        TransformHandle::Nothing => TransformDrag::Keep,
        TransformHandle::Move => TransformDrag::Shift,
        TransformHandle::Rotate => TransformDrag::Turn,
        TransformHandle::TopLeft => TransformDrag::Scale { x: Side::Low, y: Side::Low },
        TransformHandle::TopRight => TransformDrag::Scale { x: Side::High, y: Side::Low },
        TransformHandle::BottomLeft => TransformDrag::Scale { x: Side::Low, y: Side::High },
        TransformHandle::BottomRight => TransformDrag::Scale { x: Side::High, y: Side::High },
        TransformHandle::TopMid => TransformDrag::Scale { x: Side::Neither, y: Side::Low },
        TransformHandle::BottomMid => TransformDrag::Scale { x: Side::Neither, y: Side::High },
        TransformHandle::MidLeft => TransformDrag::Scale { x: Side::Low, y: Side::Neither },
        TransformHandle::MidRight => TransformDrag::Scale { x: Side::High, y: Side::Neither },
    }
}

/// Whose half-size a box that is held square takes.
#[derive(Clone, Copy, Debug, PartialEq, Eq, Structural)]
pub enum SquareSide {
    /// Neither axis is dragged: the box stays.
    Stay,
    Width,
    Height,
    /// The greater of the two.
    Greater,
}

/// Whose half-size a box that is held square takes: that of the dragged axis, the
/// greater one where both are.
pub fn square_side(x: Side, y: Side) -> (s: SquareSide)
    ensures
        s == (if x != Side::Neither && y != Side::Neither {
            SquareSide::Greater
        } else if x != Side::Neither {
            SquareSide::Width
        } else if y != Side::Neither {
            SquareSide::Height
        } else {
            SquareSide::Stay
        }),
{
    match (x != Side::Neither, y != Side::Neither) {
        (true, true) => SquareSide::Greater,
        (true, false) => SquareSide::Width,
        (false, true) => SquareSide::Height,
        (false, false) => SquareSide::Stay,
    }
}

/// Every scaling handle drags at least one axis, so holding the box square always
/// has a size to take.
pub proof fn law_scaling_drags_an_axis(handle: TransformHandle)
    ensures
        drag_of(handle) matches TransformDrag::Scale { x, y } ==> x != Side::Neither || y
            != Side::Neither,
{
}

/// A drag of a handle scales exactly the edges that the handle lies on. One on the left
/// moves the low edge across and one on the right the high edge; one at the top moves
/// the low edge down and one at the bottom the high edge; a handle in the middle of a
/// side leaves the other axis alone. The inside shifts, the rotation handle turns, and
/// nothing else does anything.
pub proof fn law_a_handle_scales_the_edges_it_lies_on(h: TransformHandle, d: TransformDrag)
    requires
        call_ensures(transform_drag, (h,), d),
    ensures
        d is Shift <==> h == TransformHandle::Move,
        d is Turn <==> h == TransformHandle::Rotate,
        d is Keep <==> h == TransformHandle::Nothing,
        d matches TransformDrag::Scale { x, y } ==> {
            &&& x == Side::Low <==> h == TransformHandle::TopLeft || h == TransformHandle::MidLeft
                || h == TransformHandle::BottomLeft
            &&& x == Side::High <==> h == TransformHandle::TopRight || h
                == TransformHandle::MidRight || h == TransformHandle::BottomRight
            &&& x == Side::Neither <==> h == TransformHandle::TopMid || h
                == TransformHandle::BottomMid
            &&& y == Side::Low <==> h == TransformHandle::TopLeft || h == TransformHandle::TopMid
                || h == TransformHandle::TopRight
            &&& y == Side::High <==> h == TransformHandle::BottomLeft || h
                == TransformHandle::BottomMid || h == TransformHandle::BottomRight
            &&& y == Side::Neither <==> h == TransformHandle::MidLeft || h
                == TransformHandle::MidRight
        },
{
}

/// The handle straight across the box moves the other edge: each edge that one handle
/// of such a pair scales, the other scales from the far side.
pub proof fn law_opposite_handles_scale_opposite_edges(h: TransformHandle, g: TransformHandle)
    requires
        (h == TransformHandle::TopLeft && g == TransformHandle::BottomRight) || (h
            == TransformHandle::TopRight && g == TransformHandle::BottomLeft) || (h
            == TransformHandle::TopMid && g == TransformHandle::BottomMid) || (h
            == TransformHandle::MidLeft && g == TransformHandle::MidRight),
    ensures
        ({
            &&& drag_of(h) matches TransformDrag::Scale { x: hx, y: hy }
            &&& drag_of(g) matches TransformDrag::Scale { x: gx, y: gy }
            &&& hx == Side::Neither <==> gx == Side::Neither
            &&& hy == Side::Neither <==> gy == Side::Neither
            &&& hx == Side::Low <==> gx == Side::High
            &&& hy == Side::Low <==> gy == Side::High
        }),
{
}

/// The pointer is on a handle only within reach of that very handle, and then on
/// nothing further down the order: the rotation handle, the corners, the middles of the
/// sides, the inside.
pub proof fn law_the_pointer_is_on_what_it_is_near(p: TransformProbe, h: TransformHandle)
    requires
        call_ensures(hit_test, (p,), h),
    ensures
        ({
            let reach = Single { bits: 0x4120_0000 };
            let turn = p.rotate.lt_spec(Single { bits: 0x4140_0000 });
            let corner = p.top_left.lt_spec(reach) || p.top_right.lt_spec(reach)
                || p.bottom_left.lt_spec(reach) || p.bottom_right.lt_spec(reach);
            let middle = p.top_mid.lt_spec(reach) || p.bottom_mid.lt_spec(reach)
                || p.mid_left.lt_spec(reach) || p.mid_right.lt_spec(reach);
            &&& h == TransformHandle::Rotate <==> turn
            &&& h == TransformHandle::TopLeft <==> !turn && p.top_left.lt_spec(reach)
            &&& h == TransformHandle::TopRight ==> p.top_right.lt_spec(reach)
            &&& h == TransformHandle::BottomLeft ==> p.bottom_left.lt_spec(reach)
            &&& h == TransformHandle::BottomRight ==> p.bottom_right.lt_spec(reach)
            &&& h == TransformHandle::TopMid ==> p.top_mid.lt_spec(reach)
            &&& h == TransformHandle::BottomMid ==> p.bottom_mid.lt_spec(reach)
            &&& h == TransformHandle::MidLeft ==> p.mid_left.lt_spec(reach)
            &&& h == TransformHandle::MidRight ==> p.mid_right.lt_spec(reach)
            &&& (h == TransformHandle::TopLeft || h == TransformHandle::TopRight || h
                == TransformHandle::BottomLeft || h == TransformHandle::BottomRight) <==> !turn
                && corner
            &&& (h == TransformHandle::TopMid || h == TransformHandle::BottomMid || h
                == TransformHandle::MidLeft || h == TransformHandle::MidRight) <==> !turn
                && !corner && middle
            &&& h == TransformHandle::TopRight && p.bottom_left.lt_spec(reach)
                ==> !p.top_left.lt_spec(reach)
            &&& h == TransformHandle::BottomLeft ==> !p.top_right.lt_spec(reach)
            &&& h == TransformHandle::BottomRight ==> !p.top_right.lt_spec(reach)
                && !p.bottom_left.lt_spec(reach)
            &&& h == TransformHandle::BottomMid ==> !p.top_mid.lt_spec(reach)
            &&& h == TransformHandle::MidLeft ==> !p.top_mid.lt_spec(reach)
                && !p.bottom_mid.lt_spec(reach)
            &&& h == TransformHandle::MidRight ==> !p.top_mid.lt_spec(reach)
                && !p.bottom_mid.lt_spec(reach) && !p.mid_left.lt_spec(reach)
            &&& h == TransformHandle::Move ==> p.local_x.magnitude() <= p.half_width.magnitude()
                && p.local_y.magnitude() <= p.half_height.magnitude()
            &&& (h == TransformHandle::Move || h == TransformHandle::Nothing) <==> !turn && !corner
                && !middle
            &&& h == TransformHandle::Nothing ==> !p.inside()
            &&& h == TransformHandle::Move ==> p.inside()
        }),
{
    let order = placed_handles();
    assert(order.len() == 9);
    assert(order[0] == TransformHandle::Rotate && order[1] == TransformHandle::TopLeft && order[2]
        == TransformHandle::TopRight && order[3] == TransformHandle::BottomLeft && order[4]
        == TransformHandle::BottomRight);
    assert(order[5] == TransformHandle::TopMid && order[6] == TransformHandle::BottomMid
        && order[7] == TransformHandle::MidLeft && order[8] == TransformHandle::MidRight);
}

/// The cursor over a handle shows the way its drag goes: along one diagonal for a
/// corner and its opposite, along the other for the other two, up and down or to the
/// sides for the middles; handles on opposite sides share one.
pub proof fn law_cursors_show_the_way_of_the_drag(h: TransformHandle, name: &'static str)
    requires
        call_ensures(cursor_name, (h,), name),
    ensures
        h == TransformHandle::TopLeft || h == TransformHandle::BottomRight ==> name@
            == "nwse-resize"@,
        h == TransformHandle::TopRight || h == TransformHandle::BottomLeft ==> name@
            == "nesw-resize"@,
        (drag_of(h) matches TransformDrag::Scale { x, y } && x == Side::Neither) ==> name@
            == "ns-resize"@,
        (drag_of(h) matches TransformDrag::Scale { x, y } && y == Side::Neither) ==> name@
            == "ew-resize"@,
        drag_of(h) is Turn ==> name@ == "crosshair"@,
        drag_of(h) is Shift ==> name@ == "move"@,
        drag_of(h) is Keep ==> name@ == "default"@,
{
}

/// A box that is held square takes a side's half-size only along an axis that is
/// dragged, and weighs the two only where both are.
pub proof fn law_square_takes_a_dragged_side(x: Side, y: Side, s: SquareSide)
    requires
        call_ensures(square_side, (x, y), s),
    ensures
        s is Stay <==> x == Side::Neither && y == Side::Neither,
        s is Width ==> x != Side::Neither && y == Side::Neither,
        s is Height ==> y != Side::Neither && x == Side::Neither,
        s is Greater <==> x != Side::Neither && y != Side::Neither,
{
}

} // verus!

//! The selection gesture: drawing a marquee or a lasso and what comes of it.

use vstd::prelude::*;

use crate::geometry::Point;
use crate::ieee::{Single, SIGN_32};
use crate::tool::SelectionTool;

verus! {

/// One pixel, as a measure.
pub const ONE_PIXEL: u32 = 0x3f80_0000;

/// How a new shape meets the selection that is there.
#[derive(Clone, Copy, Debug, PartialEq, Eq, Structural)]
pub enum SelectionMode {
    Replace,
    Add,
    Subtract,
    Intersect,
}

/// The shape being drawn.
pub enum PendingMarquee {
    Rect { x: Single, y: Single, w: Single, h: Single, circle: bool },
    Lasso(Vec<Point>),
}

/// The shape that was drawn.
pub enum SelectionShape {
    Rect { x: Single, y: Single, w: Single, h: Single },
    Ellipse { x: Single, y: Single, w: Single, h: Single },
    Polygon(Vec<Point>),
}

/// A selection as history keeps it.
pub struct SelectionSnapshot {
    pub active: bool,
    pub mask: Option<Vec<u8>>,
}

/// What the end of the gesture does.
pub enum SelectionEnd {
    /// Nothing was being drawn.
    Idle,
    /// A click: drop the selection that is there.
    Deselect,
    /// A click that leaves the selection alone.
    Keep,
    /// Put the shape into the selection in this mode.
    Apply(SelectionShape, SelectionMode),
}

/// How the held modifiers combine shapes.
pub fn selection_mode(shift: bool, alt: bool) -> (m: SelectionMode)
    ensures
        m == (if shift && alt {
            SelectionMode::Intersect
        } else if shift {
            SelectionMode::Add
        } else if alt {
            SelectionMode::Subtract
        } else {
            SelectionMode::Replace
        }),
{
    match (shift, alt) {
        (true, true) => SelectionMode::Intersect,
        (true, false) => SelectionMode::Add,
        (false, true) => SelectionMode::Subtract,
        (false, false) => SelectionMode::Replace,
    }
}

/// A measure shorter than one pixel.
pub open spec fn under_a_pixel(m: Single) -> bool {
    (Single { bits: m.magnitude() as u32 }).lt_spec(Single { bits: ONE_PIXEL })
}

/// A measure shorter than one pixel.
pub fn is_under_a_pixel(m: Single) -> (r: bool)
    ensures
        r == under_a_pixel(m),
{
    m.abs().less(Single { bits: ONE_PIXEL })
}

/// The greater of two lengths; one that is no number gives way.
pub open spec fn longer(a: Single, b: Single) -> Single {
    if a.nan() || a.lt_spec(b) {
        b
    } else {
        a
    }
}

/// A length laid the way that a measure points.
pub open spec fn laid(length: Single, way: Single) -> Single {
    Single {
        bits: if way.negative() {
            (length.magnitude() + SIGN_32) as u32
        } else {
            length.magnitude() as u32
        },
    }
}

/// The sides of a box that is held square: as long as the longer one, each the way
/// that it was drawn.
pub open spec fn squared_spec(w: Single, h: Single) -> (Single, Single) {
    let side = longer(
        Single { bits: w.magnitude() as u32 },
        Single { bits: h.magnitude() as u32 },
    );
    (laid(side, w), laid(side, h))
}

/// A length laid the way that a measure points.
fn lay(length: Single, way: Single) -> (r: Single)
    requires
        !length.negative(),
    ensures
        r == laid(length, way),
{
    if way.bits >= SIGN_32 {
        Single { bits: length.bits + SIGN_32 }
    } else {
        length
    }
}

/// The sides of a box that is held square.
pub fn squared(w: Single, h: Single) -> (r: (Single, Single))
    ensures
        r == squared_spec(w, h),
{
    let a = w.abs();
    let b = h.abs();
    let side = if a.is_nan() || a.less(b) {
        b
    } else {
        a
    };
    (lay(side, w), lay(side, h))
}

/// A box that is held square has equal sides, drawn the ways that it was drawn,
/// and neither is shorter than it was.
pub proof fn law_squared_boxes_are_square(w: Single, h: Single)
    requires
        !w.nan(),
        !h.nan(),
    ensures
        ({
            let (sw, sh) = squared_spec(w, h);
            &&& sw.magnitude() == sh.magnitude()
            &&& sw.negative() == w.negative() && sh.negative() == h.negative()
            &&& w.magnitude() <= sw.magnitude() && h.magnitude() <= sh.magnitude()
            &&& squared_spec(sw, sh) == (sw, sh)
        }),
{
}

impl PendingMarquee {
    /// Whether the shape is no more than a click: a box thinner than a pixel
    /// either way, or a lasso of fewer than three points.
    pub open spec fn click(self) -> bool {
        match self {
            PendingMarquee::Rect { w, h, .. } => under_a_pixel(w) || under_a_pixel(h),
            PendingMarquee::Lasso(pts) => pts@.len() < 3,
        }
    }

    /// The shape that a press begins.
    pub fn begin(tool: SelectionTool, at: Point) -> (p: PendingMarquee)
        ensures
            match tool {
                SelectionTool::Free => p matches PendingMarquee::Lasso(pts) && pts@ == seq![at],
                _ => p == (PendingMarquee::Rect {
                    x: at.x,
                    y: at.y,
                    w: Single { bits: 0 },
                    h: Single { bits: 0 },
                    circle: tool == SelectionTool::Circle,
                }),
            },
            p.click(),
    {
        match tool {
            SelectionTool::Square => PendingMarquee::Rect {
                x: at.x,
                y: at.y,
                w: Single { bits: 0 },
                h: Single { bits: 0 },
                circle: false,
            },
            SelectionTool::Circle => PendingMarquee::Rect {
                x: at.x,
                y: at.y,
                w: Single { bits: 0 },
                h: Single { bits: 0 },
                circle: true,
            },
            SelectionTool::Free => {
                let mut pts: Vec<Point> = Vec::new();
                pts.push(at);
                assert(pts@ =~= seq![at]);
                PendingMarquee::Lasso(pts)
            },
        }
    }

    /// The box that is drawn from a point: `w` and `h` are the pointer's way from
    /// there, and `square` holds the box square.
    pub fn draw_box(start: Point, w: Single, h: Single, square: bool, circle: bool) -> (p:
        PendingMarquee)
        ensures
            p == ({
                let (w, h) = if square {
                    squared_spec(w, h)
                } else {
                    (w, h)
                };
                PendingMarquee::Rect { x: start.x, y: start.y, w, h, circle }
            }),
    {
        let (w, h) = if square {
            squared(w, h)
        } else {
            (w, h)
        };
        PendingMarquee::Rect { x: start.x, y: start.y, w, h, circle }
    }

    /// A lasso takes a point that is clearly apart from its last one; a box is
    /// drawn anew instead.
    pub fn extend_lasso(&mut self, at: Point, apart: bool)
        ensures
            match *old(self) {
                PendingMarquee::Rect { .. } => *final(self) == *old(self),
                PendingMarquee::Lasso(pts) => *final(self) matches PendingMarquee::Lasso(now)
                    && now@ == (if apart {
                    pts@.push(at)
                } else {
                    pts@
                }),
            },
    {
        if apart {
            match self {
                PendingMarquee::Rect { .. } => {},
                PendingMarquee::Lasso(pts) => {
                    pts.push(at);
                },
            }
        }
    }

    /// Whether the shape is no more than a click.
    pub fn is_click(&self) -> (r: bool)
        ensures
            r == self.click(),
    {
        match self {
            PendingMarquee::Rect { w, h, .. } => is_under_a_pixel(*w) || is_under_a_pixel(*h),
            PendingMarquee::Lasso(pts) => pts.len() < 3,
        }
    }

    /// The drawn shape. `closes` says that a lasso's last point meets its first:
    /// the polygon closes by itself, so that point goes.
    pub fn into_shape(self, closes: bool) -> (s: SelectionShape)
        ensures
            match self {
                PendingMarquee::Rect { x, y, w, h, circle } => s == (if circle {
                    SelectionShape::Ellipse { x, y, w, h }
                } else {
                    SelectionShape::Rect { x, y, w, h }
                }),
                PendingMarquee::Lasso(pts) => s matches SelectionShape::Polygon(out) && out@ == (if
                closes && pts@.len() > 0 {
                    pts@.drop_last()
                } else {
                    pts@
                }),
            },
    {
        match self {
            PendingMarquee::Rect { x, y, w, h, circle } => if circle {
                SelectionShape::Ellipse { x, y, w, h }
            } else {
                SelectionShape::Rect { x, y, w, h }
            },
            PendingMarquee::Lasso(pts) => {
                let mut out = pts;
                if closes {
                    out.pop();
                }
                SelectionShape::Polygon(out)
            },
        }
    }
}

/// The end of the gesture.
pub fn selection_end(
    pending: Option<PendingMarquee>,
    mode: SelectionMode,
    closes: bool,
) -> (r: SelectionEnd)
    ensures
        match pending {
            None => r is Idle,
            Some(p) => if p.click() {
                if mode == SelectionMode::Replace {
                    r is Deselect
                } else {
                    r is Keep
                }
            } else {
                &&& r matches SelectionEnd::Apply(shape, m)
                &&& m == mode
                &&& match p {
                    PendingMarquee::Rect { x, y, w, h, circle } => shape == (if circle {
                        SelectionShape::Ellipse { x, y, w, h }
                    } else {
                        SelectionShape::Rect { x, y, w, h }
                    }),
                    PendingMarquee::Lasso(pts) => shape matches SelectionShape::Polygon(out)
                        && out@ == (if closes {
                        pts@.drop_last()
                    } else {
                        pts@
                    }) && out@.len() >= 2,
                }
            },
        },
{
    match pending {
        None => SelectionEnd::Idle,
        Some(p) => if p.is_click() {
            if mode == SelectionMode::Replace {
                SelectionEnd::Deselect
            } else {
                SelectionEnd::Keep
            }
        } else {
            SelectionEnd::Apply(p.into_shape(closes), mode)
        },
    }
}

/// The selection before or after a drawn shape: a mask that cannot be read is
/// left out, and the selection is still active.
pub fn shape_snapshot(active: bool, read: Option<Vec<u8>>) -> (s: SelectionSnapshot)
    ensures
        s.active == active,
        s.mask == (if active {
            read
        } else {
            None
        }),
{
    SelectionSnapshot {
        active,
        mask: if active {
            read
        } else {
            None
        },
    }
}

/// The selection before a click drops it: one whose mask cannot be read could
/// not be restored, so it is not kept.
pub fn click_snapshot(active: bool, read: Option<Vec<u8>>) -> (s: SelectionSnapshot)
    ensures
        s.active == (s.mask is Some),
        s.mask == (if active {
            read
        } else {
            None
        }),
{
    let mask = if active {
        read
    } else {
        None
    };
    SelectionSnapshot { active: mask.is_some(), mask }
}

/// A change of the selection as history keeps it.
pub struct SelectionChange {
    pub before: SelectionSnapshot,
    pub after: SelectionSnapshot,
}

/// What history keeps of a drawn shape: nothing where it could not be put into the
/// selection.
pub fn shape_applied(
    applied: bool,
    before: SelectionSnapshot,
    after: SelectionSnapshot,
) -> (c: Option<SelectionChange>)
    ensures
        c == (if applied {
            Some(SelectionChange { before, after })
        } else {
            None
        }),
{
    if applied {
        Some(SelectionChange { before, after })
    } else {
        None
    }
}

/// What history keeps of a click that dropped the selection.
pub fn deselect_via_click(active: bool, read: Option<Vec<u8>>) -> (c: SelectionChange)
    ensures
        c.before.active == (c.before.mask is Some),
        c.before.mask == (if active {
            read
        } else {
            None
        }),
        !c.after.active,
        c.after.mask is None,
{
    SelectionChange { before: click_snapshot(active, read), after: no_selection() }
}

/// No selection.
pub fn no_selection() -> (s: SelectionSnapshot)
    ensures
        !s.active,
        s.mask is None,
{
    SelectionSnapshot { active: false, mask: None }
}

/// Each modifier has its own part in how shapes combine: Shift keeps what is there and
/// adds, Alt takes away, both leave what is common, and neither starts over.
pub proof fn law_how_modifiers_combine_shapes(shift: bool, alt: bool, m: SelectionMode)
    requires
        call_ensures(selection_mode, (shift, alt), m),
    ensures
        m is Replace <==> !shift && !alt,
        m is Add <==> shift && !alt,
        m is Subtract <==> alt && !shift,
        m is Intersect <==> shift && alt,
{
}

/// The longer of two lengths is one of them and no shorter than either; a length that is
/// no number gives way to one that is.
pub proof fn law_the_longer_length(a: Single, b: Single)
    ensures
        longer(a, b) == a || longer(a, b) == b,
        !a.nan() && !b.nan() ==> !longer(a, b).lt_spec(a) && !longer(a, b).lt_spec(b),
        a.nan() ==> longer(a, b) == b,
        b.nan() && !a.nan() ==> longer(a, b) == a,
{
}

/// A length that is laid along a measure keeps its length and takes the measure's sign.
pub proof fn law_a_laid_length_points_the_way(length: Single, way: Single)
    ensures
        laid(length, way).magnitude() == length.magnitude(),
        laid(length, way).negative() == way.negative(),
{
}

/// A square is held square by its longer side: one of its sides is as it was drawn.
pub proof fn law_a_square_keeps_its_longer_side(w: Single, h: Single)
    requires
        !w.nan(),
        !h.nan(),
    ensures
        ({
            let (sw, sh) = squared_spec(w, h);
            &&& sw == w || sh == h
            &&& w.magnitude() >= h.magnitude() ==> sw == w
            &&& h.magnitude() >= w.magnitude() ==> sh == h
        }),
{
}

/// A press begins a shape of its tool at the pointer: a lasso of one point, or a box
/// without sides, round only for the circle.
pub proof fn law_a_press_begins_a_shape_of_its_tool(
    tool: SelectionTool,
    at: Point,
    p: PendingMarquee,
)
    requires
        call_ensures(PendingMarquee::begin, (tool, at), p),
    ensures
        p is Lasso <==> tool is Free,
        p matches PendingMarquee::Lasso(pts) ==> pts@.len() == 1 && pts@[0] == at,
        p matches PendingMarquee::Rect { x, y, w, h, circle } ==> {
            &&& x == at.x && y == at.y
            &&& w.magnitude() == 0 && h.magnitude() == 0
            &&& circle <==> tool is Circle
        },
{
}

/// A box is drawn from where the press was, as far as the pointer went, or square.
pub proof fn law_a_box_is_drawn_from_the_press(
    start: Point,
    w: Single,
    h: Single,
    square: bool,
    circle: bool,
    p: PendingMarquee,
)
    requires
        call_ensures(PendingMarquee::draw_box, (start, w, h, square, circle), p),
    ensures
        p matches PendingMarquee::Rect { x, y, w: pw, h: ph, circle: round } && x == start.x && y
            == start.y && round == circle && (!square ==> pw == w && ph == h) && (square
            && !w.nan() && !h.nan() ==> pw.magnitude() == ph.magnitude() && pw.negative()
            == w.negative() && ph.negative() == h.negative() && (pw == w || ph == h)),
{
    if !w.nan() && !h.nan() {
        law_a_square_keeps_its_longer_side(w, h);
    }
}

/// A lasso grows by one point where that is apart from its last one, at its end; else
/// nothing changes.
pub proof fn law_a_lasso_grows_at_its_end(p: &mut PendingMarquee, at: Point, apart: bool)
    requires
        call_ensures(PendingMarquee::extend_lasso, (p, at, apart), ()),
    ensures
        *old(p) is Rect ==> *final(p) == *old(p),
        *old(p) matches PendingMarquee::Lasso(pts) ==> {
            &&& *final(p) matches PendingMarquee::Lasso(now)
            &&& !apart ==> now@ == pts@
            &&& apart ==> now@.len() == pts@.len() + 1 && now@.last() == at && now@.drop_last()
                == pts@
        },
{
    if let PendingMarquee::Lasso(pts) = *old(p) {
        if let PendingMarquee::Lasso(now) = *final(p) {
            if apart {
                assert(now@.drop_last() =~= pts@);
            }
        }
    }
}

/// A shape is no more than a click where it encloses nothing: a box without a pixel's
/// extent one way or the other, a lasso of two points at most.
pub proof fn law_what_is_no_more_than_a_click(
    x: Single,
    y: Single,
    w: Single,
    h: Single,
    circle: bool,
    pts: Vec<Point>,
)
    ensures
        ({
            let drawn = PendingMarquee::Rect { x, y, w, h, circle };
            &&& w.magnitude() < 0x3f80_0000 ==> drawn.click()
            &&& h.magnitude() < 0x3f80_0000 ==> drawn.click()
            &&& w.magnitude() >= 0x3f80_0000 && h.magnitude() >= 0x3f80_0000 ==> !drawn.click()
        }),
        PendingMarquee::Lasso(pts).click() <==> pts@.len() <= 2,
{
}

/// What the end of a selection does: nothing without a shape, a click drops the
/// selection only where shapes replace it, and any other shape is applied in the mode
/// that is held, round if it was drawn round and from the same box, or by the same
/// points.
pub proof fn law_what_the_end_of_a_selection_does(
    pending: Option<PendingMarquee>,
    mode: SelectionMode,
    closes: bool,
    r: SelectionEnd,
)
    requires
        call_ensures(selection_end, (pending, mode, closes), r),
    ensures
        r is Idle <==> pending is None,
        r is Deselect <==> pending is Some && pending->0.click() && mode is Replace,
        r is Keep <==> pending is Some && pending->0.click() && !(mode is Replace),
        r matches SelectionEnd::Apply(shape, m) ==> {
            &&& m == mode
            &&& shape is Polygon <==> pending->0 is Lasso
            &&& pending->0 matches PendingMarquee::Rect { x, y, w, h, circle } ==> {
                &&& circle ==> shape == (SelectionShape::Ellipse { x, y, w, h })
                &&& !circle ==> shape == (SelectionShape::Rect { x, y, w, h })
            }
            &&& pending->0 matches PendingMarquee::Lasso(pts) ==> {
                &&& shape matches SelectionShape::Polygon(out)
                &&& !closes ==> out@ == pts@
                &&& closes ==> out@.push(pts@.last()) == pts@
            }
        },
{
    if let SelectionEnd::Apply(shape, _) = r {
        if let PendingMarquee::Lasso(pts) = pending->0 {
            if let SelectionShape::Polygon(out) = shape {
                if closes {
                    assert(out@.push(pts@.last()) =~= pts@);
                }
            }
        }
    }
}

/// A selection is kept with the mask that could be read of it and never with another's.
/// One that is drawn over is kept as active even without its mask; one that a click
/// drops is only kept with it.
pub proof fn law_what_history_keeps_of_a_selection(
    active: bool,
    read: Option<Vec<u8>>,
    drawn: SelectionSnapshot,
    clicked: SelectionChange,
)
    requires
        call_ensures(shape_snapshot, (active, read), drawn),
        call_ensures(deselect_via_click, (active, read), clicked),
    ensures
        drawn.active == active,
        drawn.mask is Some ==> active && drawn.mask == read,
        active ==> drawn.mask == read && clicked.before.mask == read,
        !active ==> drawn.mask is None && clicked.before.mask is None,
        clicked.before.active <==> active && read is Some,
        !clicked.after.active && clicked.after.mask is None,
{
}

/// A drawn shape is recorded exactly where it was applied, before and after as they
/// were.
pub proof fn law_an_applied_shape_is_recorded(
    applied: bool,
    before: SelectionSnapshot,
    after: SelectionSnapshot,
    c: Option<SelectionChange>,
)
    requires
        call_ensures(shape_applied, (applied, before, after), c),
    ensures
        c is Some <==> applied,
        c is Some ==> c->0.before == before && c->0.after == after,
{
}

/// A drawn box keeps its place and size and is round exactly where it was asked to be. A
/// lasso keeps its points in order, but for a last one that meets the first.
pub proof fn law_a_shape_is_as_it_was_drawn(m: PendingMarquee, closes: bool, s: SelectionShape)
    requires
        call_ensures(PendingMarquee::into_shape, (m, closes), s),
    ensures
        m is Rect ==> !(s is Polygon) && (s is Ellipse <==> m->circle),
        s is Ellipse ==> s->Ellipse_x == m->x && s->Ellipse_y == m->y && s->Ellipse_w == m->w
            && s->Ellipse_h == m->h,
        s is Rect ==> s->Rect_x == m->x && s->Rect_y == m->y && s->Rect_w == m->w && s->Rect_h
            == m->h,
        m is Lasso <==> s is Polygon,
        m is Lasso && !closes ==> s->Polygon_0@ == m->Lasso_0@,
        m is Lasso && closes && m->Lasso_0@.len() > 0 ==> s->Polygon_0@.push(m->Lasso_0@.last())
            == m->Lasso_0@,
        m is Lasso && m->Lasso_0@.len() == 0 ==> s->Polygon_0@.len() == 0,
{
}

/// A measure is under a pixel from nought to less than one, whichever way it points.
pub proof fn law_what_is_under_a_pixel(m: Single, r: bool)
    requires
        call_ensures(is_under_a_pixel, (m,), r),
    ensures
        r <==> m.magnitude() < 0x3f80_0000,
{
}

} // verus!

//! Editing the layout by hand: dragging seams, floating windows and panels.
//!
//! One gesture runs at a time: a seam is dragged, or an edge of a floating
//! window, or a panel or window is carried to another place. A gesture belongs
//! to the pointing device that began it.

use vstd::prelude::*;

use crate::dock::drop::{DropTarget, FloatAnchor, FreeEdge};
use crate::ieee::Single;
use crate::layout::{Axis, PanelId};

verus! {

/// How near an edge of a floating window the pointer grabs it, seven pixels.
pub const FLOAT_BAND: u32 = 0x40e0_0000;

/// A floating window.
#[derive(Clone, Copy, Debug, PartialEq, Eq, Structural)]
pub struct ToolWindowId {
    pub index: u32,
}

/// A pointing device.
#[derive(Clone, Copy, Debug, PartialEq, Eq, Structural)]
pub struct DeviceId {
    pub index: u64,
}

/// What can be carried.
#[derive(Clone, Copy, Debug, PartialEq, Eq, Structural)]
pub enum Movable {
    Panel(PanelId),
    Float(ToolWindowId),
}

/// The stored size of a floating window; none is its natural one.
#[derive(Clone, Copy, Debug, PartialEq, Eq, Structural)]
pub struct FloatSize {
    pub width: Option<i32>,
    pub height: Option<i32>,
}

/// How small and how large a floating window may be.
#[derive(Clone, Copy, Debug, PartialEq, Eq, Structural)]
pub struct FloatLimits {
    pub min: i32,
    pub max: i32,
}

/// The dragged edges of a floating window.
#[derive(Clone, Copy, Debug, PartialEq, Eq, Structural)]
pub struct FloatGrip {
    pub window: ToolWindowId,
    pub across: FreeEdge,
    pub down: FreeEdge,
}

/// A drag of a floating window's edges, with the size stored at its start.
#[derive(Clone, Copy, Debug, PartialEq, Eq, Structural)]
pub struct FloatResize {
    pub grip: FloatGrip,
    pub stored: FloatSize,
}

/// A seam, by its place among the splits.
#[derive(Clone, Copy, Debug, PartialEq, Eq, Structural)]
pub struct Seam {
    pub split: usize,
    pub axis: Axis,
}

/// A drag of a seam, with the seam's position at its start.
#[derive(Clone, Copy, Debug, PartialEq, Eq, Structural)]
pub struct SeamDrag {
    pub seam: Seam,
    pub origin: i32,
}

/// What the layout is asked to change.
pub enum EditRequest {
    Remove(PanelId),
    Move { panel: PanelId, target: DropTarget },
    Anchor { window: ToolWindowId, anchor: FloatAnchor },
    Resize { window: ToolWindowId, size: FloatSize },
}

/// Where something carried would land.
pub enum Hint {
    Panel(DropTarget),
    Float(FloatAnchor),
}

/// The editing in progress.
#[derive(Clone, Copy, Debug, PartialEq, Eq, Structural)]
pub struct EditState {
    pub hovered: Option<Movable>,
    pub hovered_seam: Option<Seam>,
    pub float_edges: Option<FloatGrip>,
    pub seam_drag: Option<SeamDrag>,
    pub float_resize: Option<FloatResize>,
    pub dragging: Option<Movable>,
    /// The device that holds the gesture.
    pub holder: Option<DeviceId>,
    /// The carried widget has been lifted out of its place.
    pub lifted: bool,
}

/// What is under the pointer.
#[derive(Clone, Copy, Debug, PartialEq, Eq, Structural)]
pub struct Under {
    pub seam: Option<Seam>,
    pub edges: Option<FloatGrip>,
    pub movable: Option<Movable>,
}

/// What is under the pointer, compared with what is shown as hovered.
#[derive(Clone, Copy, Debug, PartialEq, Eq, Structural)]
pub struct Moved {
    /// A seam's band is under the pointer and another one is shown.
    pub band: bool,
    /// The edges of a floating window are under the pointer, and the window is not
    /// where it was, or others of its edges are free.
    pub edges: bool,
}

/// What a motion of the pointer does.
#[derive(Clone, Copy, Debug, PartialEq, Eq, Structural)]
pub enum EditMotion {
    /// Another device than the one that holds the gesture: nothing.
    Ignore,
    /// Move the seam by as much as the pointer has moved along the axis.
    DragSeam(SeamDrag),
    /// Resize the window with the pointer.
    ResizeFloat(FloatResize),
    /// See where what is carried would land.
    Carry(Movable),
    /// Nothing is held: show what is under the pointer. `redraw` says that it looks
    /// otherwise than before.
    Hover { redraw: bool },
}

/// What a press does.
#[derive(Clone, Copy, Debug, PartialEq, Eq, Structural)]
pub enum EditPress {
    Nothing,
    /// Another device than the one that holds the gesture.
    Ignore,
    /// Drag this seam, once its split has settled.
    Seam(Seam),
    /// Resize a floating window.
    Resize(FloatResize),
    /// Lift this out of its place.
    Lift(Movable),
}

/// What a release does.
pub enum EditRelease {
    /// Another device than the one that holds the gesture.
    Ignore,
    /// Nothing.
    Nothing,
    /// A seam was let go.
    SeamDropped,
    /// Ask for this.
    Ask(EditRequest),
    /// What was carried goes back to its place.
    PutBack,
}

/// Where a dragged seam goes, when the pointer is this far along its axis from where
/// the drag began.
pub fn seam_position(drag: SeamDrag, along: i32) -> (r: i32)
    requires
        i32::MIN <= drag.origin + along <= i32::MAX,
    ensures
        r == drag.origin + along,
{
    drag.origin + along
}

impl EditState {
    /// Nothing held and nothing hovered.
    pub open spec fn rest() -> EditState {
        EditState {
            hovered: None,
            hovered_seam: None,
            float_edges: None,
            seam_drag: None,
            float_resize: None,
            dragging: None,
            holder: None,
            lifted: false,
        }
    }

    /// No gesture runs.
    pub open spec fn idle(self) -> bool {
        self.seam_drag is None && self.float_resize is None && self.dragging is None
    }

    /// At most one gesture runs, and only what is carried is lifted.
    pub open spec fn wf(self) -> bool {
        &&& self.seam_drag is Some ==> self.float_resize is None && self.dragging is None
        &&& self.float_resize is Some ==> self.dragging is None
        &&& self.lifted ==> self.dragging is Some
    }

    /// Whether a device may act: during a gesture only the one that holds it.
    pub open spec fn heeds(self, device: Option<DeviceId>) -> bool {
        self.holder is None || device == self.holder
    }

    /// Nothing held and nothing hovered.
    pub fn new() -> (s: EditState)
        ensures
            s == EditState::rest(),
            s.wf(),
    {
        EditState {
            hovered: None,
            hovered_seam: None,
            float_edges: None,
            seam_drag: None,
            float_resize: None,
            dragging: None,
            holder: None,
            lifted: false,
        }
    }

    /// Whether a device may act.
    pub fn held_by(&self, device: Option<DeviceId>) -> (r: bool)
        ensures
            r == self.heeds(device),
    {
        match self.holder {
            None => true,
            Some(holder) => match device {
                Some(d) => d == holder,
                None => false,
            },
        }
    }

    /// Editing is over: everything is let go. True puts what was lifted back.
    pub fn deactivate(&mut self) -> (put_back: bool)
        ensures
            *final(self) == EditState::rest(),
            put_back == old(self).lifted,
            final(self).wf(),
    {
        let put_back = self.lifted;
        *self = EditState::new();
        put_back
    }

    /// The layout was rebuilt: nothing is hovered any more.
    pub fn invalidate(&mut self)
        ensures
            *final(self) == (EditState {
                hovered: None,
                hovered_seam: None,
                float_edges: None,
                ..*old(self)
            }),
            old(self).wf() ==> final(self).wf(),
    {
        self.hovered = None;
        self.hovered_seam = None;
        self.float_edges = None;
    }

    /// What is hovered: a seam hides everything else, and a floating window's
    /// edges leave the window itself hovered.
    pub open spec fn hovering(self, under: Under) -> EditState {
        EditState {
            hovered_seam: under.seam,
            float_edges: if under.seam is Some {
                None
            } else {
                under.edges
            },
            hovered: if under.seam is Some {
                None
            } else {
                under.movable
            },
            ..self
        }
    }

    /// Whether hovering what is under the pointer looks otherwise: something else can
    /// be carried, a seam comes or goes or its band is another one, or the edges of a
    /// floating window are others.
    pub open spec fn looks_otherwise(self, under: Under, moved: Moved) -> bool {
        let now = self.hovering(under);
        ||| now.hovered != self.hovered
        ||| now.hovered_seam is Some != self.hovered_seam is Some
        ||| now.hovered_seam is Some && moved.band
        ||| now.float_edges != self.float_edges
        ||| now.float_edges is Some && moved.edges
    }

    /// The pointer moved.
    pub fn motion(&mut self, device: Option<DeviceId>, under: Under, moved: Moved) -> (m: EditMotion)
        ensures
            if !old(self).heeds(device) {
                m == EditMotion::Ignore && *final(self) == *old(self)
            } else {
                match (old(self).seam_drag, old(self).float_resize, old(self).dragging) {
                    (Some(drag), _, _) => m == EditMotion::DragSeam(drag) && *final(self) == *old(
                        self,
                    ),
                    (None, Some(resize), _) => m == EditMotion::ResizeFloat(resize) && *final(self)
                        == *old(self),
                    (None, None, Some(movable)) => m == EditMotion::Carry(movable) && *final(self)
                        == *old(self),
                    (None, None, None) => {
                        &&& *final(self) == old(self).hovering(under)
                        &&& m == (EditMotion::Hover {
                            redraw: old(self).looks_otherwise(under, moved),
                        })
                    },
                }
            },
            old(self).wf() ==> final(self).wf(),
    {
        if !self.held_by(device) {
            return EditMotion::Ignore;
        }
        if let Some(drag) = self.seam_drag {
            return EditMotion::DragSeam(drag);
        }
        if let Some(resize) = self.float_resize {
            return EditMotion::ResizeFloat(resize);
        }
        if let Some(movable) = self.dragging {
            return EditMotion::Carry(movable);
        }
        let seam = under.seam;
        let edges = if seam.is_some() {
            None
        } else {
            under.edges
        };
        let hovered = if seam.is_some() {
            None
        } else {
            under.movable
        };
        let seam_changed = self.hovered_seam.is_some() != seam.is_some() || (seam.is_some()
            && moved.band);
        let edges_changed = !same_grip(self.float_edges, edges) || (edges.is_some()
            && moved.edges);
        let redraw = !same_movable(self.hovered, hovered) || seam_changed || edges_changed;
        self.hovered_seam = seam;
        self.float_edges = edges;
        self.hovered = hovered;
        EditMotion::Hover { redraw }
    }

    /// The pointer left: what is hovered stays only while something is carried.
    pub fn leave(&mut self) -> (redraw: bool)
        ensures
            redraw == (old(self).dragging is None),
            *final(self) == (if redraw {
                EditState { hovered: None, float_edges: None, ..*old(self) }
            } else {
                *old(self)
            }),
            old(self).wf() ==> final(self).wf(),
    {
        if self.dragging.is_none() {
            self.hovered = None;
            self.float_edges = None;
            true
        } else {
            false
        }
    }

    /// The button went down: a seam is dragged before an edge of a floating
    /// window, and that before something is carried by its grip. `stored` is the
    /// size stored for the window whose edges are under the pointer, `on_grip`
    /// tells that the pointer is on the grip of what can be carried there.
    pub fn press(
        &mut self,
        device: Option<DeviceId>,
        under: Under,
        seam_at: i32,
        stored: FloatSize,
        on_grip: bool,
    ) -> (p: EditPress)
        ensures
            if !old(self).heeds(device) {
                p == EditPress::Ignore && *final(self) == *old(self)
            } else {
                let held = EditState { holder: device, ..*old(self) };
                match (under.seam, under.edges, under.movable) {
                    (Some(seam), _, _) => {
                        &&& p == EditPress::Seam(seam)
                        &&& *final(self) == (EditState {
                            seam_drag: Some(SeamDrag { seam, origin: seam_at }),
                            ..held
                        })
                    },
                    (None, Some(grip), _) => {
                        &&& p == EditPress::Resize(FloatResize { grip, stored })
                        &&& *final(self) == (EditState {
                            float_resize: Some(FloatResize { grip, stored }),
                            ..held
                        })
                    },
                    (None, None, Some(movable)) => if on_grip {
                        &&& p == EditPress::Lift(movable)
                        &&& *final(self) == (EditState {
                            hovered: Some(movable),
                            dragging: Some(movable),
                            ..held
                        })
                    } else {
                        p == EditPress::Nothing && *final(self) == held
                    },
                    (None, None, None) => p == EditPress::Nothing && *final(self) == held,
                }
            },
            old(self).wf() && old(self).idle() ==> final(self).wf(),
    {
        if !self.held_by(device) {
            return EditPress::Ignore;
        }
        self.holder = device;
        if let Some(seam) = under.seam {
            self.seam_drag = Some(SeamDrag { seam, origin: seam_at });
            return EditPress::Seam(seam);
        }
        if let Some(grip) = under.edges {
            let resize = FloatResize { grip, stored };
            self.float_resize = Some(resize);
            return EditPress::Resize(resize);
        }
        match under.movable {
            Some(movable) => {
                if on_grip {
                    self.hovered = Some(movable);
                    self.dragging = Some(movable);
                    EditPress::Lift(movable)
                } else {
                    EditPress::Nothing
                }
            },
            None => EditPress::Nothing,
        }
    }

    /// What is carried has been lifted out of its place.
    pub fn lift(&mut self)
        requires
            old(self).dragging is Some,
        ensures
            *final(self) == (EditState { lifted: true, ..*old(self) }),
            old(self).wf() ==> final(self).wf(),
    {
        self.lifted = true;
    }

    /// The button came up. Whatever is asked for then, what was lifted is put back
    /// first. `size` is the size that a resized window has by now,
    /// `hint` where what is carried lands, `delete` the panel whose delete button
    /// is under the pointer and which may be removed.
    pub fn release(
        &mut self,
        device: Option<DeviceId>,
        size: FloatSize,
        hint: Option<Hint>,
        delete: Option<PanelId>,
    ) -> (r: EditRelease)
        ensures
            if !old(self).heeds(device) {
                r is Ignore && *final(self) == *old(self)
            } else {
                let free = EditState { holder: None, ..*old(self) };
                match (old(self).seam_drag, old(self).float_resize, old(self).dragging) {
                    (Some(_), _, _) => {
                        &&& r is SeamDropped
                        &&& *final(self) == (EditState {
                            seam_drag: None,
                            hovered_seam: None,
                            ..free
                        })
                    },
                    (None, Some(resize), _) => {
                        &&& r == EditRelease::Ask(
                            EditRequest::Resize { window: resize.grip.window, size },
                        )
                        &&& *final(self) == (EditState { float_resize: None, ..free })
                    },
                    (None, None, Some(movable)) => {
                        &&& *final(self) == (EditState {
                            dragging: None,
                            hovered: None,
                            lifted: false,
                            ..free
                        })
                        &&& match (movable, hint) {
                            (Movable::Panel(panel), Some(Hint::Panel(target))) => if target is Keep {
                                r is PutBack
                            } else {
                                r == EditRelease::Ask(EditRequest::Move { panel, target })
                            },
                            (Movable::Float(window), Some(Hint::Float(anchor))) => r
                                == EditRelease::Ask(EditRequest::Anchor { window, anchor }),
                            _ => r is PutBack,
                        }
                    },
                    (None, None, None) => match delete {
                        Some(panel) => {
                            &&& r == EditRelease::Ask(EditRequest::Remove(panel))
                            &&& *final(self) == (EditState { hovered: None, ..free })
                        },
                        None => r is Nothing && *final(self) == free,
                    },
                }
            },
            old(self).wf() && old(self).heeds(device) ==> final(self).wf() && final(self).idle(),
    {
        if !self.held_by(device) {
            return EditRelease::Ignore;
        }
        self.holder = None;
        if self.seam_drag.is_some() {
            self.seam_drag = None;
            self.hovered_seam = None;
            return EditRelease::SeamDropped;
        }
        if let Some(resize) = self.float_resize {
            self.float_resize = None;
            return EditRelease::Ask(EditRequest::Resize { window: resize.grip.window, size });
        }
        match self.dragging {
            Some(movable) => {
                self.dragging = None;
                self.hovered = None;
                self.lifted = false;
                match (movable, hint) {
                    (Movable::Panel(panel), Some(Hint::Panel(target))) => match target {
                        DropTarget::Keep => EditRelease::PutBack,
                        target => EditRelease::Ask(EditRequest::Move { panel, target }),
                    },
                    (Movable::Float(window), Some(Hint::Float(anchor))) => EditRelease::Ask(
                        EditRequest::Anchor { window, anchor },
                    ),
                    _ => EditRelease::PutBack,
                }
            },
            None => match delete {
                Some(panel) => {
                    self.hovered = None;
                    EditRelease::Ask(EditRequest::Remove(panel))
                },
                None => EditRelease::Nothing,
            },
        }
    }
}

/// Whether the same thing is hovered.
fn same_movable(a: Option<Movable>, b: Option<Movable>) -> (r: bool)
    ensures
        r == (a == b),
{
    match (a, b) {
        (Some(x), Some(y)) => x == y,
        (None, None) => true,
        _ => false,
    }
}

/// Whether the same edges are hovered.
fn same_grip(a: Option<FloatGrip>, b: Option<FloatGrip>) -> (r: bool)
    ensures
        r == (a == b),
{
    match (a, b) {
        (Some(x), Some(y)) => x == y,
        (None, None) => true,
        _ => false,
    }
}

/// Whether an offset from an edge is within its band.
pub open spec fn in_band(offset: Single) -> bool {
    (Single { bits: offset.magnitude() as u32 }).le_spec(Single { bits: FLOAT_BAND })
}

/// The offsets of the pointer from the edges of a floating window.
#[derive(Clone, Copy, Debug, PartialEq, Eq, Structural)]
pub struct EdgeOffsets {
    pub left: Single,
    pub right: Single,
    pub top: Single,
    pub bottom: Single,
}

/// The edge that is under the pointer along one axis: the free one, and only from
/// within its band.
pub open spec fn edge_under(free: FreeEdge, low: Single, high: Single) -> FreeEdge {
    if (free == FreeEdge::High && in_band(high)) || (free == FreeEdge::Low && in_band(low)) {
        free
    } else {
        FreeEdge::Neither
    }
}

/// The edge that is under the pointer along one axis.
fn pick_edge(free: FreeEdge, low: Single, high: Single) -> (r: FreeEdge)
    ensures
        r == edge_under(free, low, high),
{
    let band = Single { bits: FLOAT_BAND };
    match free {
        FreeEdge::High => if high.abs().at_most(band) {
            FreeEdge::High
        } else {
            FreeEdge::Neither
        },
        FreeEdge::Low => if low.abs().at_most(band) {
            FreeEdge::Low
        } else {
            FreeEdge::Neither
        },
        FreeEdge::Neither => FreeEdge::Neither,
    }
}

/// The edges of a floating window that are under the pointer, across and down.
/// `near` says that the pointer is on the window or within the band round it.
pub fn edges_under(near: bool, d: EdgeOffsets, free: (FreeEdge, FreeEdge)) -> (r: (
    FreeEdge,
    FreeEdge,
))
    ensures
        r == (if near {
            (edge_under(free.0, d.left, d.right), edge_under(free.1, d.top, d.bottom))
        } else {
            (FreeEdge::Neither, FreeEdge::Neither)
        }),
{
    if !near {
        return (FreeEdge::Neither, FreeEdge::Neither);
    }
    (pick_edge(free.0, d.left, d.right), pick_edge(free.1, d.top, d.bottom))
}

/// The cursor over the edges of a floating window.
pub fn edge_cursor(across: FreeEdge, down: FreeEdge) -> (name: Option<&'static str>)
    ensures
        match name {
            None => across == FreeEdge::Neither && down == FreeEdge::Neither,
            Some(n) => n@ == (if down == FreeEdge::Neither {
                "ew-resize"@
            } else if across == FreeEdge::Neither {
                "ns-resize"@
            } else if across == down {
                "nwse-resize"@
            } else {
                "nesw-resize"@
            }) && !(across == FreeEdge::Neither && down == FreeEdge::Neither),
        },
{
    match (across, down) {
        (FreeEdge::Neither, FreeEdge::Neither) => None,
        (_, FreeEdge::Neither) => Some("ew-resize"),
        (FreeEdge::Neither, _) => Some("ns-resize"),
        (a, d) => if a == d {
            Some("nwse-resize")
        } else {
            Some("nesw-resize")
        },
    }
}

/// The cursor over a seam.
pub fn seam_cursor(axis: Axis) -> (name: &'static str)
    ensures
        name@ == (if axis == Axis::Horizontal {
            "col-resize"@
        } else {
            "row-resize"@
        }),
{
    match axis {
        Axis::Horizontal => "col-resize",
        Axis::Vertical => "row-resize",
    }
}

/// A wanted size within the limits: at least the least, and at most what the
/// canvas has room for, which is never less than the least.
pub open spec fn clamp_spec(want: int, room: Option<int>, limits: FloatLimits) -> int {
    let ceiling = match room {
        Some(r) => if r < limits.min {
            limits.min as int
        } else {
            r
        },
        None => limits.max as int,
    };
    if want < limits.min {
        limits.min as int
    } else if want > ceiling {
        ceiling
    } else {
        want
    }
}

/// A wanted size within the limits.
pub fn clamp_axis(want: i32, room: Option<i32>, limits: FloatLimits) -> (r: i32)
    requires
        limits.min <= limits.max,
    ensures
        r == clamp_spec(
            want as int,
            match room {
                Some(n) => Some(n as int),
                None => None,
            },
            limits,
        ),
        limits.min <= r,
{
    let ceiling: i32 = match room {
        Some(n) => if n < limits.min {
            limits.min
        } else {
            n
        },
        None => limits.max,
    };
    if want < limits.min {
        limits.min
    } else if want > ceiling {
        ceiling
    } else {
        want
    }
}

/// The size of a floating window during a drag of its edges: an axis that is not
/// dragged keeps what is stored for it. `want` is how large the window would be
/// with the dragged edges at the pointer, `room` what the canvas has room for.
pub fn resized(
    resize: FloatResize,
    want: (i32, i32),
    room: Option<(i32, i32)>,
    limits: FloatLimits,
) -> (size: FloatSize)
    requires
        limits.min <= limits.max,
    ensures
        size.width == (if resize.grip.across == FreeEdge::Neither {
            resize.stored.width
        } else {
            Some(
                clamp_spec(
                    want.0 as int,
                    match room {
                        Some(r) => Some(r.0 as int),
                        None => None,
                    },
                    limits,
                ) as i32,
            )
        }),
        size.height == (if resize.grip.down == FreeEdge::Neither {
            resize.stored.height
        } else {
            Some(
                clamp_spec(
                    want.1 as int,
                    match room {
                        Some(r) => Some(r.1 as int),
                        None => None,
                    },
                    limits,
                ) as i32,
            )
        }),
{
    let mut size = resize.stored;
    let (room_w, room_h) = match room {
        Some((w, h)) => (Some(w), Some(h)),
        None => (None, None),
    };
    if resize.grip.across != FreeEdge::Neither {
        size.width = Some(clamp_axis(want.0, room_w, limits));
    }
    if resize.grip.down != FreeEdge::Neither {
        size.height = Some(clamp_axis(want.1, room_h, limits));
    }
    size
}

/// What the pointer is on: floating windows lie over the panels, and of each the
/// first that holds the pointer counts.
pub open spec fn topmost(
    floats: Seq<(ToolWindowId, bool)>,
    panels: Seq<(PanelId, bool)>,
) -> Option<Movable>
    decreases floats.len() + panels.len(),
{
    if floats.len() > 0 {
        if floats[0].1 {
            Some(Movable::Float(floats[0].0))
        } else {
            topmost(floats.skip(1), panels)
        }
    } else if panels.len() > 0 {
        if panels[0].1 {
            Some(Movable::Panel(panels[0].0))
        } else {
            topmost(floats, panels.skip(1))
        }
    } else {
        None
    }
}

/// What the pointer is on, given for each window and panel whether it holds the
/// pointer.
pub fn movable_at(floats: &Vec<(ToolWindowId, bool)>, panels: &Vec<(PanelId, bool)>) -> (r: Option<
    Movable,
>)
    ensures
        r == topmost(floats@, panels@),
{
    let mut i: usize = 0;
    assert(floats@.skip(0) =~= floats@);
    while i < floats.len()
        invariant
            i <= floats.len(),
            topmost(floats@, panels@) == topmost(floats@.skip(i as int), panels@),
        decreases floats.len() - i,
    {
        let (id, holds) = floats[i];
        assert(floats@.skip(i as int)[0] == floats@[i as int]);
        if holds {
            return Some(Movable::Float(id));
        }
        assert(floats@.skip(i as int).skip(1) =~= floats@.skip(i + 1));
        i = i + 1;
    }
    let ghost none = floats@.skip(i as int);
    let mut j: usize = 0;
    assert(panels@.skip(0) =~= panels@);
    while j < panels.len()
        invariant
            j <= panels.len(),
            none.len() == 0,
            topmost(floats@, panels@) == topmost(none, panels@.skip(j as int)),
        decreases panels.len() - j,
    {
        let (id, holds) = panels[j];
        assert(panels@.skip(j as int)[0] == panels@[j as int]);
        if holds {
            return Some(Movable::Panel(id));
        }
        assert(panels@.skip(j as int).skip(1) =~= panels@.skip(j + 1));
        j = j + 1;
    }
    None
}

/// During a gesture only the device that holds it acts; without one any does, and
/// whoever presses then holds it until it is released.
pub proof fn law_a_gesture_belongs_to_its_device(
    s: &mut EditState,
    device: Option<DeviceId>,
    other: Option<DeviceId>,
    under: Under,
    seam_at: i32,
    stored: FloatSize,
    on_grip: bool,
    p: EditPress,
    t: &mut EditState,
    moved: Moved,
    m: EditMotion,
    u: &mut EditState,
    size: FloatSize,
    hint: Option<Hint>,
    delete: Option<PanelId>,
    r: EditRelease,
)
    requires
        old(s).holder is None,
        device is Some,
        other != device,
        call_ensures(EditState::press, (s, device, under, seam_at, stored, on_grip), p),
        *old(t) == *final(s),
        call_ensures(EditState::motion, (t, other, under, moved), m),
        *old(u) == *final(t),
        call_ensures(EditState::release, (u, other, size, hint, delete), r),
    ensures
        !(p is Ignore),
        final(s).holder == device,
        m is Ignore,
        r is Ignore,
        *final(u) == *final(s),
{
}

/// A press takes hold of the topmost thing under the pointer: a seam before the edges of
/// a window, and those before what can be carried, which is carried by its grip alone.
/// Each starts from where it stands.
pub proof fn law_a_press_takes_hold_of_the_topmost(
    s: &mut EditState,
    device: Option<DeviceId>,
    under: Under,
    seam_at: i32,
    stored: FloatSize,
    on_grip: bool,
    p: EditPress,
)
    requires
        old(s).holder is None,
        old(s).idle(),
        call_ensures(EditState::press, (s, device, under, seam_at, stored, on_grip), p),
    ensures
        p is Seam <==> under.seam is Some,
        p matches EditPress::Seam(seam) ==> under.seam == Some(seam) && final(s).seam_drag == Some(
            SeamDrag { seam, origin: seam_at },
        ),
        p is Resize <==> under.seam is None && under.edges is Some,
        p matches EditPress::Resize(x) ==> under.edges == Some(x.grip) && x.stored == stored
            && final(s).float_resize == Some(x),
        p is Lift <==> under.seam is None && under.edges is None && under.movable is Some
            && on_grip,
        p matches EditPress::Lift(x) ==> under.movable == Some(x) && final(s).dragging == Some(x)
            && final(s).hovered == Some(x),
        final(s).seam_drag is Some <==> p is Seam,
        final(s).float_resize is Some <==> p is Resize,
        final(s).dragging is Some <==> p is Lift,
        final(s).lifted == old(s).lifted,
{
}

/// A motion goes on with what the press took hold of, and changes nothing else; only
/// where nothing is held does it hover: a seam alone, or else the edges and what can be
/// carried under the pointer.
pub proof fn law_a_motion_goes_on_with_what_is_held(
    s: &mut EditState,
    device: Option<DeviceId>,
    under: Under,
    moved: Moved,
    m: EditMotion,
)
    requires
        old(s).wf(),
        old(s).heeds(device),
        call_ensures(EditState::motion, (s, device, under, moved), m),
    ensures
        m matches EditMotion::DragSeam(d) ==> old(s).seam_drag == Some(d),
        m is DragSeam <==> old(s).seam_drag is Some,
        m matches EditMotion::ResizeFloat(d) ==> old(s).float_resize == Some(d),
        m is ResizeFloat <==> old(s).float_resize is Some,
        m matches EditMotion::Carry(d) ==> old(s).dragging == Some(d),
        m is Carry <==> old(s).dragging is Some,
        !(m is Hover) ==> *final(s) == *old(s),
        m is Hover ==> {
            &&& final(s).hovered_seam == under.seam
            &&& under.seam is Some ==> final(s).float_edges is None && final(s).hovered is None
            &&& under.seam is None ==> final(s).float_edges == under.edges && final(s).hovered
                == under.movable
            &&& final(s).holder == old(s).holder && final(s).idle()
        },
        m matches EditMotion::Hover { redraw } ==> {
            &&& final(s).hovered != old(s).hovered ==> redraw
            &&& final(s).float_edges != old(s).float_edges ==> redraw
            &&& (final(s).hovered_seam is Some) != (old(s).hovered_seam is Some) ==> redraw
            &&& final(s).hovered_seam is Some && moved.band ==> redraw
            &&& final(s).float_edges is Some && moved.edges ==> redraw
            &&& final(s).hovered == old(s).hovered && final(s).float_edges == old(s).float_edges && (
            final(s).hovered_seam is Some) == (old(s).hovered_seam is Some) && !(
            final(s).hovered_seam is Some && moved.band) && !(final(s).float_edges is Some
                && moved.edges) ==> !redraw
        },
{
}

/// A release lets go of everything. It asks for what was under way: the size of the
/// window that was resized, the place where what was carried lands, and where nothing
/// was held, the removal of the panel whose button is under the pointer. What is carried
/// and lands nowhere, or where it was, goes back.
pub proof fn law_what_a_release_asks_for(
    s: &mut EditState,
    device: Option<DeviceId>,
    size: FloatSize,
    hint: Option<Hint>,
    delete: Option<PanelId>,
    r: EditRelease,
)
    requires
        old(s).wf(),
        old(s).heeds(device),
        call_ensures(EditState::release, (s, device, size, hint, delete), r),
    ensures
        final(s).idle() && final(s).holder is None && !final(s).lifted,
        r is SeamDropped <==> old(s).seam_drag is Some,
        r matches EditRelease::Ask(EditRequest::Resize { window, size: px }) ==> px == size
            && old(s).float_resize is Some && window == old(s).float_resize->0.grip.window,
        old(s).float_resize is Some ==> (r matches EditRelease::Ask(request)
            && request is Resize),
        r matches EditRelease::Ask(EditRequest::Move { panel, target }) ==> old(s).dragging == Some(
            Movable::Panel(panel),
        ) && hint == Some(Hint::Panel(target)) && !(target is Keep),
        r matches EditRelease::Ask(EditRequest::Anchor { window, anchor }) ==> old(s).dragging
            == Some(Movable::Float(window)) && hint == Some(Hint::Float(anchor)),
        r matches EditRelease::Ask(EditRequest::Remove(panel)) ==> old(s).idle() && delete == Some(
            panel,
        ),
        old(s).idle() && delete is Some ==> r is Ask,
        old(s).idle() && delete is None ==> r is Nothing,
        old(s).dragging is Some && hint is None ==> r is PutBack,
        old(s).dragging is Some && old(s).dragging->0 is Panel && hint is Some && hint->0 is Float
            ==> r is PutBack,
        old(s).dragging is Some && old(s).dragging->0 is Float && hint is Some && hint->0 is Float
            ==> r is Ask,
        old(s).dragging is Some && old(s).dragging->0 is Panel && hint is Some
            && hint->0 is Panel && !(hint->0->Panel_0 is Keep) ==> r is Ask,
        old(s).dragging is Some ==> final(s).hovered is None,
{
}

/// The pointer that leaves takes what it hovers along, unless something is carried. A
/// rebuilt layout forgets all that is hovered; the end of editing lets go of everything
/// and puts back what was lifted.
pub proof fn law_leaving_and_ending(
    s: &mut EditState,
    redraw: bool,
    t: &mut EditState,
    u: &mut EditState,
    put_back: bool,
)
    requires
        call_ensures(EditState::leave, (s,), redraw),
        call_ensures(EditState::invalidate, (t,), ()),
        call_ensures(EditState::deactivate, (u,), put_back),
    ensures
        redraw <==> old(s).dragging is None,
        redraw ==> final(s).hovered is None && final(s).float_edges is None
            && final(s).hovered_seam == old(s).hovered_seam && final(s).seam_drag
            == old(s).seam_drag && final(s).float_resize == old(s).float_resize,
        !redraw ==> *final(s) == *old(s),
        final(t).hovered is None && final(t).hovered_seam is None && final(t).float_edges is None,
        final(t).seam_drag == old(t).seam_drag && final(t).float_resize == old(t).float_resize
            && final(t).dragging == old(t).dragging && final(t).holder == old(t).holder
            && final(t).lifted == old(t).lifted,
        put_back == old(u).lifted,
        final(u).idle() && final(u).holder is None && !final(u).lifted && final(u).hovered is None
            && final(u).hovered_seam is None && final(u).float_edges is None,
{
}

/// A dragged seam goes as far as the pointer went.
pub proof fn law_a_seam_follows_the_pointer(drag: SeamDrag, a: i32, b: i32, r: i32, t: i32)
    requires
        i32::MIN <= drag.origin + a <= i32::MAX,
        i32::MIN <= drag.origin + b <= i32::MAX,
        call_ensures(seam_position, (drag, a), r),
        call_ensures(seam_position, (drag, b), t),
    ensures
        t - r == b - a,
        a == 0 ==> r == drag.origin,
{
}

/// An edge of a floating window is grabbed only where it is free, and from within seven
/// pixels of that very edge: the low one by the offset from the left or the top, the
/// high one by that from the right or the bottom.
pub proof fn law_an_edge_is_grabbed_from_its_band(
    near: bool,
    d: EdgeOffsets,
    free: (FreeEdge, FreeEdge),
    r: (FreeEdge, FreeEdge),
)
    requires
        call_ensures(edges_under, (near, d, free), r),
    ensures
        r.0 is Low <==> near && free.0 is Low && d.left.magnitude() <= 0x40e0_0000,
        r.0 is High <==> near && free.0 is High && d.right.magnitude() <= 0x40e0_0000,
        r.1 is Low <==> near && free.1 is Low && d.top.magnitude() <= 0x40e0_0000,
        r.1 is High <==> near && free.1 is High && d.bottom.magnitude() <= 0x40e0_0000,
{
}

/// The cursor over edges shows the way they go: to the sides, up and down, or along the
/// diagonal on which both edges lie.
pub proof fn law_edge_cursors_show_the_way(
    across: FreeEdge,
    down: FreeEdge,
    name: Option<&'static str>,
    axis: Axis,
    seam: &'static str,
)
    requires
        call_ensures(edge_cursor, (across, down), name),
        call_ensures(seam_cursor, (axis,), seam),
    ensures
        name is None <==> across is Neither && down is Neither,
        !(across is Neither) && down is Neither ==> name->0@ == "ew-resize"@,
        across is Neither && !(down is Neither) ==> name->0@ == "ns-resize"@,
        across is Low && down is Low || across is High && down is High ==> name->0@
            == "nwse-resize"@,
        across is Low && down is High || across is High && down is Low ==> name->0@
            == "nesw-resize"@,
        axis is Horizontal ==> seam@ == "col-resize"@,
        axis is Vertical ==> seam@ == "row-resize"@,
{
}

/// A size within the limits is kept; it is never below the least, and above what there
/// is room for only where that is below the least. Without a canvas the greatest counts.
pub proof fn law_a_size_is_kept_within_limits(want: int, room: Option<int>, limits: FloatLimits)
    requires
        limits.min <= limits.max,
    ensures
        ({
            let size = clamp_spec(want, room, limits);
            let most = match room {
                Some(r) => r,
                None => limits.max as int,
            };
            &&& size >= limits.min
            &&& size <= most || size == limits.min
            &&& limits.min <= want <= most ==> size == want
            &&& want < limits.min ==> size == limits.min
            &&& want > most && most >= limits.min ==> size == most
            &&& clamp_spec(size, room, limits) == size
        }),
{
}

/// A drag sizes only the axes whose edges it holds, each by its own measure and room;
/// the others keep what is stored for them.
pub proof fn law_a_drag_sizes_its_own_axes(
    resize: FloatResize,
    want: (i32, i32),
    room: Option<(i32, i32)>,
    limits: FloatLimits,
    size: FloatSize,
)
    requires
        limits.min <= limits.max,
        call_ensures(resized, (resize, want, room, limits), size),
    ensures
        resize.grip.across is Neither ==> size.width == resize.stored.width,
        resize.grip.down is Neither ==> size.height == resize.stored.height,
        !(resize.grip.across is Neither) ==> size.width is Some && size.width->0 >= limits.min,
        !(resize.grip.down is Neither) ==> size.height is Some && size.height->0 >= limits.min,
        !(resize.grip.across is Neither) && limits.min <= want.0 && (room is None ==> want.0
            <= limits.max) && (room is Some ==> want.0 <= (room->0).0) ==> size.width == Some(
            want.0,
        ),
        !(resize.grip.down is Neither) && limits.min <= want.1 && (room is None ==> want.1
            <= limits.max) && (room is Some ==> want.1 <= (room->0).1) ==> size.height == Some(
            want.1,
        ),
        !(resize.grip.across is Neither) && room is Some && (room->0).0 >= limits.min
            ==> size.width->0 <= (room->0).0,
        !(resize.grip.down is Neither) && room is Some && (room->0).1 >= limits.min
            ==> size.height->0 <= (room->0).1,
{
}

/// What the pointer is on holds it. A floating window that does comes before any panel,
/// and of each the first; there is nothing only where nothing holds the pointer.
pub proof fn law_the_pointer_is_on_the_topmost(
    floats: Seq<(ToolWindowId, bool)>,
    panels: Seq<(PanelId, bool)>,
)
    ensures
        match topmost(floats, panels) {
            Some(Movable::Float(id)) => exists|i: int|
                0 <= i < floats.len() && (#[trigger] floats[i]) == (id, true) && forall|j: int|
                    0 <= j < i ==> !(#[trigger] floats[j]).1,
            Some(Movable::Panel(id)) => (forall|j: int|
                0 <= j < floats.len() ==> !(#[trigger] floats[j]).1) && exists|i: int|
                0 <= i < panels.len() && (#[trigger] panels[i]) == (id, true) && forall|j: int|
                    0 <= j < i ==> !(#[trigger] panels[j]).1,
            None => (forall|j: int| 0 <= j < floats.len() ==> !(#[trigger] floats[j]).1) && forall|
                j: int,
            |
                0 <= j < panels.len() ==> !(#[trigger] panels[j]).1,
        },
    decreases floats.len() + panels.len(),
{
    if floats.len() > 0 {
        if floats[0].1 {
            assert(floats[0] == (floats[0].0, true));
        } else {
            let rest = floats.skip(1);
            law_the_pointer_is_on_the_topmost(rest, panels);
            assert(forall|j: int| 0 < j < floats.len() ==> #[trigger] floats[j] == rest[j - 1]);
            if let Some(Movable::Float(id)) = topmost(floats, panels) {
                let i = choose|i: int|
                    0 <= i < rest.len() && (#[trigger] rest[i]) == (id, true) && forall|j: int|
                        0 <= j < i ==> !(#[trigger] rest[j]).1;
                assert(floats[i + 1] == (id, true));
            }
        }
    } else if panels.len() > 0 {
        if panels[0].1 {
            assert(panels[0] == (panels[0].0, true));
        } else {
            let rest = panels.skip(1);
            law_the_pointer_is_on_the_topmost(floats, rest);
            assert(forall|j: int| 0 < j < panels.len() ==> #[trigger] panels[j] == rest[j - 1]);
            if let Some(Movable::Panel(id)) = topmost(floats, panels) {
                let i = choose|i: int|
                    0 <= i < rest.len() && (#[trigger] rest[i]) == (id, true) && forall|j: int|
                        0 <= j < i ==> !(#[trigger] rest[j]).1;
                assert(panels[i + 1] == (id, true));
            }
        }
    }
}

/// Whether the same things are held, by the same device.
pub open spec fn same_hold(a: EditState, b: EditState) -> bool {
    &&& a.seam_drag == b.seam_drag
    &&& a.float_resize == b.float_resize
    &&& a.dragging == b.dragging
    &&& a.holder == b.holder
    &&& a.lifted == b.lifted
}

/// Motions, leaving and a rebuilt layout let go of nothing and take hold of nothing; a
/// device that does not hold the gesture changes nothing; and lifting is all that a lift
/// does.
pub proof fn law_only_buttons_take_hold(
    a: &mut EditState,
    device: Option<DeviceId>,
    under: Under,
    moved: Moved,
    m: EditMotion,
    b: &mut EditState,
    redraw: bool,
    c: &mut EditState,
    d: &mut EditState,
)
    requires
        call_ensures(EditState::motion, (a, device, under, moved), m),
        call_ensures(EditState::leave, (b,), redraw),
        call_ensures(EditState::invalidate, (c,), ()),
        old(d).dragging is Some,
        call_ensures(EditState::lift, (d,), ()),
    ensures
        same_hold(*old(a), *final(a)),
        same_hold(*old(b), *final(b)) && final(b).hovered_seam == old(b).hovered_seam,
        same_hold(*old(c), *final(c)) && final(c).hovered is None && final(c).hovered_seam is None
            && final(c).float_edges is None,
        m is Ignore ==> *final(a) == *old(a),
        old(b).dragging is Some ==> *final(b) == *old(b),
        final(d).lifted,
        final(d).dragging == old(d).dragging && final(d).holder == old(d).holder
            && final(d).seam_drag == old(d).seam_drag && final(d).float_resize == old(
            d,
        ).float_resize && final(d).hovered == old(d).hovered && final(d).hovered_seam == old(
            d,
        ).hovered_seam && final(d).float_edges == old(d).float_edges,
{
}

/// A press changes of what is hovered only that which it takes up, and takes up one thing
/// at most; a release lets go of one thing at most and leaves the other marks as they
/// were.
pub proof fn law_a_button_changes_one_hold(
    a: &mut EditState,
    device: Option<DeviceId>,
    under: Under,
    seam_at: i32,
    stored: FloatSize,
    on_grip: bool,
    p: EditPress,
    b: &mut EditState,
    size: FloatSize,
    hint: Option<Hint>,
    delete: Option<PanelId>,
    r: EditRelease,
)
    requires
        call_ensures(EditState::press, (a, device, under, seam_at, stored, on_grip), p),
        call_ensures(EditState::release, (b, device, size, hint, delete), r),
    ensures
        !(p is Lift) ==> final(a).hovered == old(a).hovered && final(a).dragging == old(
            a,
        ).dragging,
        !(p is Seam) ==> final(a).seam_drag == old(a).seam_drag,
        !(p is Resize) ==> final(a).float_resize == old(a).float_resize,
        final(a).hovered_seam == old(a).hovered_seam && final(a).float_edges == old(a).float_edges
            && final(a).lifted == old(a).lifted,
        p is Ignore ==> *final(a) == *old(a),
        !(p is Ignore) ==> final(a).holder == device,
        final(b).float_edges == old(b).float_edges,
        !(r is SeamDropped) ==> final(b).hovered_seam == old(b).hovered_seam && final(b).seam_drag
            == old(b).seam_drag,
        r is SeamDropped ==> final(b).float_resize == old(b).float_resize && final(b).dragging
            == old(b).dragging && final(b).hovered == old(b).hovered && final(b).lifted == old(
            b,
        ).lifted,
        r is Ignore ==> *final(b) == *old(b),
        !(r is Ignore) ==> final(b).holder is None,
        r is Nothing ==> final(b).hovered == old(b).hovered,
{
}

} // verus!

//! Navigating the canvas, the pointer over it, and handing frames to the screen.

use vstd::prelude::*;

use crate::canvas::crop_geom::CropHandle;
use crate::canvas::transform_geometry::TransformHandle;
use crate::geometry::{Point, Size};
use crate::ieee::Single;
use crate::text::same;
use crate::tool::{FillTool, Tool};

verus! {

/// A modifier key.
#[derive(Clone, Copy, Debug, PartialEq, Eq, Structural)]
pub enum Modifier {
    Shift,
    Ctrl,
    Alt,
}

/// The modifier keys that are held.
#[derive(Clone, Copy, Debug, PartialEq, Eq, Structural)]
pub struct HeldKeys {
    pub shift: bool,
    pub ctrl: bool,
    pub alt: bool,
}

/// What the middle-button drag does.
#[derive(Clone, Copy, Debug, PartialEq, Eq, Structural)]
pub enum NavDrag {
    Idle,
    Pan,
    Zoom,
    Rotate,
}

/// What a step of the drag does to the view.
#[derive(Clone, Copy, Debug, PartialEq, Eq, Structural)]
pub enum NavStep {
    Pan,
    Zoom,
    /// Glide to the nearest stop.
    RotateToStop,
    /// Follow the pointer, ending any glide.
    RotateFreely,
}

impl HeldKeys {
    /// Whether a modifier is held.
    pub open spec fn has(self, m: Modifier) -> bool {
        match m {
            Modifier::Shift => self.shift,
            Modifier::Ctrl => self.ctrl,
            Modifier::Alt => self.alt,
        }
    }

    /// Whether a modifier is held.
    pub fn contains(self, m: Modifier) -> (r: bool)
        ensures
            r == self.has(m),
    {
        match m {
            Modifier::Shift => self.shift,
            Modifier::Ctrl => self.ctrl,
            Modifier::Alt => self.alt,
        }
    }
}

/// The modifier that a part of a key binding names.
pub open spec fn modifier_of(part: Seq<char>) -> Option<Modifier> {
    if part == "Shift"@ {
        Some(Modifier::Shift)
    } else if part == "Ctrl"@ {
        Some(Modifier::Ctrl)
    } else if part == "Alt"@ {
        Some(Modifier::Alt)
    } else {
        None
    }
}

/// The first modifier among the parts of a key binding.
pub open spec fn first_modifier(parts: Seq<String>) -> Option<Modifier>
    decreases parts.len(),
{
    if parts.len() == 0 {
        None
    } else if modifier_of(parts[0]@) is Some {
        modifier_of(parts[0]@)
    } else {
        first_modifier(parts.skip(1))
    }
}

/// The modifier that a part of a key binding names.
fn named_modifier(part: &String) -> (m: Option<Modifier>)
    ensures
        m == modifier_of(part@),
{
    if same(part.as_str(), "Shift") {
        Some(Modifier::Shift)
    } else if same(part.as_str(), "Ctrl") {
        Some(Modifier::Ctrl)
    } else if same(part.as_str(), "Alt") {
        Some(Modifier::Alt)
    } else {
        None
    }
}

/// The modifier that a key binding asks for; none where it is unbound or names
/// no modifier.
pub fn drag_modifier(parts: Option<&Vec<String>>) -> (m: Option<Modifier>)
    ensures
        m == (match parts {
            Some(p) => first_modifier(p@),
            None => None,
        }),
{
    match parts {
        None => None,
        Some(p) => {
            let mut i: usize = 0;
            assert(p@.skip(0) =~= p@);
            while i < p.len()
                invariant
                    i <= p.len(),
                    parts == Some(p),
                    first_modifier(p@) == first_modifier(p@.skip(i as int)),
                decreases p.len() - i,
            {
                assert(p@.skip(i as int)[0] == p@[i as int]);
                match named_modifier(&p[i]) {
                    Some(m) => {
                        return Some(m);
                    },
                    None => {},
                }
                assert(p@.skip(i as int).skip(1) =~= p@.skip(i + 1));
                i = i + 1;
            }
            None
        },
    }
}

/// The middle-button press. Holding the rotate modifier rotates, holding Ctrl
/// zooms, and Ctrl zooms even where it is the rotate modifier.
pub fn nav_begin(held: HeldKeys, rotate: Option<Modifier>) -> (n: NavDrag)
    ensures
        n == (if rotate matches Some(m) && held.has(m) && m != Modifier::Ctrl {
            NavDrag::Rotate
        } else if held.ctrl {
            NavDrag::Zoom
        } else {
            NavDrag::Pan
        }),
        n != NavDrag::Idle,
{
    match rotate {
        Some(m) => if held.contains(m) && m != Modifier::Ctrl {
            return NavDrag::Rotate;
        },
        None => {},
    }
    if held.ctrl {
        NavDrag::Zoom
    } else {
        NavDrag::Pan
    }
}

/// A move during the drag: with the snap modifier held, a rotation glides from
/// stop to stop.
pub fn nav_step(nav: NavDrag, held: HeldKeys, snap: Option<Modifier>) -> (s: NavStep)
    ensures
        s == (match nav {
            NavDrag::Rotate => if snap matches Some(m) && held.has(m) {
                NavStep::RotateToStop
            } else {
                NavStep::RotateFreely
            },
            NavDrag::Zoom => NavStep::Zoom,
            _ => NavStep::Pan,
        }),
{
    match nav {
        NavDrag::Rotate => match snap {
            Some(m) => if held.contains(m) {
                NavStep::RotateToStop
            } else {
                NavStep::RotateFreely
            },
            None => NavStep::RotateFreely,
        },
        NavDrag::Zoom => NavStep::Zoom,
        _ => NavStep::Pan,
    }
}

/// The cursor that a navigation drag begins with.
pub fn nav_cursor(nav: NavDrag) -> (name: Option<&'static str>)
    ensures
        match nav {
            NavDrag::Idle => name is None,
            NavDrag::Pan => name matches Some(n) && n@ == "grabbing"@,
            NavDrag::Zoom => name matches Some(n) && n@ == "zoom-in"@,
            NavDrag::Rotate => name matches Some(n) && n@ == "crosshair"@,
        },
{
    match nav {
        NavDrag::Idle => None,
        NavDrag::Pan => Some("grabbing"),
        NavDrag::Zoom => Some("zoom-in"),
        NavDrag::Rotate => Some("crosshair"),
    }
}

/// The cursor while zooming from one factor to another.
pub fn zoom_cursor(before: Single, now: Single) -> (name: &'static str)
    ensures
        name@ == (if before.le_spec(now) {
            "zoom-in"@
        } else {
            "zoom-out"@
        }),
{
    if before.at_most(now) {
        "zoom-in"
    } else {
        "zoom-out"
    }
}

/// What the pointer looks like.
#[derive(Clone, Copy, Debug, PartialEq, Eq, Structural)]
pub enum HoverCursor {
    /// As it was: a navigation drag has set it.
    Keep,
    /// The default.
    Default,
    /// Hidden: an overlay stands for it.
    Hidden,
    /// What the crop handle under it asks for.
    Crop(CropHandle),
    /// What the transform handle under it asks for.
    Transform(TransformHandle),
    /// What the text box under it asks for, else that of text.
    Text,
}

/// What a pointer over the canvas shows: the cursor, and which of the overlays
/// follow it. The others are taken down.
#[derive(Clone, Copy, Debug, PartialEq, Eq, Structural)]
pub struct Hover {
    pub cursor: HoverCursor,
    pub brush: bool,
    pub picker: bool,
    pub gradient: bool,
}

/// What a pointer over the canvas shows.
pub open spec fn hover_spec(
    nav: NavDrag,
    tool: Tool,
    crop: CropHandle,
    transform: Option<TransformHandle>,
) -> Hover {
    let cursor = if nav != NavDrag::Idle {
        HoverCursor::Keep
    } else {
        match tool {
            Tool::Crop => HoverCursor::Crop(crop),
            Tool::Transform => match transform {
                Some(handle) => HoverCursor::Transform(handle),
                None => HoverCursor::Default,
            },
            Tool::ColorPicker | Tool::Brush | Tool::Fill(FillTool::Gradient) =>
                HoverCursor::Hidden,
            Tool::Text => HoverCursor::Text,
            _ => HoverCursor::Default,
        }
    };
    Hover {
        cursor,
        brush: nav == NavDrag::Idle && tool == Tool::Brush,
        picker: nav == NavDrag::Idle && tool == Tool::ColorPicker,
        gradient: nav == NavDrag::Idle && tool == Tool::Fill(FillTool::Gradient),
    }
}

/// What a pointer over the canvas shows, given the handles under it. During a
/// navigation drag every overlay is down.
pub fn hover(nav: NavDrag, tool: Tool, crop: CropHandle, transform: Option<TransformHandle>) -> (h:
    Hover)
    ensures
        h == hover_spec(nav, tool, crop, transform),
{
    if nav != NavDrag::Idle {
        return Hover {
            cursor: HoverCursor::Keep,
            brush: false,
            picker: false,
            gradient: false,
        };
    }
    let mut h = Hover {
        cursor: HoverCursor::Default,
        brush: false,
        picker: false,
        gradient: false,
    };
    match tool {
        Tool::Crop => {
            h.cursor = HoverCursor::Crop(crop);
        },
        Tool::Transform => {
            match transform {
                Some(handle) => {
                    h.cursor = HoverCursor::Transform(handle);
                },
                None => {},
            }
        },
        Tool::ColorPicker => {
            h.cursor = HoverCursor::Hidden;
            h.picker = true;
        },
        Tool::Brush => {
            h.cursor = HoverCursor::Hidden;
            h.brush = true;
        },
        Tool::Text => {
            h.cursor = HoverCursor::Text;
        },
        Tool::Fill(FillTool::Gradient) => {
            h.cursor = HoverCursor::Hidden;
            h.gradient = true;
        },
        _ => {},
    }
    h
}

/// At most one overlay follows the pointer, and the pointer is hidden exactly
/// when one does.
pub proof fn law_overlay_replaces_pointer(
    nav: NavDrag,
    tool: Tool,
    crop: CropHandle,
    transform: Option<TransformHandle>,
)
    ensures
        ({
            let h = hover_spec(nav, tool, crop, transform);
            &&& (h.cursor == HoverCursor::Hidden) == (h.brush || h.picker || h.gradient)
            &&& !(h.brush && h.picker)
            &&& !(h.brush && h.gradient)
            &&& !(h.picker && h.gradient)
            &&& nav != NavDrag::Idle ==> h.cursor == HoverCursor::Keep
        }),
{
}

/// The name of a hover cursor; none leaves it as it is or resets it.
pub fn hover_cursor_name(cursor: HoverCursor, text: Option<&'static str>) -> (name: Option<
    &'static str,
>)
    ensures
        match cursor {
            HoverCursor::Keep | HoverCursor::Default => name is None,
            HoverCursor::Hidden => name matches Some(n) && n@ == "none"@,
            HoverCursor::Crop(h) => name matches Some(n) && n@ == h.cursor()@,
            HoverCursor::Transform(h) => name matches Some(n) && n@ == h.cursor()@,
            HoverCursor::Text => name matches Some(n) && n@ == (match text {
                Some(t) => t@,
                None => "text"@,
            }),
        },
{
    match cursor {
        HoverCursor::Keep => None,
        HoverCursor::Default => None,
        HoverCursor::Hidden => Some("none"),
        HoverCursor::Crop(h) => Some(crate::canvas::crop_geom::cursor_name(h)),
        HoverCursor::Transform(h) => Some(crate::canvas::transform_geometry::cursor_name(h)),
        HoverCursor::Text => match text {
            Some(t) => Some(t),
            None => Some("text"),
        },
    }
}

/// A drag that pans the view: the offset from its start that has been applied.
///
/// The view moves by what the offset has grown since the last step, so that a move
/// of the view by anything else in between is kept.
#[derive(Clone, Copy, Debug, PartialEq, Eq, Structural)]
pub struct PanDrag {
    pub applied: Point,
}

/// A step of a pan: from one offset to the next.
#[derive(Clone, Copy, Debug, PartialEq, Eq, Structural)]
pub struct PanStep {
    pub from: Point,
    pub to: Point,
}

impl PanDrag {
    /// A drag starts: nothing has been applied.
    pub fn begin() -> (d: PanDrag)
        ensures
            d == (PanDrag { applied: Point::zero() }),
    {
        PanDrag { applied: Point::origin() }
    }

    /// The pointer is `offset` away from where the drag started. The view moves by
    /// the step that is returned.
    pub fn advance(&mut self, offset: Point) -> (s: PanStep)
        ensures
            s == (PanStep { from: old(self).applied, to: offset }),
            final(self).applied == offset,
    {
        let s = PanStep { from: self.applied, to: offset };
        self.applied = offset;
        s
    }
}

/// The steps of a drag, one for each offset of the pointer.
pub open spec fn pan_steps(d: PanDrag, offsets: Seq<Point>) -> Seq<PanStep> {
    Seq::new(
        offsets.len(),
        |i: int|
            PanStep {
                from: if i == 0 {
                    d.applied
                } else {
                    offsets[i - 1]
                },
                to: offsets[i],
            },
    )
}

/// The steps of a drag lie end to end: each begins where the one before it ended,
/// the first at the start of the drag and the last at the offset of the pointer.
/// An offset that is reported twice makes a step that leads nowhere.
pub proof fn law_pan_steps_lie_end_to_end(d: PanDrag, offsets: Seq<Point>)
    requires
        offsets.len() > 0,
    ensures
        pan_steps(d, offsets)[0].from == d.applied,
        pan_steps(d, offsets).last().to == offsets.last(),
        forall|i: int|
            0 < i < offsets.len() ==> (#[trigger] pan_steps(d, offsets)[i]).from == pan_steps(
                d,
                offsets,
            )[i - 1].to,
        forall|i: int|
            0 < i < offsets.len() && offsets[i] == offsets[i - 1] ==> (#[trigger] pan_steps(
                d,
                offsets,
            )[i]).from == pan_steps(d, offsets)[i].to,
{
}

/// The last motion of the pointer: where and when.
#[derive(Clone, Copy, Debug)]
pub struct MotionTrail {
    pub last: Option<(Point, u64)>,
    /// The way the pointer last clearly moved.
    pub direction: Single,
}

/// The way from one motion of the pointer to the next.
#[derive(Clone, Copy, Debug, PartialEq, Eq, Structural)]
pub struct MotionLeg {
    pub from: Point,
    /// Milliseconds it took; 0 where time stood still or ran back.
    pub millis: u64,
}

impl MotionTrail {
    /// No motion yet.
    pub fn new() -> (t: MotionTrail)
        ensures
            t == (MotionTrail { last: None, direction: Single { bits: 0 } }),
    {
        MotionTrail { last: None, direction: Single { bits: 0 } }
    }

    /// The pointer is here now. The result is the way it came, from the second
    /// motion on.
    pub fn advance(&mut self, at: Point, time_ms: u64) -> (leg: Option<MotionLeg>)
        ensures
            *final(self) == (MotionTrail { last: Some((at, time_ms)), ..*old(self) }),
            leg == (match old(self).last {
                None => None,
                Some((from, then)) => Some(
                    MotionLeg {
                        from,
                        millis: if time_ms > then {
                            (time_ms - then) as u64
                        } else {
                            0
                        },
                    },
                ),
            }),
    {
        let leg = match self.last {
            None => None,
            Some((from, before)) => Some(
                MotionLeg {
                    from,
                    millis: if time_ms > before {
                        time_ms - before
                    } else {
                        0
                    },
                },
            ),
        };
        self.last = Some((at, time_ms));
        leg
    }

    /// The direction of travel: that of the last leg if it was a pixel long at
    /// least, else the one from before.
    pub fn turn(&mut self, distance: Single, heading: Single) -> (d: Single)
        ensures
            d == (if clear(distance) {
                heading
            } else {
                old(self).direction
            }),
            *final(self) == (MotionTrail { direction: d, ..*old(self) }),
    {
        if (Single { bits: CLEAR_DISTANCE }).at_most(distance) {
            self.direction = heading;
        }
        self.direction
    }
}

/// The shortest way that tells the direction of travel, one pixel.
pub const CLEAR_DISTANCE: u32 = 0x3f80_0000;

/// Whether a leg is long enough to tell the direction of travel: less than a pixel
/// is jitter, and so is a length that is no number.
pub open spec fn clear(distance: Single) -> bool {
    (Single { bits: CLEAR_DISTANCE }).le_spec(distance)
}

/// A number of 24 bits that depends on a position alone, for previewing what is
/// random during a stroke.
pub open spec fn stable_random_spec(x: u32, y: u32) -> u32 {
    let mixed = x ^ ((y << 13) | (y >> 19));
    mixed.wrapping_mul(0x9e37_79b9) >> 8
}

/// A number of 24 bits that depends on a position alone.
pub fn stable_random_for(at: Point) -> (r: u32)
    ensures
        r == stable_random_spec(at.x.bits, at.y.bits),
        r < 0x100_0000,
{
    let x: u32 = at.x.bits;
    let y: u32 = at.y.bits;
    let mixed: u32 = x ^ ((y << 13) | (y >> 19));
    let hashed: u32 = mixed.wrapping_mul(0x9e37_79b9);
    assert(hashed >> 8 < 0x100_0000) by (bit_vector);
    hashed >> 8
}

/// Where a position of the canvas has a pixel to sample: not above or left of
/// it. A coordinate that is no number passes.
pub fn may_sample(at: Point) -> (r: bool)
    ensures
        r == !(at.x.lt_spec(Single { bits: 0 }) || at.y.lt_spec(Single { bits: 0 })),
{
    let zero = Single { bits: 0 };
    !(at.x.less(zero) || at.y.less(zero))
}

/// How a new frame relates to the one on the screen.
#[derive(Clone, Copy, Debug, PartialEq, Eq, Structural)]
pub enum FrameChain {
    /// It stands alone.
    Alone,
    /// It follows the one on the screen, which differs anywhere.
    Whole,
    /// It follows the one on the screen, which differs in this region only.
    Region { x: i32, y: i32, w: i32, h: i32 },
}

/// A side as a signed number; one that is too long is none.
pub open spec fn signed_side(side: u32) -> int {
    if side <= i32::MAX {
        side as int
    } else {
        -1
    }
}

/// How a frame of a size relates to the one on the screen: it follows one of the
/// same size, and only then does the changed region mean anything.
pub fn frame_chain(
    previous: Option<(i32, i32)>,
    width: u32,
    height: u32,
    damage: Option<(i32, i32, u32, u32)>,
) -> (c: FrameChain)
    ensures
        c == (match previous {
            None => FrameChain::Alone,
            Some((pw, ph)) => if pw != signed_side(width) || ph != signed_side(height) {
                FrameChain::Alone
            } else {
                match damage {
                    Some((x, y, w, h)) => if w <= i32::MAX && h <= i32::MAX {
                        FrameChain::Region { x, y, w: w as i32, h: h as i32 }
                    } else {
                        FrameChain::Whole
                    },
                    None => FrameChain::Whole,
                }
            },
        }),
{
    match previous {
        None => FrameChain::Alone,
        Some((pw, ph)) => {
            let w: i32 = if width <= 0x7fff_ffff {
                width as i32
            } else {
                -1
            };
            let h: i32 = if height <= 0x7fff_ffff {
                height as i32
            } else {
                -1
            };
            if pw != w || ph != h {
                return FrameChain::Alone;
            }
            match damage {
                Some((x, y, dw, dh)) => if dw <= 0x7fff_ffff && dh <= 0x7fff_ffff {
                    FrameChain::Region { x, y, w: dw as i32, h: dh as i32 }
                } else {
                    FrameChain::Whole
                },
                None => FrameChain::Whole,
            }
        },
    }
}

/// What the first ticks of a canvas do.
#[derive(Clone, Copy, Debug, PartialEq, Eq, Structural)]
pub enum FirstFrame {
    /// The widget has no size yet.
    Wait,
    /// Fit the canvas into the widget and show it.
    FitAndShow,
    /// Show it.
    Show,
}

/// What a tick does until the canvas is first shown.
pub fn first_frame(width: i32, height: i32, centered: bool) -> (f: FirstFrame)
    ensures
        f == (if width <= 0 || height <= 0 {
            FirstFrame::Wait
        } else if centered {
            FirstFrame::Show
        } else {
            FirstFrame::FitAndShow
        }),
{
    if width <= 0 || height <= 0 {
        FirstFrame::Wait
    } else if centered {
        FirstFrame::Show
    } else {
        FirstFrame::FitAndShow
    }
}

/// How a scroll moves the view.
#[derive(Clone, Copy, Debug, PartialEq, Eq, Structural)]
pub enum ScrollStep {
    /// Not at all.
    Still,
    /// By as much as the fingers moved.
    Pan,
    /// Nearer or farther about the pointer.
    Zoom,
}

/// How a scroll moves the view: a touchpad pans, a wheel zooms.
pub fn scroll_step(touchpad: bool, dx: Single, dy: Single) -> (s: ScrollStep)
    ensures
        s == (if !touchpad {
            ScrollStep::Zoom
        } else if dx.magnitude() == 0 && dy.magnitude() == 0 {
            ScrollStep::Still
        } else {
            ScrollStep::Pan
        }),
{
    if !touchpad {
        ScrollStep::Zoom
    } else if dx.abs().bits == 0 && dy.abs().bits == 0 {
        ScrollStep::Still
    } else {
        ScrollStep::Pan
    }
}

/// The phase of a touchpad pinch.
#[derive(Clone, Copy, Debug, PartialEq, Eq, Structural)]
pub enum PinchPhase {
    Begin,
    Update,
    Other,
}

/// A touchpad pinch: the zoom factor at its start.
#[derive(Clone, Copy, Debug, PartialEq, Eq, Structural)]
pub struct Pinch {
    pub start: Single,
}

impl Pinch {
    /// One phase of the pinch at a zoom factor. The result is the factor that the
    /// pinch scales, where it changes the zoom.
    pub fn phase(&mut self, phase: PinchPhase, zoom: Single) -> (base: Option<Single>)
        ensures
            *final(self) == (if phase == PinchPhase::Begin {
                Pinch { start: zoom }
            } else {
                *old(self)
            }),
            base == (if phase == PinchPhase::Update {
                Some(old(self).start)
            } else {
                None
            }),
    {
        match phase {
            PinchPhase::Begin => {
                self.start = zoom;
                None
            },
            PinchPhase::Update => Some(self.start),
            PinchPhase::Other => None,
        }
    }
}

/// The size that the view is fitted to anew, if the canvas has another size than
/// the one that is shown.
pub fn resync_canvas_size(shown: Size, now: Size) -> (r: Option<Size>)
    ensures
        r == (if shown == now {
            None
        } else {
            Some(now)
        }),
{
    if shown == now {
        None
    } else {
        Some(now)
    }
}

/// Whether the view can be fitted: the widget has an area.
pub fn can_fit(width: i32, height: i32) -> (r: bool)
    ensures
        r == (width > 0 && height > 0),
{
    width > 0 && height > 0
}

/// A modifier is held exactly when its own key is, whatever the others do.
pub proof fn law_each_modifier_is_its_own_key(
    held: HeldKeys,
    shift: bool,
    ctrl: bool,
    alt: bool,
)
    requires
        call_ensures(HeldKeys::contains, (held, Modifier::Shift), shift),
        call_ensures(HeldKeys::contains, (held, Modifier::Ctrl), ctrl),
        call_ensures(HeldKeys::contains, (held, Modifier::Alt), alt),
    ensures
        shift <==> held.shift,
        ctrl <==> held.ctrl,
        alt <==> held.alt,
{
}

/// A key binding asks for the first modifier that it names; without a binding or a
/// modifier in it, for none.
pub proof fn law_a_binding_asks_for_its_first_modifier(parts: Seq<String>)
    ensures
        match first_modifier(parts) {
            Some(m) => exists|i: int|
                0 <= i < parts.len() && names((#[trigger] parts[i])@, m) && forall|j: int|
                    0 <= j < i ==> names_none((#[trigger] parts[j])@),
            None => forall|j: int| 0 <= j < parts.len() ==> names_none((#[trigger] parts[j])@),
        },
    decreases parts.len(),
{
    reveal_strlit("Shift");
    reveal_strlit("Ctrl");
    reveal_strlit("Alt");
    assert("Shift"@.len() == 5 && "Ctrl"@.len() == 4 && "Alt"@.len() == 3);
    if parts.len() > 0 {
        if modifier_of(parts[0]@) is None {
            let rest = parts.skip(1);
            law_a_binding_asks_for_its_first_modifier(rest);
            assert(forall|j: int| 0 < j < parts.len() ==> #[trigger] parts[j] == rest[j - 1]);
            match first_modifier(rest) {
                Some(m) => {
                    let i = choose|i: int|
                        0 <= i < rest.len() && names((#[trigger] rest[i])@, m) && forall|j: int|
                            0 <= j < i ==> names_none((#[trigger] rest[j])@);
                    assert(names(parts[i + 1]@, m));
                },
                None => {},
            }
        } else {
            assert(names(parts[0]@, modifier_of(parts[0]@)->0));
        }
    }
}

/// Whether a part of a key binding is the name of a modifier.
pub open spec fn names(part: Seq<char>, m: Modifier) -> bool {
    &&& m == Modifier::Shift ==> part == "Shift"@
    &&& m == Modifier::Ctrl ==> part == "Ctrl"@
    &&& m == Modifier::Alt ==> part == "Alt"@
}

/// Whether a part of a key binding is the name of no modifier.
pub open spec fn names_none(part: Seq<char>) -> bool {
    part != "Shift"@ && part != "Ctrl"@ && part != "Alt"@
}

/// Ctrl always zooms. Any other modifier rotates where it is the rotate modifier and is
/// held. Without either the drag pans.
pub proof fn law_what_a_navigation_drag_does(
    held: HeldKeys,
    rotate: Option<Modifier>,
    n: NavDrag,
)
    requires
        call_ensures(nav_begin, (held, rotate), n),
    ensures
        n is Rotate <==> (rotate == Some(Modifier::Shift) && held.shift) || (rotate == Some(
            Modifier::Alt,
        ) && held.alt),
        n is Zoom ==> held.ctrl,
        held.ctrl && (rotate is None || rotate == Some(Modifier::Ctrl)) ==> n is Zoom,
        n is Pan ==> !held.ctrl,
        !(n is Idle),
{
}

/// A drag goes on as it began; only a rotation looks at the keys again, and goes from
/// stop to stop exactly while the snap modifier is held.
pub proof fn law_a_navigation_drag_goes_on_as_it_began(
    nav: NavDrag,
    held: HeldKeys,
    snap: Option<Modifier>,
    s: NavStep,
)
    requires
        call_ensures(nav_step, (nav, held, snap), s),
    ensures
        s is Zoom <==> nav is Zoom,
        s is RotateToStop || s is RotateFreely <==> nav is Rotate,
        nav is Rotate ==> (s is RotateToStop <==> (snap == Some(Modifier::Shift) && held.shift)
            || (snap == Some(Modifier::Ctrl) && held.ctrl) || (snap == Some(Modifier::Alt)
            && held.alt)),
        nav is Pan ==> s is Pan,
{
}

/// What follows the pointer is the overlay of the tool in hand: the brush's outline, the
/// picker's loupe, the gradient's. The handles of a crop and of a transform and the box
/// of a text each choose the cursor of their own tool; a navigation drag keeps its own
/// and takes every overlay down.
pub proof fn law_the_pointer_shows_the_tool(
    nav: NavDrag,
    tool: Tool,
    crop: CropHandle,
    transform: Option<TransformHandle>,
    h: Hover,
)
    requires
        call_ensures(hover, (nav, tool, crop, transform), h),
    ensures
        h.brush <==> nav is Idle && tool is Brush,
        h.picker <==> nav is Idle && tool is ColorPicker,
        h.gradient <==> nav is Idle && tool == Tool::Fill(FillTool::Gradient),
        h.cursor is Keep <==> !(nav is Idle),
        h.cursor is Crop <==> nav is Idle && tool is Crop,
        h.cursor matches HoverCursor::Crop(c) ==> c == crop,
        h.cursor is Transform <==> nav is Idle && tool is Transform && transform is Some,
        h.cursor matches HoverCursor::Transform(t) ==> transform == Some(t),
        h.cursor is Text <==> nav is Idle && tool is Text,
        nav is Idle && tool is Transform && transform is None ==> h.cursor is Default,
{
}

/// What a hover cursor is called: that of the handle under the pointer, the text box's
/// own or else that of text, and nothing where the pointer is hidden.
pub proof fn law_hover_cursors_have_names(
    cursor: HoverCursor,
    text: Option<&'static str>,
    name: Option<&'static str>,
)
    requires
        call_ensures(hover_cursor_name, (cursor, text), name),
    ensures
        name is None <==> cursor is Keep || cursor is Default,
        cursor is Hidden ==> name->0@ == "none"@,
        cursor matches HoverCursor::Crop(h) ==> name->0@ == h.cursor()@,
        cursor matches HoverCursor::Transform(h) ==> name->0@ == h.cursor()@,
        cursor is Text && text is Some ==> name->0@ == text->0@,
        cursor is Text && text is None ==> name->0@ == "text"@,
{
}

/// The cursor of a drag tells what it does, and while zooming which way: in where the
/// factor has not fallen, else out.
pub proof fn law_navigation_cursors_tell_the_drag(
    nav: NavDrag,
    name: Option<&'static str>,
    before: Single,
    now: Single,
    zoom: &'static str,
)
    requires
        call_ensures(nav_cursor, (nav,), name),
        call_ensures(zoom_cursor, (before, now), zoom),
    ensures
        name is None <==> nav is Idle,
        nav is Pan ==> name->0@ == "grabbing"@,
        nav is Zoom ==> name->0@ == "zoom-in"@,
        nav is Rotate ==> name->0@ == "crosshair"@,
        now.lt_spec(before) ==> zoom@ == "zoom-out"@,
        before.le_spec(now) ==> zoom@ == "zoom-in"@,
{
}

/// A pan applies the whole offset of the pointer: after any step the next one starts
/// where it ended.
pub proof fn law_a_pan_goes_on_where_it_ended(
    a: &mut PanDrag,
    first: Point,
    s: PanStep,
    b: &mut PanDrag,
    second: Point,
    t: PanStep,
)
    requires
        call_ensures(PanDrag::advance, (a, first), s),
        *old(b) == *final(a),
        call_ensures(PanDrag::advance, (b, second), t),
    ensures
        s.from == old(a).applied,
        s.to == first,
        t.from == s.to,
        t.to == second,
{
}

/// The way of the pointer is measured from its last motion, from the second motion on,
/// and in the time between the two, never less than none.
pub proof fn law_a_leg_starts_at_the_last_motion(
    a: &mut MotionTrail,
    first: Point,
    then: u64,
    before: Option<MotionLeg>,
    b: &mut MotionTrail,
    second: Point,
    now: u64,
    leg: Option<MotionLeg>,
)
    requires
        call_ensures(MotionTrail::advance, (a, first, then), before),
        *old(b) == *final(a),
        call_ensures(MotionTrail::advance, (b, second, now), leg),
    ensures
        before is Some <==> old(a).last is Some,
        leg is Some,
        leg->0.from == first,
        now >= then ==> leg->0.millis == now - then,
        now < then ==> leg->0.millis == 0,
        final(b).direction == old(a).direction,
{
}

/// The direction of travel changes only with a leg of a pixel or more, and then to that
/// leg's heading; the direction is what is handed out, either way.
pub proof fn law_only_a_clear_leg_turns(
    t: &mut MotionTrail,
    distance: Single,
    heading: Single,
    d: Single,
)
    requires
        call_ensures(MotionTrail::turn, (t, distance, heading), d),
    ensures
        (Single { bits: 0x3f80_0000 }).le_spec(distance) ==> d == heading,
        !(Single { bits: 0x3f80_0000 }).le_spec(distance) ==> d == old(t).direction,
        final(t).direction == d,
        final(t).last == old(t).last,
{
}

/// A frame follows the one on the screen only where both sides are the same, and then
/// carries the changed region exactly where there is one that a screen can hold.
pub proof fn law_a_frame_follows_one_of_its_size(
    previous: Option<(i32, i32)>,
    width: u32,
    height: u32,
    damage: Option<(i32, i32, u32, u32)>,
    c: FrameChain,
)
    requires
        call_ensures(frame_chain, (previous, width, height, damage), c),
        width <= i32::MAX,
        height <= i32::MAX,
    ensures
        c is Alone <==> previous is None || (previous->0).0 != width || (previous->0).1 != height,
        c is Region <==> !(c is Alone) && damage is Some && (damage->0).2 <= i32::MAX && (damage->0).3
            <= i32::MAX,
        c matches FrameChain::Region { x, y, w, h } ==> damage is Some && x == (damage->0).0 && y
            == (damage->0).1 && w == (damage->0).2 && h == (damage->0).3,
{
}

/// A side that is too long for the screen is the side of no frame there.
pub proof fn law_a_side_is_itself_or_none(side: u32)
    ensures
        side <= i32::MAX ==> signed_side(side) == side,
        side > i32::MAX ==> signed_side(side) < 0,
{
}

/// Until the widget has an area nothing is shown; then the canvas is fitted in unless
/// it has been. A view can be fitted exactly then.
pub proof fn law_the_first_frame_waits_for_an_area(
    width: i32,
    height: i32,
    centered: bool,
    f: FirstFrame,
    fits: bool,
)
    requires
        call_ensures(first_frame, (width, height, centered), f),
        call_ensures(can_fit, (width, height), fits),
    ensures
        f is Wait <==> !fits,
        fits <==> width > 0 && height > 0,
        fits && centered ==> f is Show,
        fits && !centered ==> f is FitAndShow,
{
}

/// A wheel zooms and a touchpad pans, unless the fingers did not move.
pub proof fn law_wheels_zoom_and_touchpads_pan(
    touchpad: bool,
    dx: Single,
    dy: Single,
    s: ScrollStep,
)
    requires
        call_ensures(scroll_step, (touchpad, dx, dy), s),
    ensures
        s is Zoom <==> !touchpad,
        s is Pan <==> touchpad && (dx.magnitude() != 0 || dy.magnitude() != 0),
{
}

/// A pinch scales the zoom that it began with, through all its updates.
pub proof fn law_a_pinch_scales_the_zoom_it_began_with(
    a: &mut Pinch,
    zoom: Single,
    first: Option<Single>,
    b: &mut Pinch,
    phase: PinchPhase,
    other: Single,
    then: Option<Single>,
    c: &mut Pinch,
    third: Single,
    last: Option<Single>,
)
    requires
        call_ensures(Pinch::phase, (a, PinchPhase::Begin, zoom), first),
        *old(b) == *final(a),
        phase != PinchPhase::Begin,
        call_ensures(Pinch::phase, (b, phase, other), then),
        *old(c) == *final(b),
        call_ensures(Pinch::phase, (c, PinchPhase::Update, third), last),
    ensures
        first is None,
        then is Some <==> phase is Update,
        then is Some ==> then == Some(zoom),
        last == Some(zoom),
{
}

/// The view is fitted anew exactly where the canvas has another size than is shown, and
/// then to that size. A pixel is sampled anywhere but above or left of the canvas.
pub proof fn law_the_view_follows_the_canvas(
    shown: Size,
    now: Size,
    r: Option<Size>,
    at: Point,
    samples: bool,
)
    requires
        call_ensures(resync_canvas_size, (shown, now), r),
        call_ensures(may_sample, (at,), samples),
    ensures
        r is Some <==> shown != now,
        r is Some ==> r == Some(now),
        at.x.lt_spec(Single { bits: 0 }) ==> !samples,
        at.y.lt_spec(Single { bits: 0 }) ==> !samples,
        (Single { bits: 0 }).le_spec(at.x) && (Single { bits: 0 }).le_spec(at.y) ==> samples,
{
}

/// The number that a position gives depends on the x coordinate and on the y coordinate
/// turned by thirteen bits, and on nothing else; it is the upper three bytes of that
/// times a constant.
pub proof fn law_a_stable_number_mixes_both_coordinates(x: u32, y: u32)
    ensures
        stable_random_spec(x, y) == stable_random_spec(x ^ ((y << 13) | (y >> 19)), 0),
        stable_random_spec(x, 0) == (x * 0x9e37_79b9) % 0x1_0000_0000 / 0x100,
        stable_random_spec(x, y) < 0x100_0000,
{
    let turned = (y << 13) | (y >> 19);
    let mixed = x ^ turned;
    assert(mixed ^ ((0u32 << 13) | (0u32 >> 19)) == mixed) by (bit_vector);
    assert(x ^ ((0u32 << 13) | (0u32 >> 19)) == x) by (bit_vector);
    let plain = x.wrapping_mul(0x9e37_79b9);
    assert(plain >> 8 == plain / 0x100) by (bit_vector);
    let hashed = mixed.wrapping_mul(0x9e37_79b9);
    assert(hashed >> 8 < 0x100_0000) by (bit_vector);
}

} // verus!

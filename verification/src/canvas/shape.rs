//! Gestures that draw out a figure: shapes, gradients, text boxes and the crop.

use vstd::prelude::*;

use crate::canvas::select::{is_under_a_pixel, under_a_pixel};
use crate::geometry::{Color, Point};
use crate::ieee::Single;
use crate::tool::ShapeTool;

verus! {

/// The smallest crop side, two pixels.
pub const MIN_CROP: u32 = 0x4000_0000;

/// The smallest drag that makes a text box, three pixels.
pub const TEXT_DRAG_MIN: u32 = 0x4040_0000;

/// A box by its corner and sides.
#[derive(Clone, Copy, Debug, PartialEq, Eq, Structural)]
pub struct Figure {
    pub x: Single,
    pub y: Single,
    pub w: Single,
    pub h: Single,
}

/// The layer that a figure goes to, with its pixels from before.
pub struct LayerCapture {
    pub idx: usize,
    pub id: String,
    pub before: Vec<u8>,
}

/// A figure being drawn: what is drawn so far, and the layer captured when the
/// drag began.
pub struct FigureGesture<F> {
    pub drawn: Option<F>,
    pub layer: Option<LayerCapture>,
}

/// What the end of the drag does.
pub enum FigureEnd<F> {
    /// Take the preview down; `present` says that the canvas is shown again.
    Cancel { present: bool },
    /// Draw the figure on the layer and record what it changed.
    Commit(F, LayerCapture),
}

/// Whether a shape is no more than a click: a line shorter than a pixel both
/// ways, any other shape thinner than a pixel either way.
pub open spec fn negligible(kind: ShapeTool, f: Figure) -> bool {
    if kind == ShapeTool::Line {
        under_a_pixel(f.w) && under_a_pixel(f.h)
    } else {
        under_a_pixel(f.w) || under_a_pixel(f.h)
    }
}

/// Whether a shape is no more than a click.
pub fn is_negligible(kind: ShapeTool, f: Figure) -> (r: bool)
    ensures
        r == negligible(kind, f),
{
    match kind {
        ShapeTool::Line => is_under_a_pixel(f.w) && is_under_a_pixel(f.h),
        ShapeTool::Area => is_under_a_pixel(f.w) || is_under_a_pixel(f.h),
    }
}

impl<F: Copy> FigureGesture<F> {
    /// Begin a figure on the layer, if there is one and it could be read. True
    /// puts the preview up.
    pub fn begin(&mut self, layer: Option<LayerCapture>) -> (preview: bool)
        ensures
            final(self).drawn is None,
            final(self).layer == layer,
            preview == (layer is Some),
    {
        self.drawn = None;
        self.layer = layer;
        self.layer.is_some()
    }

    /// The figure is now this.
    pub fn update(&mut self, drawn: F)
        ensures
            final(self).drawn == Some(drawn),
            final(self).layer == old(self).layer,
    {
        self.drawn = Some(drawn);
    }

    /// End the drag; `negligible` tells of the drawn figure that it is no more
    /// than a click. Nothing is left of the gesture, whichever way it ends.
    pub fn end(&mut self, negligible: bool) -> (r: FigureEnd<F>)
        ensures
            final(self).drawn is None,
            final(self).layer is None,
            match old(self).drawn {
                None => r == (FigureEnd::<F>::Cancel { present: true }),
                Some(f) => match old(self).layer {
                    None => r == (FigureEnd::<F>::Cancel { present: false }),
                    Some(layer) => if negligible {
                        r == (FigureEnd::<F>::Cancel { present: true })
                    } else {
                        r == FigureEnd::Commit(f, layer)
                    },
                },
            },
    {
        let layer = self.layer.take();
        match self.drawn.take() {
            None => FigureEnd::Cancel { present: true },
            Some(f) => match layer {
                None => FigureEnd::Cancel { present: false },
                Some(layer) => if negligible {
                    FigureEnd::Cancel { present: true }
                } else {
                    FigureEnd::Commit(f, layer)
                },
            },
        }
    }
}

/// The end of a shape drag: the figure that is there decides whether it is drawn.
pub fn shape_end(g: &mut FigureGesture<Figure>, kind: ShapeTool) -> (r: FigureEnd<Figure>)
    ensures
        final(g).drawn is None,
        final(g).layer is None,
        match (old(g).drawn, old(g).layer) {
            (None, _) => r == (FigureEnd::<Figure>::Cancel { present: true }),
            (Some(_), None) => r == (FigureEnd::<Figure>::Cancel { present: false }),
            (Some(f), Some(layer)) => if negligible(kind, f) {
                r == (FigureEnd::<Figure>::Cancel { present: true })
            } else {
                r == FigureEnd::Commit(f, layer)
            },
        },
{
    let small = match g.drawn {
        Some(f) => is_negligible(kind, f),
        None => true,
    };
    g.end(small)
}

/// What follows drawing a figure on the layer. The canvas is shown again in any
/// case.
#[derive(Clone, Copy, Debug, PartialEq, Eq, Structural)]
pub struct FigureLanding {
    /// Take the preview down: the figure could not be drawn.
    pub cancel: bool,
    /// Record what the figure changed.
    pub record: bool,
}

/// What follows drawing a figure on the layer, given whether it was drawn, whether
/// the layer could be read after it, and whether that differs from before.
pub fn figure_landed(committed: bool, read: bool, differs: bool) -> (l: FigureLanding)
    ensures
        l == (FigureLanding { cancel: !committed, record: committed && read && differs }),
{
    FigureLanding { cancel: !committed, record: committed && read && differs }
}

/// The crop that a drag leaves: a normalized rectangle of at least two pixels
/// each way, else none. A side that is no number is not below two pixels.
pub fn crop_end(normalized: Figure) -> (r: Option<Figure>)
    ensures
        r == (if normalized.w.lt_spec(Single { bits: MIN_CROP }) || normalized.h.lt_spec(
            Single { bits: MIN_CROP },
        ) {
            None
        } else {
            Some(normalized)
        }),
{
    let min = Single { bits: MIN_CROP };
    if normalized.w.less(min) || normalized.h.less(min) {
        None
    } else {
        Some(normalized)
    }
}

/// A press with the text tool.
#[derive(Clone, Copy, Debug, PartialEq, Eq, Structural)]
pub struct TextGesture {
    pub start: Point,
    /// The box dragged so far.
    pub drawn: Option<Figure>,
    /// The press went to the editor.
    pub editing: bool,
}

/// What the end of a text press does.
#[derive(Clone, Copy, Debug, PartialEq, Eq, Structural)]
pub enum TextEnd {
    /// The editor takes the release.
    Release,
    /// A text box of the dragged size.
    FixedBox(Figure),
    /// A text box at this point that grows with its text.
    GrowingBox(Point),
}

/// A measure of at least three pixels.
pub open spec fn box_sized(m: Single) -> bool {
    (Single { bits: TEXT_DRAG_MIN }).le_spec(Single { bits: m.magnitude() as u32 })
}

impl TextGesture {
    /// A press: the editor may take it, and while text is edited a press beside
    /// it only ends that edit.
    pub fn begin(start: Point, was_editing: bool, consumed: bool) -> (g: TextGesture)
        ensures
            g == (TextGesture { start, drawn: None, editing: consumed || was_editing }),
    {
        TextGesture { start, drawn: None, editing: consumed || was_editing }
    }

    /// The box dragged so far. True hands the move to the editor instead.
    pub fn update(&mut self, drawn: Figure) -> (editor: bool)
        ensures
            editor == old(self).editing,
            *final(self) == (if editor {
                *old(self)
            } else {
                TextGesture { drawn: Some(drawn), ..*old(self) }
            }),
    {
        if self.editing {
            true
        } else {
            self.drawn = Some(drawn);
            false
        }
    }

    /// The release: a drag of at least three pixels both ways makes a box of its
    /// size, anything less a box that grows.
    pub fn end(&mut self) -> (r: TextEnd)
        ensures
            r == (if old(self).editing {
                TextEnd::Release
            } else {
                match old(self).drawn {
                    Some(f) => if box_sized(f.w) && box_sized(f.h) {
                        TextEnd::FixedBox(f)
                    } else {
                        TextEnd::GrowingBox(old(self).start)
                    },
                    None => TextEnd::GrowingBox(old(self).start),
                }
            }),
            *final(self) == (if old(self).editing {
                *old(self)
            } else {
                TextGesture { drawn: None, ..*old(self) }
            }),
    {
        if self.editing {
            return TextEnd::Release;
        }
        let min = Single { bits: TEXT_DRAG_MIN };
        match self.drawn.take() {
            Some(f) => if min.at_most(f.w.abs()) && min.at_most(f.h.abs()) {
                TextEnd::FixedBox(f)
            } else {
                TextEnd::GrowingBox(self.start)
            },
            None => TextEnd::GrowingBox(self.start),
        }
    }
}

/// The color that a press picks: the one that the loupe has sampled, else the
/// one read at the press.
pub fn picked_color(loupe: Option<Color>, read: Option<Color>) -> (c: Option<Color>)
    ensures
        c == (if loupe is Some {
            loupe
        } else {
            read
        }),
{
    match loupe {
        Some(c) => Some(c),
        None => read,
    }
}

/// A layer in a transform: its pixels, their size, and whether it is text.
pub struct TransformTarget {
    pub layer_idx: usize,
    pub pixels: Vec<u8>,
    pub width: u32,
    pub height: u32,
    pub text: bool,
}

impl TransformTarget {
    /// As many bytes as the size asks for, four to a pixel.
    pub open spec fn sized(self) -> bool {
        self.pixels@.len() == self.width * self.height * 4
    }
}

/// Whether a buffer holds four bytes for each pixel of a size.
pub fn is_pixel_sized(len: usize, width: u32, height: u32) -> (r: bool)
    ensures
        r == (len == width * height * 4),
{
    let w: u128 = width as u128;
    let h: u128 = height as u128;
    assert(w * h <= 0xffff_ffff * 0xffff_ffff) by (nonlinear_arith)
        requires
            w <= 0xffff_ffff,
            h <= 0xffff_ffff,
    ;
    let bytes: u128 = w * h * 4;
    len as u128 == bytes
}

/// Whether the live preview can start: there is a target, and none would upload
/// pixels that do not match its size.
pub fn preview_can_start(active: bool, targets: &Vec<TransformTarget>) -> (r: bool)
    ensures
        r == (!active && targets@.len() > 0 && forall|i: int|
            0 <= i < targets@.len() ==> (#[trigger] targets@[i]).sized()),
{
    if active || targets.len() == 0 {
        return false;
    }
    let mut i: usize = 0;
    while i < targets.len()
        invariant
            i <= targets.len(),
            forall|j: int| 0 <= j < i ==> (#[trigger] targets@[j]).sized(),
        decreases targets.len() - i,
    {
        let t = &targets[i];
        if !is_pixel_sized(t.pixels.len(), t.width, t.height) {
            assert(!targets@[i as int].sized());
            return false;
        }
        i = i + 1;
    }
    true
}

/// The text layer to render again as it grows: only one that is transformed
/// alone.
pub fn lone_text_target(targets: &Vec<TransformTarget>) -> (r: Option<usize>)
    ensures
        r == (if targets@.len() == 1 && targets@[0].text {
            Some(targets@[0].layer_idx)
        } else {
            None
        }),
{
    if targets.len() == 1 && targets[0].text {
        Some(targets[0].layer_idx)
    } else {
        None
    }
}

/// A line counts once it is a pixel long one way; a shape with an area only once it is
/// both ways.
pub proof fn law_what_is_too_small_to_draw(f: Figure)
    ensures
        ({
            let wide = f.w.magnitude() >= 0x3f80_0000;
            let tall = f.h.magnitude() >= 0x3f80_0000;
            &&& negligible(ShapeTool::Line, f) <==> !wide && !tall
            &&& negligible(ShapeTool::Area, f) <==> !(wide && tall)
        }),
{
}

/// A figure goes to the layer that was captured when its drag began and is drawn as it
/// was last drawn out, whatever was drawn out before.
pub proof fn law_a_figure_lands_as_last_drawn<F: Copy>(
    a: &mut FigureGesture<F>,
    layer: Option<LayerCapture>,
    preview: bool,
    b: &mut FigureGesture<F>,
    first: F,
    c: &mut FigureGesture<F>,
    last: F,
    d: &mut FigureGesture<F>,
    small: bool,
    r: FigureEnd<F>,
)
    requires
        call_ensures(FigureGesture::<F>::begin, (a, layer), preview),
        *old(b) == *final(a),
        call_ensures(FigureGesture::<F>::update, (b, first), ()),
        *old(c) == *final(b),
        call_ensures(FigureGesture::<F>::update, (c, last), ()),
        *old(d) == *final(c),
        call_ensures(FigureGesture::<F>::end, (d, small), r),
    ensures
        preview <==> layer is Some,
        final(a).drawn is None,
        r is Commit <==> layer is Some && !small,
        r matches FigureEnd::Commit(f, target) ==> f == last && layer == Some(target),
        r matches FigureEnd::Cancel { present } ==> present == (layer is Some),
        final(d).drawn is None && final(d).layer is None,
{
}

/// A drag that drew nothing out draws nothing and shows the canvas again.
pub proof fn law_an_empty_drag_draws_nothing<F: Copy>(
    g: &mut FigureGesture<F>,
    small: bool,
    r: FigureEnd<F>,
)
    requires
        old(g).drawn is None,
        call_ensures(FigureGesture::<F>::end, (g, small), r),
    ensures
        r matches FigureEnd::Cancel { present } && present,
        final(g).layer is None,
{
}

/// The end of a shape's drag draws the shape on its layer exactly where both are there
/// and the shape is large enough for its kind.
pub proof fn law_a_shape_large_enough_is_drawn(
    g: &mut FigureGesture<Figure>,
    kind: ShapeTool,
    r: FigureEnd<Figure>,
)
    requires
        call_ensures(shape_end, (g, kind), r),
    ensures
        r is Commit <==> old(g).drawn is Some && old(g).layer is Some && !negligible(
            kind,
            old(g).drawn->0,
        ),
        r matches FigureEnd::Commit(f, layer) ==> old(g).drawn == Some(f) && old(g).layer == Some(
            layer,
        ),
        final(g).drawn is None && final(g).layer is None,
{
}

/// A figure that could not be drawn is taken down; one that was is recorded exactly
/// where it changed what could be read.
pub proof fn law_a_landed_figure_is_recorded_or_taken_down(
    committed: bool,
    read: bool,
    differs: bool,
    l: FigureLanding,
)
    requires
        call_ensures(figure_landed, (committed, read, differs), l),
    ensures
        l.cancel <==> !committed,
        l.record ==> committed && read && differs,
        committed && read && differs ==> l.record,
        !(l.cancel && l.record),
{
}

/// A drag leaves a crop as it was drawn, unless a side is below two pixels.
pub proof fn law_a_crop_has_two_pixels_each_way(f: Figure, r: Option<Figure>)
    requires
        call_ensures(crop_end, (f,), r),
    ensures
        r is Some ==> r == Some(f),
        f.w.lt_spec(Single { bits: 0x4000_0000 }) ==> r is None,
        f.h.lt_spec(Single { bits: 0x4000_0000 }) ==> r is None,
        (Single { bits: 0x4000_0000 }).le_spec(f.w) && (Single { bits: 0x4000_0000 }).le_spec(f.h)
            ==> r is Some,
{
}

/// A press that the editor took, or that ends an edit, never makes a box: its moves and
/// its release go to the editor. Any other press makes one, of the dragged size where
/// that is three pixels both ways, and else one that grows from where the press was.
pub proof fn law_what_a_text_press_makes(
    start: Point,
    was_editing: bool,
    consumed: bool,
    g: TextGesture,
    a: &mut TextGesture,
    drawn: Figure,
    editor: bool,
    b: &mut TextGesture,
    r: TextEnd,
)
    requires
        call_ensures(TextGesture::begin, (start, was_editing, consumed), g),
        *old(a) == g,
        call_ensures(TextGesture::update, (a, drawn), editor),
        *old(b) == *final(a),
        call_ensures(TextGesture::end, (b,), r),
    ensures
        editor <==> was_editing || consumed,
        r is Release <==> editor,
        r is FixedBox <==> !editor && drawn.w.magnitude() >= 0x4040_0000 && !drawn.w.nan()
            && drawn.h.magnitude() >= 0x4040_0000 && !drawn.h.nan(),
        r matches TextEnd::FixedBox(f) ==> f == drawn,
        r matches TextEnd::GrowingBox(at) ==> at == start,
        final(b).drawn is None,
{
}

/// A text press that was not dragged makes a box that grows from where it was.
pub proof fn law_a_text_click_makes_a_growing_box(
    start: Point,
    g: TextGesture,
    b: &mut TextGesture,
    r: TextEnd,
)
    requires
        call_ensures(TextGesture::begin, (start, false, false), g),
        *old(b) == g,
        call_ensures(TextGesture::end, (b,), r),
    ensures
        r == TextEnd::GrowingBox(start),
{
}

/// What the loupe has sampled is picked before what was read.
pub proof fn law_the_loupe_comes_first(
    loupe: Option<Color>,
    read: Option<Color>,
    c: Option<Color>,
)
    requires
        call_ensures(picked_color, (loupe, read), c),
    ensures
        loupe is Some ==> c == loupe,
        loupe is None ==> c == read,
{
}

/// A preview starts once, for at least one layer, and only where each has four bytes
/// for every pixel; text is rendered again only where it is alone.
pub proof fn law_when_a_transform_preview_starts(
    active: bool,
    targets: Vec<TransformTarget>,
    starts: bool,
    text: Option<usize>,
    i: int,
)
    requires
        call_ensures(preview_can_start, (active, &targets), starts),
        call_ensures(lone_text_target, (&targets,), text),
    ensures
        active ==> !starts,
        targets@.len() == 0 ==> !starts,
        starts && 0 <= i < targets@.len() ==> targets@[i].pixels@.len() == 4 * (targets@[i].width
            * targets@[i].height),
        0 <= i < targets@.len() && targets@[i].pixels@.len() != 4 * (targets@[i].width
            * targets@[i].height) ==> !starts,
        !active && targets@.len() == 1 && targets@[0].pixels@.len() == 4 * (targets@[0].width
            * targets@[0].height) ==> starts,
        text is Some ==> targets@.len() == 1 && targets@[0].text && text == Some(
            targets@[0].layer_idx,
        ),
        targets@.len() == 1 && targets@[0].text ==> text is Some,
{
    if 0 <= i < targets@.len() {
        assert(targets@[i].sized() == (targets@[i].pixels@.len() == 4 * (targets@[i].width
            * targets@[i].height)));
    }
}

/// A buffer that fits a picture stops fitting it with any row or column more, unless
/// those hold nothing.
pub proof fn law_a_buffer_fits_one_size(len: usize, width: u32, height: u32, a: bool, b: bool)
    requires
        height < u32::MAX,
        call_ensures(is_pixel_sized, (len, width, height), a),
        call_ensures(is_pixel_sized, (len, width, (height + 1) as u32), b),
    ensures
        a && b ==> width == 0 && len == 0,
        a && width == 1 ==> len == 4 * height,
        a && height == 1 ==> len == 4 * width,
{
    let wide = width as int;
    let high = height as int;
    assert(wide * (high + 1) == wide * high + wide) by (nonlinear_arith);
    if wide == 0 {
        assert(wide * high == 0) by (nonlinear_arith)
            requires
                wide == 0,
        ;
    }
    if high == 1 {
        assert(wide * high == wide) by (nonlinear_arith)
            requires
                high == 1,
        ;
    }
    if wide == 1 {
        assert(wide * high == high) by (nonlinear_arith)
            requires
                wide == 1,
        ;
    }
}

/// Drawing on keeps the layer that was taken at the press, and a text gesture keeps where
/// it was pressed and who has the pointer.
pub proof fn law_drawing_on_keeps_what_was_pressed<F: Copy>(
    g: &mut FigureGesture<F>,
    drawn: F,
    t: &mut TextGesture,
    figure: Figure,
    editor: bool,
    u: &mut TextGesture,
    end: TextEnd,
)
    requires
        call_ensures(FigureGesture::<F>::update, (g, drawn), ()),
        call_ensures(TextGesture::update, (t, figure), editor),
        call_ensures(TextGesture::end, (u,), end),
    ensures
        final(g).layer == old(g).layer && final(g).drawn == Some(drawn),
        final(t).start == old(t).start && final(t).editing == old(t).editing,
        editor <==> old(t).editing,
        editor ==> final(t).drawn == old(t).drawn,
        !editor ==> final(t).drawn == Some(figure),
        final(u).start == old(u).start && final(u).editing == old(u).editing,
        old(u).editing ==> final(u).drawn == old(u).drawn,
        !old(u).editing ==> final(u).drawn is None,
{
}

} // verus!

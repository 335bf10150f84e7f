//! What the canvas widget paints, and in which order.
//!
//! Textures and outlines belong to the toolkit; here each is told by a number.

use vstd::prelude::*;

use crate::canvas::select::PendingMarquee;
use crate::geometry::{Color, Point};
use crate::ieee::Single;
use crate::text::{decimal, push_decimal, push_text};

verus! {

/// One side of a checker tile, in pixels.
pub const CHECKER_TILE: usize = 128;

/// One side of a cell of the tile. A tile is two cells wide.
pub const CHECKER_CELL: usize = 64;

/// The smallest zoom that is painted with: the distance from one to the next
/// single.
pub const LEAST_ZOOM: u32 = 0x3400_0000;

/// A box in canvas pixels, turned about its center.
#[derive(Clone, Copy, Debug, PartialEq, Eq, Structural)]
pub struct TransformRect {
    pub cx: Single,
    pub cy: Single,
    pub w: Single,
    pub h: Single,
    pub angle: Single,
}

/// A box by its corner.
#[derive(Clone, Copy, Debug, PartialEq, Eq, Structural)]
pub struct Area {
    pub x: Single,
    pub y: Single,
    pub w: Single,
    pub h: Single,
}

/// The lines inside the crop box.
#[derive(Clone, Copy, Debug, PartialEq, Eq, Structural)]
pub enum CropOverlay {
    Thirds,
    Grid,
    Diagonal,
    Triangle,
    Golden,
    Spiral,
}

/// The loupe of the color picker: where the pointer is and what it is over.
#[derive(Clone, Copy, Debug, PartialEq, Eq, Structural)]
pub struct ColorPickerOverlay {
    pub cursor: Point,
    pub color: Option<Color>,
}

/// The color of the border that marks a component.
#[derive(Clone, Copy, Debug, PartialEq, Eq, Structural)]
pub struct Accent {
    pub r: Single,
    pub g: Single,
    pub b: Single,
}

/// What editing a text shows besides its selection and its handles.
#[derive(Clone, Copy, Debug, PartialEq, Eq, Structural)]
pub struct TextOverlay {
    pub active: bool,
    pub frame: Option<TransformRect>,
    pub caret: Option<Area>,
    pub caret_visible: bool,
    pub scale_x: Single,
    pub scale_y: Single,
}

/// What transforming a layer shows.
#[derive(Clone, Copy, Debug, PartialEq, Eq, Structural)]
pub struct TransformOverlay {
    pub active: bool,
    pub rect: Option<TransformRect>,
    /// The renderer draws the moved layer itself.
    pub gpu_preview: bool,
    /// The picture of the layer, and the box it was captured in.
    pub source: Option<u64>,
    pub original: Option<TransformRect>,
    /// The picture of the layers above it.
    pub above: Option<u64>,
}

/// How single pixels are shown at a large zoom.
#[derive(Clone, Copy, Debug, PartialEq, Eq, Structural)]
pub struct PixelView {
    pub enabled: bool,
    pub nearest_threshold: Single,
    pub grid_enabled: bool,
    pub grid_threshold: Single,
}

/// What the canvas widget holds between paints.
#[derive(Clone, Copy, Debug, PartialEq, Eq, Structural)]
pub struct CanvasPaintable {
    pub texture: Option<u64>,
    pub checker: Option<u64>,
    pub canvas_w: u32,
    pub canvas_h: u32,
    pub crop_rect: Option<Area>,
    pub crop_overlay: CropOverlay,
    pub crop_active: bool,
    pub transform: TransformOverlay,
    /// The outlines of the selection.
    pub contours: u64,
    /// A selection is being drawn.
    pub selection_pending: bool,
    pub pixel_view: PixelView,
    pub brush_cursor: Option<u64>,
    pub color_picker: Option<ColorPickerOverlay>,
    /// The label has characters.
    pub labelled: bool,
    pub bordered: bool,
    pub accent: Accent,
    /// The picture of the label, once it has been drawn.
    pub label_cache: Option<u64>,
    pub text: TextOverlay,
    pub text_pending: Option<TransformRect>,
    pub perf: bool,
}

/// One step of painting. A picture that is painted with sharp pixels carries
/// `nearest`.
#[derive(Clone, Copy, Debug, PartialEq, Eq, Structural)]
pub enum Step {
    Backdrop,
    Checker { texture: u64, nearest: bool },
    Canvas { texture: u64, nearest: bool },
    Moved { texture: u64, rect: TransformRect, original: TransformRect, nearest: bool },
    Above { texture: u64, nearest: bool },
    DocumentEdge,
    AccentEdge(Accent),
    Label(u64),
    PixelGrid,
    Crop { area: Area, overlay: CropOverlay },
    Handles(TransformRect),
    TextEdit { frame: TransformRect, caret: Option<Area>, scale_x: Single, scale_y: Single },
    TextPending(TransformRect),
    BrushCursor(u64),
    Selection,
    Picker(ColorPickerOverlay),
    Perf,
}

/// One step or none.
pub open spec fn maybe(step: Option<Step>) -> Seq<Step> {
    match step {
        Some(s) => seq![s],
        None => seq![],
    }
}

/// One step if a condition holds.
pub open spec fn when(c: bool, s: Step) -> Option<Step> {
    if c {
        Some(s)
    } else {
        None
    }
}

/// The zoom that is painted with.
pub open spec fn painted_zoom(zoom: Single) -> Single {
    if (Single { bits: LEAST_ZOOM }).lt_spec(zoom) {
        zoom
    } else {
        Single { bits: LEAST_ZOOM }
    }
}

/// The zoom that is painted with: never less than the least.
pub fn paint_zoom(zoom: Single) -> (z: Single)
    ensures
        z == painted_zoom(zoom),
        !z.nan(),
        z.place() >= LEAST_ZOOM,
{
    let least = Single { bits: LEAST_ZOOM };
    if least.less(zoom) {
        zoom
    } else {
        least
    }
}

impl PixelView {
    /// Whether pixels are shown sharp.
    pub open spec fn sharp(self, zoom: Single) -> bool {
        self.enabled && self.nearest_threshold.le_spec(zoom)
    }

    /// Whether the grid between pixels shows.
    pub open spec fn gridded(self, zoom: Single) -> bool {
        self.enabled && self.grid_enabled && self.grid_threshold.le_spec(zoom)
    }
}

impl TransformOverlay {
    /// The moved layer, unless the renderer draws it.
    pub open spec fn moved(self, nearest: bool) -> Option<Step> {
        if self.active && !self.gpu_preview {
            match (self.source, self.rect, self.original) {
                (Some(texture), Some(rect), Some(original)) => Some(
                    Step::Moved { texture, rect, original, nearest },
                ),
                _ => None,
            }
        } else {
            None
        }
    }

    /// The layers above the moved one.
    pub open spec fn over(self, nearest: bool) -> Option<Step> {
        match (self.moved(nearest), self.above) {
            (Some(_), Some(texture)) => Some(Step::Above { texture, nearest }),
            _ => None,
        }
    }

    /// The handles round the moved layer.
    pub open spec fn handles(self) -> Option<Step> {
        match self.rect {
            Some(rect) => when(self.active, Step::Handles(rect)),
            None => None,
        }
    }

    /// The overlay after transforming was switched on or off.
    pub open spec fn switched(self, active: bool) -> TransformOverlay {
        if active {
            TransformOverlay { active: true, ..self }
        } else {
            TransformOverlay { active: false, above: None, gpu_preview: false, ..self }
        }
    }
}

impl CanvasPaintable {
    /// The checker behind the canvas.
    pub open spec fn checker_step(self, nearest: bool) -> Option<Step> {
        match self.checker {
            Some(texture) => Some(Step::Checker { texture, nearest }),
            None => None,
        }
    }

    /// The picture of the canvas.
    pub open spec fn canvas_step(self, nearest: bool) -> Option<Step> {
        match self.texture {
            Some(texture) => Some(Step::Canvas { texture, nearest }),
            None => None,
        }
    }

    /// The canvas itself: backdrop, checker and picture, and the moved layer.
    pub open spec fn ground(self, nearest: bool) -> Seq<Step> {
        seq![Step::Backdrop] + maybe(self.checker_step(nearest)) + maybe(self.canvas_step(nearest))
            + maybe(self.transform.moved(nearest)) + maybe(self.transform.over(nearest))
    }

    /// The label over the canvas.
    pub open spec fn label_step(self) -> Option<Step> {
        match self.label_cache {
            Some(texture) => Some(Step::Label(texture)),
            None => None,
        }
    }

    /// What frames the canvas: its edge, the edge of a component, the label and
    /// the pixel grid.
    pub open spec fn frame(self, zoom: Single) -> Seq<Step> {
        seq![Step::DocumentEdge] + maybe(when(self.bordered, Step::AccentEdge(self.accent)))
            + maybe(self.label_step()) + maybe(
            when(self.pixel_view.gridded(zoom), Step::PixelGrid),
        )
    }

    /// The crop box.
    pub open spec fn crop_step(self) -> Option<Step> {
        match self.crop_rect {
            Some(area) => when(self.crop_active, Step::Crop { area, overlay: self.crop_overlay }),
            None => None,
        }
    }

    /// The text that is being edited.
    pub open spec fn text_step(self) -> Option<Step> {
        match self.text.frame {
            Some(frame) => when(
                self.text.active,
                Step::TextEdit {
                    frame,
                    caret: if self.text.caret_visible {
                        self.text.caret
                    } else {
                        None
                    },
                    scale_x: self.text.scale_x,
                    scale_y: self.text.scale_y,
                },
            ),
            None => None,
        }
    }

    /// The text box that is being drawn.
    pub open spec fn text_pending_step(self) -> Option<Step> {
        match self.text_pending {
            Some(rect) => Some(Step::TextPending(rect)),
            None => None,
        }
    }

    /// The boxes of the tools.
    pub open spec fn boxes(self) -> Seq<Step> {
        maybe(self.crop_step()) + maybe(self.transform.handles()) + maybe(self.text_step()) + maybe(
            self.text_pending_step(),
        )
    }

    /// The outline of the brush.
    pub open spec fn brush_step(self) -> Option<Step> {
        match self.brush_cursor {
            Some(outline) => Some(Step::BrushCursor(outline)),
            None => None,
        }
    }

    /// The loupe of the color picker.
    pub open spec fn picker_step(self) -> Option<Step> {
        match self.color_picker {
            Some(picker) => Some(Step::Picker(picker)),
            None => None,
        }
    }

    /// What stands on top of everything.
    pub open spec fn top(self) -> Seq<Step> {
        maybe(self.brush_step()) + maybe(
            when(self.contours > 0 || self.selection_pending, Step::Selection),
        ) + maybe(self.picker_step()) + maybe(when(self.perf, Step::Perf))
    }

    /// Everything that is painted, bottom first.
    pub open spec fn painting(self, zoom: Single) -> Seq<Step> {
        let z = painted_zoom(zoom);
        self.ground(self.pixel_view.sharp(z)) + self.frame(z) + self.boxes() + self.top()
    }

    /// A widget for a canvas of this size, with its checker tile and the lines of
    /// its crop box.
    pub fn new(
        canvas_w: u32,
        canvas_h: u32,
        checker: u64,
        crop_overlay: CropOverlay,
    ) -> (p: CanvasPaintable)
        ensures
            p.canvas_w == canvas_w,
            p.canvas_h == canvas_h,
            p.checker == Some(checker),
            p.texture is None,
            p.crop_rect is None,
            p.crop_overlay == crop_overlay,
            !p.crop_active,
            p.transform == (TransformOverlay {
                active: false,
                rect: None,
                gpu_preview: false,
                source: None,
                original: None,
                above: None,
            }),
            p.contours == 0,
            !p.selection_pending,
            p.pixel_view == (PixelView {
                enabled: true,
                nearest_threshold: Single { bits: 0x4080_0000 },
                grid_enabled: true,
                grid_threshold: Single { bits: 0x4100_0000 },
            }),
            p.brush_cursor is None,
            p.color_picker is None,
            p.labelled,
            !p.bordered,
            p.accent == (Accent {
                r: Single { bits: 0x3e57_0a3d },
                g: Single { bits: 0x3f05_1eb8 },
                b: Single { bits: 0x3f63_d70a },
            }),
            p.label_cache is None,
            p.text == (TextOverlay {
                active: false,
                frame: None,
                caret: None,
                caret_visible: true,
                scale_x: Single { bits: 0x3f80_0000 },
                scale_y: Single { bits: 0x3f80_0000 },
            }),
            p.text_pending is None,
            !p.perf,
    {
        CanvasPaintable {
            texture: None,
            checker: Some(checker),
            canvas_w,
            canvas_h,
            crop_rect: None,
            crop_overlay,
            crop_active: false,
            transform: TransformOverlay {
                active: false,
                rect: None,
                gpu_preview: false,
                source: None,
                original: None,
                above: None,
            },
            contours: 0,
            selection_pending: false,
            pixel_view: PixelView {
                enabled: true,
                nearest_threshold: Single { bits: 0x4080_0000 },
                grid_enabled: true,
                grid_threshold: Single { bits: 0x4100_0000 },
            },
            brush_cursor: None,
            color_picker: None,
            labelled: true,
            bordered: false,
            accent: Accent {
                r: Single { bits: 0x3e57_0a3d },
                g: Single { bits: 0x3f05_1eb8 },
                b: Single { bits: 0x3f63_d70a },
            },
            label_cache: None,
            text: TextOverlay {
                active: false,
                frame: None,
                caret: None,
                caret_visible: true,
                scale_x: Single { bits: 0x3f80_0000 },
                scale_y: Single { bits: 0x3f80_0000 },
            },
            text_pending: None,
            perf: false,
        }
    }

    /// Switch transforming on or off. Switching it off drops the picture of the
    /// layers above, so that it cannot show in a later transform.
    pub fn set_transform_active(&mut self, active: bool)
        ensures
            *final(self) == (CanvasPaintable {
                transform: old(self).transform.switched(active),
                ..*old(self)
            }),
    {
        self.transform.active = active;
        if !active {
            self.transform.above = None;
            self.transform.gpu_preview = false;
        }
    }

    /// The label, the border and its color. The picture of the old label is
    /// dropped.
    pub fn set_edit_mode(&mut self, labelled: bool, bordered: bool, accent: Accent)
        ensures
            *final(self) == (CanvasPaintable {
                labelled,
                label_cache: None,
                bordered,
                accent,
                ..*old(self)
            }),
    {
        self.labelled = labelled;
        self.label_cache = None;
        self.bordered = bordered;
        self.accent = accent;
    }

    /// Show or hide the caret. Whether the widget must be painted again.
    pub fn set_text_caret_visible(&mut self, visible: bool) -> (repaint: bool)
        ensures
            *final(self) == (CanvasPaintable {
                text: TextOverlay { caret_visible: visible, ..old(self).text },
                ..*old(self)
            }),
            repaint == (old(self).text.caret_visible != visible),
    {
        if self.text.caret_visible != visible {
            self.text.caret_visible = visible;
            true
        } else {
            false
        }
    }

    /// The color that the loupe is over.
    pub fn picker_color(&self) -> (c: Option<Color>)
        ensures
            c == (match self.color_picker {
                Some(overlay) => overlay.color,
                None => None,
            }),
    {
        match self.color_picker {
            Some(overlay) => overlay.color,
            None => None,
        }
    }

    /// Whether the label must be drawn before painting.
    pub fn wants_label(&self) -> (r: bool)
        ensures
            r == (self.label_cache is None && self.labelled),
    {
        self.label_cache.is_none() && self.labelled
    }

    /// Everything that is painted, bottom first.
    pub fn snapshot(&self, zoom: Single) -> (steps: Vec<Step>)
        ensures
            steps@ == self.painting(zoom),
    {
        let z = paint_zoom(zoom);
        let nearest = self.pixel_view.enabled && self.pixel_view.nearest_threshold.at_most(z);
        let mut steps: Vec<Step> = Vec::new();
        self.paint_ground(nearest, &mut steps);
        self.paint_frame(z, &mut steps);
        self.paint_boxes(&mut steps);
        self.paint_top(&mut steps);
        assert(steps@ =~= self.painting(zoom));
        steps
    }

    fn paint_ground(&self, nearest: bool, steps: &mut Vec<Step>)
        ensures
            final(steps)@ == old(steps)@ + self.ground(nearest),
    {
        steps.push(Step::Backdrop);
        if let Some(texture) = self.checker {
            steps.push(Step::Checker { texture, nearest });
        }
        if let Some(texture) = self.texture {
            steps.push(Step::Canvas { texture, nearest });
        }
        if self.transform.active && !self.transform.gpu_preview {
            match (self.transform.source, self.transform.rect, self.transform.original) {
                (Some(texture), Some(rect), Some(original)) => {
                    steps.push(Step::Moved { texture, rect, original, nearest });
                    if let Some(texture) = self.transform.above {
                        steps.push(Step::Above { texture, nearest });
                    }
                },
                _ => {},
            }
        }
        assert(steps@ =~= old(steps)@ + self.ground(nearest));
    }

    fn paint_frame(&self, zoom: Single, steps: &mut Vec<Step>)
        ensures
            final(steps)@ == old(steps)@ + self.frame(zoom),
    {
        steps.push(Step::DocumentEdge);
        if self.bordered {
            steps.push(Step::AccentEdge(self.accent));
        }
        if let Some(texture) = self.label_cache {
            steps.push(Step::Label(texture));
        }
        if self.pixel_view.enabled && self.pixel_view.grid_enabled
            && self.pixel_view.grid_threshold.at_most(zoom) {
            steps.push(Step::PixelGrid);
        }
        assert(steps@ =~= old(steps)@ + self.frame(zoom));
    }

    fn paint_boxes(&self, steps: &mut Vec<Step>)
        ensures
            final(steps)@ == old(steps)@ + self.boxes(),
    {
        if self.crop_active {
            if let Some(area) = self.crop_rect {
                steps.push(Step::Crop { area, overlay: self.crop_overlay });
            }
        }
        if self.transform.active {
            if let Some(rect) = self.transform.rect {
                steps.push(Step::Handles(rect));
            }
        }
        if self.text.active {
            if let Some(frame) = self.text.frame {
                let caret = if self.text.caret_visible {
                    self.text.caret
                } else {
                    None
                };
                steps.push(
                    Step::TextEdit {
                        frame,
                        caret,
                        scale_x: self.text.scale_x,
                        scale_y: self.text.scale_y,
                    },
                );
            }
        }
        if let Some(rect) = self.text_pending {
            steps.push(Step::TextPending(rect));
        }
        assert(steps@ =~= old(steps)@ + self.boxes());
    }

    fn paint_top(&self, steps: &mut Vec<Step>)
        ensures
            final(steps)@ == old(steps)@ + self.top(),
    {
        if let Some(outline) = self.brush_cursor {
            steps.push(Step::BrushCursor(outline));
        }
        if self.contours > 0 || self.selection_pending {
            steps.push(Step::Selection);
        }
        if let Some(picker) = self.color_picker {
            steps.push(Step::Picker(picker));
        }
        if self.perf {
            steps.push(Step::Perf);
        }
        assert(steps@ =~= old(steps)@ + self.top());
    }
}

impl Step {
    /// Whether the step paints a picture, and how.
    pub open spec fn filter(self) -> Option<bool> {
        match self {
            Step::Checker { nearest, .. } => Some(nearest),
            Step::Canvas { nearest, .. } => Some(nearest),
            Step::Moved { nearest, .. } => Some(nearest),
            Step::Above { nearest, .. } => Some(nearest),
            _ => None,
        }
    }
}

/// Whether every step of a row is such.
pub open spec fn every(steps: Seq<Step>, f: spec_fn(Step) -> bool) -> bool {
    forall|i: int| 0 <= i < steps.len() ==> f(#[trigger] steps[i])
}

proof fn lemma_every_joined(a: Seq<Step>, b: Seq<Step>, f: spec_fn(Step) -> bool)
    requires
        every(a, f),
        every(b, f),
    ensures
        every(a + b, f),
{
    assert forall|i: int| 0 <= i < (a + b).len() implies f(#[trigger] (a + b)[i]) by {
        if i < a.len() {
            assert((a + b)[i] == a[i]);
        } else {
            assert((a + b)[i] == b[i - a.len()]);
        }
    }
}

/// A property of every step that a painting can hold is one of the painting.
proof fn lemma_every_step(p: CanvasPaintable, zoom: Single, f: spec_fn(Step) -> bool)
    requires
        forall|s: Step|
            #![trigger f(s)]
            s.filter() is None && !(s is Handles) ==> f(s),
        ({
            let nearest = p.pixel_view.sharp(painted_zoom(zoom));
            &&& every(maybe(p.checker_step(nearest)), f)
            &&& every(maybe(p.canvas_step(nearest)), f)
            &&& every(maybe(p.transform.moved(nearest)), f)
            &&& every(maybe(p.transform.over(nearest)), f)
            &&& every(maybe(p.transform.handles()), f)
        }),
    ensures
        every(p.painting(zoom), f),
{
    let z = painted_zoom(zoom);
    let nearest = p.pixel_view.sharp(z);
    let s1 = seq![Step::Backdrop];
    let s2 = s1 + maybe(p.checker_step(nearest));
    let s3 = s2 + maybe(p.canvas_step(nearest));
    let s4 = s3 + maybe(p.transform.moved(nearest));
    lemma_every_joined(s1, maybe(p.checker_step(nearest)), f);
    lemma_every_joined(s2, maybe(p.canvas_step(nearest)), f);
    lemma_every_joined(s3, maybe(p.transform.moved(nearest)), f);
    lemma_every_joined(s4, maybe(p.transform.over(nearest)), f);
    let accent = maybe(when(p.bordered, Step::AccentEdge(p.accent)));
    let grid = maybe(when(p.pixel_view.gridded(z), Step::PixelGrid));
    let f1 = seq![Step::DocumentEdge];
    lemma_every_joined(f1, accent, f);
    lemma_every_joined(f1 + accent, maybe(p.label_step()), f);
    lemma_every_joined(f1 + accent + maybe(p.label_step()), grid, f);
    let b1 = maybe(p.crop_step());
    let b2 = b1 + maybe(p.transform.handles());
    lemma_every_joined(b1, maybe(p.transform.handles()), f);
    lemma_every_joined(b2, maybe(p.text_step()), f);
    lemma_every_joined(b2 + maybe(p.text_step()), maybe(p.text_pending_step()), f);
    let ants = maybe(when(p.contours > 0 || p.selection_pending, Step::Selection));
    let perf = maybe(when(p.perf, Step::Perf));
    let t1 = maybe(p.brush_step());
    lemma_every_joined(t1, ants, f);
    lemma_every_joined(t1 + ants, maybe(p.picker_step()), f);
    lemma_every_joined(t1 + ants + maybe(p.picker_step()), perf, f);
    lemma_every_joined(p.ground(nearest), p.frame(z), f);
    lemma_every_joined(p.ground(nearest) + p.frame(z), p.boxes(), f);
    lemma_every_joined(p.ground(nearest) + p.frame(z) + p.boxes(), p.top(), f);
}

/// All pictures of one painting are painted alike, sharp or smooth.
pub proof fn law_pictures_are_painted_alike(p: CanvasPaintable, zoom: Single)
    ensures
        every(
            p.painting(zoom),
            |s: Step|
                s.filter() matches Some(nearest) ==> nearest == p.pixel_view.sharp(
                    painted_zoom(zoom),
                ),
        ),
{
    let f = |s: Step|
        s.filter() matches Some(nearest) ==> nearest == p.pixel_view.sharp(painted_zoom(zoom));
    lemma_every_step(p, zoom, f);
}

/// While the renderer draws the moved layer, the widget does not draw it again.
pub proof fn law_moved_layer_is_drawn_once(p: CanvasPaintable, zoom: Single)
    requires
        p.transform.gpu_preview,
    ensures
        every(p.painting(zoom), |s: Step| !(s is Moved) && !(s is Above)),
{
    lemma_every_step(p, zoom, |s: Step| !(s is Moved) && !(s is Above));
}

/// The handles show whenever a transform has a box, whoever draws the layer.
pub proof fn law_handles_show_while_transforming(p: CanvasPaintable, zoom: Single)
    requires
        p.transform.active,
        p.transform.rect is Some,
    ensures
        p.painting(zoom).contains(Step::Handles(p.transform.rect->0)),
{
    let step = Step::Handles(p.transform.rect->0);
    let z = painted_zoom(zoom);
    let before = p.ground(p.pixel_view.sharp(z)) + p.frame(z);
    let crop = maybe(p.crop_step());
    let rest = maybe(p.text_step()) + maybe(p.text_pending_step());
    assert(maybe(p.transform.handles()) == seq![step]);
    assert(p.boxes() =~= crop + seq![step] + rest);
    assert(p.painting(zoom) =~= (before + crop) + seq![step] + (rest + p.top()));
    assert(p.painting(zoom)[(before + crop).len() as int] == step);
}

/// After transforming was switched off nothing of it shows, and a later
/// transform shows no layers above until they are captured anew.
pub proof fn law_transform_leaves_nothing_behind(p: CanvasPaintable, zoom: Single)
    ensures
        ({
            let off = CanvasPaintable { transform: p.transform.switched(false), ..p };
            let on = CanvasPaintable { transform: off.transform.switched(true), ..off };
            &&& every(
                off.painting(zoom),
                |s: Step| !(s is Moved) && !(s is Above) && !(s is Handles),
            )
            &&& every(on.painting(zoom), |s: Step| !(s is Above))
        }),
{
    let off = CanvasPaintable { transform: p.transform.switched(false), ..p };
    let on = CanvasPaintable { transform: off.transform.switched(true), ..off };
    lemma_every_step(off, zoom, |s: Step| !(s is Moved) && !(s is Above) && !(s is Handles));
    lemma_every_step(on, zoom, |s: Step| !(s is Above));
}

proof fn lemma_joined_holds(a: Seq<Step>, b: Seq<Step>, s: Step)
    ensures
        (a + b).contains(s) == (a.contains(s) || b.contains(s)),
{
    if a.contains(s) {
        let i = choose|i: int| 0 <= i < a.len() && a[i] == s;
        assert((a + b)[i] == s);
    }
    if b.contains(s) {
        let i = choose|i: int| 0 <= i < b.len() && b[i] == s;
        assert((a + b)[a.len() + i] == s);
    }
    if (a + b).contains(s) {
        let i = choose|i: int| 0 <= i < (a + b).len() && (a + b)[i] == s;
        if i < a.len() {
            assert(a[i] == s);
        } else {
            assert(b[i - a.len()] == s);
        }
    }
}

proof fn lemma_maybe_holds(step: Option<Step>, s: Step)
    ensures
        maybe(step).contains(s) == (step == Some(s)),
{
    if step is Some {
        assert(maybe(step)[0] == step->0);
    }
}

proof fn lemma_ground_holds(p: CanvasPaintable, nearest: bool, s: Step)
    ensures
        p.ground(nearest).contains(s) == (s == Step::Backdrop || p.checker_step(nearest) == Some(s)
            || p.canvas_step(nearest) == Some(s) || p.transform.moved(nearest) == Some(s)
            || p.transform.over(nearest) == Some(s)),
{
    let s1 = seq![Step::Backdrop];
    let s2 = s1 + maybe(p.checker_step(nearest));
    let s3 = s2 + maybe(p.canvas_step(nearest));
    let s4 = s3 + maybe(p.transform.moved(nearest));
    lemma_maybe_holds(Some(Step::Backdrop), s);
    assert(s1 =~= maybe(Some(Step::Backdrop)));
    lemma_joined_holds(s1, maybe(p.checker_step(nearest)), s);
    lemma_maybe_holds(p.checker_step(nearest), s);
    lemma_joined_holds(s2, maybe(p.canvas_step(nearest)), s);
    lemma_maybe_holds(p.canvas_step(nearest), s);
    lemma_joined_holds(s3, maybe(p.transform.moved(nearest)), s);
    lemma_maybe_holds(p.transform.moved(nearest), s);
    lemma_joined_holds(s4, maybe(p.transform.over(nearest)), s);
    lemma_maybe_holds(p.transform.over(nearest), s);
}

proof fn lemma_frame_holds(p: CanvasPaintable, zoom: Single, s: Step)
    ensures
        p.frame(zoom).contains(s) == (s == Step::DocumentEdge || (p.bordered && s
            == Step::AccentEdge(p.accent)) || p.label_step() == Some(s) || (p.pixel_view.gridded(
            zoom,
        ) && s == Step::PixelGrid)),
{
    let accent = when(p.bordered, Step::AccentEdge(p.accent));
    let grid = when(p.pixel_view.gridded(zoom), Step::PixelGrid);
    let f1 = seq![Step::DocumentEdge];
    lemma_maybe_holds(Some(Step::DocumentEdge), s);
    assert(f1 =~= maybe(Some(Step::DocumentEdge)));
    lemma_joined_holds(f1, maybe(accent), s);
    lemma_maybe_holds(accent, s);
    lemma_joined_holds(f1 + maybe(accent), maybe(p.label_step()), s);
    lemma_maybe_holds(p.label_step(), s);
    lemma_joined_holds(f1 + maybe(accent) + maybe(p.label_step()), maybe(grid), s);
    lemma_maybe_holds(grid, s);
}

proof fn lemma_boxes_hold(p: CanvasPaintable, s: Step)
    ensures
        p.boxes().contains(s) == (p.crop_step() == Some(s) || p.transform.handles() == Some(s)
            || p.text_step() == Some(s) || p.text_pending_step() == Some(s)),
{
    let b1 = maybe(p.crop_step());
    let b2 = b1 + maybe(p.transform.handles());
    let b3 = b2 + maybe(p.text_step());
    lemma_maybe_holds(p.crop_step(), s);
    lemma_joined_holds(b1, maybe(p.transform.handles()), s);
    lemma_maybe_holds(p.transform.handles(), s);
    lemma_joined_holds(b2, maybe(p.text_step()), s);
    lemma_maybe_holds(p.text_step(), s);
    lemma_joined_holds(b3, maybe(p.text_pending_step()), s);
    lemma_maybe_holds(p.text_pending_step(), s);
}

proof fn lemma_top_holds(p: CanvasPaintable, s: Step)
    ensures
        p.top().contains(s) == (p.brush_step() == Some(s) || ((p.contours > 0
            || p.selection_pending) && s == Step::Selection) || p.picker_step() == Some(s) || (
        p.perf && s == Step::Perf)),
{
    let ants = when(p.contours > 0 || p.selection_pending, Step::Selection);
    let perf = when(p.perf, Step::Perf);
    let t1 = maybe(p.brush_step());
    let t2 = t1 + maybe(ants);
    let t3 = t2 + maybe(p.picker_step());
    lemma_maybe_holds(p.brush_step(), s);
    lemma_joined_holds(t1, maybe(ants), s);
    lemma_maybe_holds(ants, s);
    lemma_joined_holds(t2, maybe(p.picker_step()), s);
    lemma_maybe_holds(p.picker_step(), s);
    lemma_joined_holds(t3, maybe(perf), s);
    lemma_maybe_holds(perf, s);
}

proof fn lemma_painting_holds(p: CanvasPaintable, zoom: Single, s: Step)
    ensures
        p.painting(zoom).contains(s) == (p.ground(
            p.pixel_view.sharp(painted_zoom(zoom)),
        ).contains(s) || p.frame(painted_zoom(zoom)).contains(s) || p.boxes().contains(s)
            || p.top().contains(s)),
{
    let z = painted_zoom(zoom);
    let ground = p.ground(p.pixel_view.sharp(z));
    lemma_joined_holds(ground, p.frame(z), s);
    lemma_joined_holds(ground + p.frame(z), p.boxes(), s);
    lemma_joined_holds(ground + p.frame(z) + p.boxes(), p.top(), s);
}

/// The outline of the selection is painted if the selection has an outline or if
/// one is being drawn, and only then, whatever else the widget shows.
pub proof fn law_selection_shows_with_an_outline(p: CanvasPaintable, zoom: Single)
    ensures
        p.painting(zoom).contains(Step::Selection) <==> (p.contours > 0 || p.selection_pending),
{
    let z = painted_zoom(zoom);
    let s = Step::Selection;
    lemma_painting_holds(p, zoom, s);
    lemma_ground_holds(p, p.pixel_view.sharp(z), s);
    lemma_frame_holds(p, z, s);
    lemma_boxes_hold(p, s);
    lemma_top_holds(p, s);
}

/// What is painted, step by step: the backdrop and the edge of the document
/// always, each picture once the widget holds it, and each box, outline and edge
/// while its own switch is on.
pub proof fn law_every_step_has_its_own_reason(p: CanvasPaintable, zoom: Single, s: Step)
    ensures
        p.painting(zoom).contains(s) <==> ({
            let z = painted_zoom(zoom);
            let sharp = p.pixel_view.enabled && p.pixel_view.nearest_threshold.le_spec(z);
            let carried = p.transform.active && !p.transform.gpu_preview;
            match s {
                Step::Backdrop => true,
                Step::Checker { texture, nearest } => p.checker == Some(texture) && nearest
                    == sharp,
                Step::Canvas { texture, nearest } => p.texture == Some(texture) && nearest
                    == sharp,
                Step::Moved { texture, rect, original, nearest } => carried && p.transform.source
                    == Some(texture) && p.transform.rect == Some(rect) && p.transform.original
                    == Some(original) && nearest == sharp,
                Step::Above { texture, nearest } => carried && p.transform.source is Some
                    && p.transform.rect is Some && p.transform.original is Some
                    && p.transform.above == Some(texture) && nearest == sharp,
                Step::DocumentEdge => true,
                Step::AccentEdge(accent) => p.bordered && accent == p.accent,
                Step::Label(texture) => p.label_cache == Some(texture),
                Step::PixelGrid => p.pixel_view.enabled && p.pixel_view.grid_enabled
                    && p.pixel_view.grid_threshold.le_spec(z),
                Step::Crop { area, overlay } => p.crop_active && p.crop_rect == Some(area)
                    && overlay == p.crop_overlay,
                Step::Handles(rect) => p.transform.active && p.transform.rect == Some(rect),
                Step::TextEdit { frame, caret, scale_x, scale_y } => p.text.active && p.text.frame
                    == Some(frame) && scale_x == p.text.scale_x && scale_y == p.text.scale_y && (
                caret is Some ==> p.text.caret_visible && caret == p.text.caret) && (
                caret is None ==> !p.text.caret_visible || p.text.caret is None),
                Step::TextPending(rect) => p.text_pending == Some(rect),
                Step::BrushCursor(outline) => p.brush_cursor == Some(outline),
                Step::Selection => p.contours > 0 || p.selection_pending,
                Step::Picker(picker) => p.color_picker == Some(picker),
                Step::Perf => p.perf,
            }
        }),
{
    let z = painted_zoom(zoom);
    lemma_painting_holds(p, zoom, s);
    lemma_ground_holds(p, p.pixel_view.sharp(z), s);
    lemma_frame_holds(p, z, s);
    lemma_boxes_hold(p, s);
    lemma_top_holds(p, s);
}

impl Step {
    /// How high a step stands over the backdrop.
    pub open spec fn height(self) -> int {
        match self {
            Step::Backdrop => 0,
            Step::Checker { .. } => 1,
            Step::Canvas { .. } => 2,
            Step::Moved { .. } => 3,
            Step::Above { .. } => 4,
            Step::DocumentEdge => 5,
            Step::AccentEdge(_) => 6,
            Step::Label(_) => 7,
            Step::PixelGrid => 8,
            Step::Crop { .. } => 9,
            Step::Handles(_) => 10,
            Step::TextEdit { .. } => 11,
            Step::TextPending(_) => 12,
            Step::BrushCursor(_) => 13,
            Step::Selection => 14,
            Step::Picker(_) => 15,
            Step::Perf => 16,
        }
    }
}

/// Whether a row of steps rises from one height to another.
pub open spec fn rising(steps: Seq<Step>, low: int, high: int) -> bool {
    &&& forall|i: int| 0 <= i < steps.len() ==> low <= (#[trigger] steps[i]).height() < high
    &&& forall|i: int, j: int|
        0 <= i < j < steps.len() ==> (#[trigger] steps[i]).height() < (#[trigger] steps[j]).height()
}

proof fn lemma_rising_joined(a: Seq<Step>, b: Seq<Step>, low: int, mid: int, high: int)
    requires
        rising(a, low, mid),
        rising(b, mid, high),
        low <= mid <= high,
    ensures
        rising(a + b, low, high),
{
    let c = a + b;
    assert forall|i: int| 0 <= i < c.len() implies low <= (#[trigger] c[i]).height() < high by {
        if i < a.len() {
            assert(c[i] == a[i]);
        } else {
            assert(c[i] == b[i - a.len()]);
        }
    }
    assert forall|i: int, j: int| 0 <= i < j < c.len() implies (#[trigger] c[i]).height() < (
    #[trigger] c[j]).height() by {
        if j < a.len() {
            assert(c[i] == a[i] && c[j] == a[j]);
        } else if i < a.len() {
            assert(c[i] == a[i] && c[j] == b[j - a.len()]);
        } else {
            assert(c[i] == b[i - a.len()] && c[j] == b[j - a.len()]);
        }
    }
}

proof fn lemma_maybe_rises(step: Option<Step>, height: int)
    requires
        step is Some ==> step->0.height() == height,
    ensures
        rising(maybe(step), height, height + 1),
{
}

proof fn lemma_ground_rises(p: CanvasPaintable, n: bool)
    ensures
        rising(p.ground(n), 0, 5),
{
    let g1 = seq![Step::Backdrop];
    let g2 = g1 + maybe(p.checker_step(n));
    let g3 = g2 + maybe(p.canvas_step(n));
    let g4 = g3 + maybe(p.transform.moved(n));
    lemma_maybe_rises(p.checker_step(n), 1);
    lemma_maybe_rises(p.canvas_step(n), 2);
    lemma_maybe_rises(p.transform.moved(n), 3);
    lemma_maybe_rises(p.transform.over(n), 4);
    lemma_rising_joined(g1, maybe(p.checker_step(n)), 0, 1, 2);
    lemma_rising_joined(g2, maybe(p.canvas_step(n)), 0, 2, 3);
    lemma_rising_joined(g3, maybe(p.transform.moved(n)), 0, 3, 4);
    lemma_rising_joined(g4, maybe(p.transform.over(n)), 0, 4, 5);
}

proof fn lemma_frame_rises(p: CanvasPaintable, z: Single)
    ensures
        rising(p.frame(z), 5, 9),
{
    let accent = when(p.bordered, Step::AccentEdge(p.accent));
    let grid = when(p.pixel_view.gridded(z), Step::PixelGrid);
    let f1 = seq![Step::DocumentEdge];
    let f2 = f1 + maybe(accent);
    lemma_maybe_rises(accent, 6);
    lemma_maybe_rises(p.label_step(), 7);
    lemma_maybe_rises(grid, 8);
    lemma_rising_joined(f1, maybe(accent), 5, 6, 7);
    lemma_rising_joined(f2, maybe(p.label_step()), 5, 7, 8);
    lemma_rising_joined(f2 + maybe(p.label_step()), maybe(grid), 5, 8, 9);
}

proof fn lemma_boxes_rise(p: CanvasPaintable)
    ensures
        rising(p.boxes(), 9, 13),
{
    let b1 = maybe(p.crop_step());
    let b2 = b1 + maybe(p.transform.handles());
    lemma_maybe_rises(p.crop_step(), 9);
    lemma_maybe_rises(p.transform.handles(), 10);
    lemma_maybe_rises(p.text_step(), 11);
    lemma_maybe_rises(p.text_pending_step(), 12);
    lemma_rising_joined(b1, maybe(p.transform.handles()), 9, 10, 11);
    lemma_rising_joined(b2, maybe(p.text_step()), 9, 11, 12);
    lemma_rising_joined(b2 + maybe(p.text_step()), maybe(p.text_pending_step()), 9, 12, 13);
}

proof fn lemma_top_rises(p: CanvasPaintable)
    ensures
        rising(p.top(), 13, 17),
{
    let ants = when(p.contours > 0 || p.selection_pending, Step::Selection);
    let perf = when(p.perf, Step::Perf);
    let t1 = maybe(p.brush_step());
    let t2 = t1 + maybe(ants);
    lemma_maybe_rises(p.brush_step(), 13);
    lemma_maybe_rises(ants, 14);
    lemma_maybe_rises(p.picker_step(), 15);
    lemma_maybe_rises(perf, 16);
    lemma_rising_joined(t1, maybe(ants), 13, 14, 15);
    lemma_rising_joined(t2, maybe(p.picker_step()), 13, 15, 16);
    lemma_rising_joined(t2 + maybe(p.picker_step()), maybe(perf), 13, 16, 17);
}

/// What is painted is painted once, and in one order: the canvas, what frames it,
/// the boxes of the tools, the brush, the selection, the loupe and the counter.
pub proof fn law_painting_rises(p: CanvasPaintable, zoom: Single)
    ensures
        rising(p.painting(zoom), 0, 17),
{
    let z = painted_zoom(zoom);
    let n = p.pixel_view.sharp(z);
    lemma_ground_rises(p, n);
    lemma_frame_rises(p, z);
    lemma_boxes_rise(p);
    lemma_top_rises(p);
    lemma_rising_joined(p.ground(n), p.frame(z), 0, 5, 9);
    lemma_rising_joined(p.ground(n) + p.frame(z), p.boxes(), 0, 9, 13);
    lemma_rising_joined(p.ground(n) + p.frame(z) + p.boxes(), p.top(), 0, 13, 17);
}

/// The widget paints with the zoom that it is given, unless that is less than the
/// least or no number: then with the least.
pub proof fn law_painted_zoom_is_at_least_the_least(zoom: Single)
    ensures
        ({
            let least = Single { bits: 0x3400_0000 };
            let z = painted_zoom(zoom);
            &&& !z.lt_spec(least)
            &&& least.lt_spec(zoom) ==> z == zoom
            &&& z == zoom || z == least
        }),
{
}

/// What a switch of transforming touches: on, only that it is on; off, the picture
/// of the layers above and the renderer's preview go with it, and the box, the
/// picture of the layer and where it was captured stay.
pub proof fn law_switching_a_transform(t: TransformOverlay, active: bool)
    ensures
        ({
            let s = t.switched(active);
            &&& s.active == active
            &&& s.rect == t.rect && s.source == t.source && s.original == t.original
            &&& active ==> s.above == t.above && s.gpu_preview == t.gpu_preview
            &&& !active ==> s.above is None && !s.gpu_preview
        }),
{
}

/// The checker tile at a pixel: every pixel is opaque and grey, and the grey of a
/// pixel differs from that of the pixel one cell further across or down.
pub proof fn law_checker_alternates(x: int, y: int)
    requires
        0 <= x < 128,
        0 <= y < 128,
    ensures
        ({
            let at = |x: int, y: int, channel: int|
                checker_byte(4 * (128 * y + x) + channel);
            &&& at(x, y, 3) == 0xff
            &&& at(x, y, 0) == at(x, y, 1) && at(x, y, 1) == at(x, y, 2)
            &&& x < 64 ==> at(x, y, 0) != at(x + 64, y, 0)
            &&& y < 64 ==> at(x, y, 0) != at(x, y + 64, 0)
            &&& at(x, y, 0) == at((x / 64) * 64, (y / 64) * 64, 0)
            &&& at(0, 0, 0) == 0xc7 && at(64, 0, 0) == 0xeb
        }),
{
}

/// The byte of a checker tile at a place: two greys in cells, opaque, the darker
/// one where the row and the column of the cell agree.
pub open spec fn checker_byte(i: int) -> u8 {
    let pixel = i / 4;
    let x = pixel % 128;
    let y = pixel / 128;
    if i % 4 == 3 {
        0xff
    } else if x / 64 == y / 64 {
        0xc7
    } else {
        0xeb
    }
}

/// The bytes of a checker tile.
pub fn build_checker() -> (bytes: Vec<u8>)
    ensures
        bytes@ == Seq::new(65536, |i: int| checker_byte(i)),
{
    let mut bytes: Vec<u8> = Vec::new();
    let total: usize = CHECKER_TILE * CHECKER_TILE * 4;
    let mut i: usize = 0;
    while i < total
        invariant
            total == 65536,
            i <= total,
            bytes@ == Seq::new(i as nat, |k: int| checker_byte(k)),
        decreases total - i,
    {
        let pixel: usize = i / 4;
        let x: usize = pixel % CHECKER_TILE;
        let y: usize = pixel / CHECKER_TILE;
        let value: u8 = if i % 4 == 3 {
            0xff
        } else if x / CHECKER_CELL == y / CHECKER_CELL {
            0xc7
        } else {
            0xeb
        };
        bytes.push(value);
        i = i + 1;
        assert(bytes@ =~= Seq::new(i as nat, |k: int| checker_byte(k)));
    }
    bytes
}

/// Whether the pixel grid has anything to draw, given the part of the canvas that
/// is in the widget.
pub fn grid_visible(
    zoom: Single,
    canvas_w: u32,
    canvas_h: u32,
    left: Single,
    top: Single,
    right: Single,
    bottom: Single,
) -> (r: bool)
    ensures
        r == (!zoom.le_spec(Single { bits: 0 }) && canvas_w != 0 && canvas_h != 0
            && !right.le_spec(left) && !bottom.le_spec(top)),
{
    !zoom.at_most(Single { bits: 0 }) && canvas_w != 0 && canvas_h != 0 && !right.at_most(left)
        && !bottom.at_most(top)
}

/// The lines between the pixels of a visible range along one axis, kept on the
/// canvas.
pub fn grid_lines(first: u32, last: u32, side: u32) -> (lines: Vec<u32>)
    ensures
        ({
            let from = if first < side {
                first as int
            } else {
                side as int
            };
            let to = if last < side {
                last as int
            } else {
                side as int
            };
            &&& lines@.len() == (if to > from + 1 {
                to - from - 1
            } else {
                0
            })
            &&& forall|i: int| 0 <= i < lines@.len() ==> #[trigger] lines@[i] == from + 1 + i
        }),
{
    let from: u32 = if first < side {
        first
    } else {
        side
    };
    let to: u32 = if last < side {
        last
    } else {
        side
    };
    let mut lines: Vec<u32> = Vec::new();
    let mut at: u32 = from;
    while at < to && to - at > 1
        invariant
            from <= at,
            at < to || at == from,
            lines@.len() == at - from,
            forall|i: int| 0 <= i < lines@.len() ==> #[trigger] lines@[i] == from + 1 + i,
        decreases to - at,
    {
        at = at + 1;
        lines.push(at);
    }
    lines
}

/// The outline of a selection that is being drawn.
#[derive(Clone, Copy, Debug, PartialEq, Eq, Structural)]
pub enum PendingPath {
    Nothing,
    Ellipse,
    Rectangle,
    Polygon,
}

/// The outline to draw for a selection that is being drawn, given its width and
/// height on the widget: no ellipse thinner than a pixel, no lasso of one point.
pub fn pending_path(pending: &PendingMarquee, width: Single, height: Single) -> (p: PendingPath)
    ensures
        p == (match *pending {
            PendingMarquee::Rect { circle, .. } => if !circle {
                PendingPath::Rectangle
            } else if width.magnitude() < 0x3f80_0000 || height.magnitude() < 0x3f80_0000 {
                PendingPath::Nothing
            } else {
                PendingPath::Ellipse
            },
            PendingMarquee::Lasso(pts) => if pts@.len() < 2 {
                PendingPath::Nothing
            } else {
                PendingPath::Polygon
            },
        }),
{
    match pending {
        PendingMarquee::Rect { circle, .. } => {
            let one = Single { bits: 0x3f80_0000 };
            if !*circle {
                PendingPath::Rectangle
            } else if width.abs().less(one) || height.abs().less(one) {
                PendingPath::Nothing
            } else {
                PendingPath::Ellipse
            }
        },
        PendingMarquee::Lasso(pts) => {
            if pts.len() < 2 {
                PendingPath::Nothing
            } else {
                PendingPath::Polygon
            }
        },
    }
}

/// What the crop box says.
pub fn crop_label(width: u32, height: u32) -> (s: String)
    ensures
        s@ == "CROP  "@ + decimal(width as nat) + " x "@ + decimal(height as nat) + "  px"@,
{
    let mut out = "CROP  ".to_owned();
    push_decimal(&mut out, width as u128);
    push_text(&mut out, " x ");
    push_decimal(&mut out, height as u128);
    push_text(&mut out, "  px");
    out
}

/// The label, the border and its color are set as they are told, and the picture of the
/// old label goes, so that a new one is drawn exactly where there is a label.
pub proof fn law_a_new_label_is_drawn_anew(
    p: &mut CanvasPaintable,
    labelled: bool,
    bordered: bool,
    accent: Accent,
    wants: bool,
)
    requires
        call_ensures(CanvasPaintable::set_edit_mode, (p, labelled, bordered, accent), ()),
        call_ensures(CanvasPaintable::wants_label, (&*final(p),), wants),
    ensures
        wants <==> labelled,
        final(p).label_cache is None,
        final(p).bordered == bordered && final(p).accent == accent,
        final(p).texture == old(p).texture && final(p).transform == old(p).transform
            && final(p).contours == old(p).contours && final(p).text == old(p).text,
{
}

/// A caret is shown or hidden as told, and the widget painted again exactly where that
/// changes it; nothing else changes.
pub proof fn law_a_caret_that_changes_is_painted(
    p: &mut CanvasPaintable,
    visible: bool,
    repaint: bool,
)
    requires
        call_ensures(CanvasPaintable::set_text_caret_visible, (p, visible), repaint),
    ensures
        final(p).text.caret_visible == visible,
        repaint <==> *final(p) != *old(p),
        final(p).text.caret == old(p).text.caret && final(p).text.active == old(p).text.active
            && final(p).text.frame == old(p).text.frame,
{
}

/// A label that has been drawn is not drawn again, and one without characters never is.
/// The color under the loupe is the one that it has sampled.
pub proof fn law_what_the_widget_wants(p: CanvasPaintable, wants: bool, color: Option<Color>)
    requires
        call_ensures(CanvasPaintable::wants_label, (&p,), wants),
        call_ensures(CanvasPaintable::picker_color, (&p,), color),
    ensures
        p.label_cache is Some ==> !wants,
        !p.labelled ==> !wants,
        p.label_cache is None && p.labelled ==> wants,
        p.color_picker is None ==> color is None,
        p.color_picker matches Some(o) ==> color == o.color,
{
}

/// The lines of the grid lie between the pixels that are both in range and on the
/// canvas, one between every two of them.
pub proof fn law_grid_lines_lie_between_pixels(
    first: u32,
    last: u32,
    side: u32,
    lines: Vec<u32>,
    n: u32,
)
    requires
        call_ensures(grid_lines, (first, last, side), lines),
    ensures
        lines@.contains(n) <==> first < n && n < last && n < side,
{
    let from = if first < side {
        first as int
    } else {
        side as int
    };
    if first < n && n < last && n < side {
        assert(lines@[n - from - 1] == n);
    }
    if lines@.contains(n) {
        let i = choose|i: int| 0 <= i < lines@.len() && lines@[i] == n;
        assert(lines@[i] == from + 1 + i);
    }
}

/// The grid shows where the zoom is above nought, the canvas has an area, and so has the
/// part of it that is in the widget.
pub proof fn law_when_a_grid_shows(
    zoom: Single,
    canvas_w: u32,
    canvas_h: u32,
    left: Single,
    top: Single,
    right: Single,
    bottom: Single,
    r: bool,
)
    requires
        call_ensures(grid_visible, (zoom, canvas_w, canvas_h, left, top, right, bottom), r),
    ensures
        canvas_w == 0 || canvas_h == 0 ==> !r,
        zoom.le_spec(Single { bits: 0 }) ==> !r,
        right.le_spec(left) || bottom.le_spec(top) ==> !r,
        (Single { bits: 0 }).lt_spec(zoom) && canvas_w > 0 && canvas_h > 0 && left.lt_spec(right)
            && top.lt_spec(bottom) ==> r,
{
}

/// The outline of a shape that is being drawn is of the shape's kind, and is none for a
/// round one thinner than a pixel and for a lasso of one point.
pub proof fn law_the_outline_of_a_shape_being_drawn(
    pending: PendingMarquee,
    width: Single,
    height: Single,
    p: PendingPath,
)
    requires
        call_ensures(pending_path, (&pending, width, height), p),
    ensures
        p is Polygon ==> pending is Lasso,
        p is Rectangle <==> pending is Rect && !pending->circle,
        p is Ellipse <==> pending is Rect && pending->circle && width.magnitude() >= 0x3f80_0000
            && height.magnitude() >= 0x3f80_0000,
        pending matches PendingMarquee::Lasso(pts) ==> (p is Polygon <==> pts@.len() >= 2),
{
}

/// The crop box says its width before its height.
pub proof fn law_the_crop_box_says_its_size(width: u32, height: u32, s: String)
    requires
        call_ensures(crop_label, (width, height), s),
    ensures
        s@ == "CROP  "@ + decimal(width as nat) + " x "@ + decimal(height as nat) + "  px"@,
{
}

/// What the widget paints is what its state asks for, and the zoom counts only by what
/// is painted with it: any two zooms below the least paint alike.
pub proof fn law_snapshots_follow_the_state(
    p: CanvasPaintable,
    zoom: Single,
    steps: Vec<Step>,
    other: Single,
    others: Vec<Step>,
)
    requires
        call_ensures(CanvasPaintable::snapshot, (&p, zoom), steps),
        call_ensures(CanvasPaintable::snapshot, (&p, other), others),
    ensures
        steps@ == p.painting(zoom),
        zoom.le_spec(Single { bits: LEAST_ZOOM }) && other.le_spec(Single { bits: LEAST_ZOOM })
            ==> steps@ == others@,
{
}

/// A fresh widget paints the backdrop, its checker and the edge of the document, the
/// grid from eight times on, and nothing else; pictures are sharp from four times on.
pub proof fn law_what_a_fresh_widget_paints(
    canvas_w: u32,
    canvas_h: u32,
    checker: u64,
    crop_overlay: CropOverlay,
    p: CanvasPaintable,
    zoom: Single,
    s: Step,
)
    requires
        call_ensures(CanvasPaintable::new, (canvas_w, canvas_h, checker, crop_overlay), p),
        (Single { bits: 0x3f80_0000 }).le_spec(zoom),
    ensures
        p.canvas_w == canvas_w && p.canvas_h == canvas_h && p.crop_overlay == crop_overlay,
        p.painting(zoom).contains(s) <==> s == Step::Backdrop || s == Step::DocumentEdge || s == (
        Step::Checker { texture: checker, nearest: zoom.bits >= 0x4080_0000 }) || (s
            == Step::PixelGrid && zoom.bits >= 0x4100_0000),
{
    law_every_step_has_its_own_reason(p, zoom, s);
}

/// Switching a transform touches nothing else of the widget.
pub proof fn law_a_switched_transform_is_all_that_changes(p: &mut CanvasPaintable, active: bool)
    requires
        call_ensures(CanvasPaintable::set_transform_active, (p, active), ()),
    ensures
        final(p).transform.active == active,
        final(p).transform.rect == old(p).transform.rect && final(p).transform.source
            == old(p).transform.source && final(p).transform.original == old(p).transform.original,
        !active ==> final(p).transform.above is None && !final(p).transform.gpu_preview,
        active ==> final(p).transform.above == old(p).transform.above
            && final(p).transform.gpu_preview == old(p).transform.gpu_preview,
        *final(p) == (CanvasPaintable { transform: final(p).transform, ..*old(p) }),
{
}

/// The edit mode and the caret are set alone: what else the widget paints stays.
pub proof fn law_modes_and_carets_are_set_alone(
    a: &mut CanvasPaintable,
    labelled: bool,
    bordered: bool,
    accent: Accent,
    b: &mut CanvasPaintable,
    visible: bool,
    repaint: bool,
)
    requires
        call_ensures(CanvasPaintable::set_edit_mode, (a, labelled, bordered, accent), ()),
        call_ensures(CanvasPaintable::set_text_caret_visible, (b, visible), repaint),
    ensures
        final(a).labelled == labelled && final(a).bordered == bordered && final(a).accent == accent,
        final(a).contours == old(a).contours && final(a).selection_pending == old(
            a,
        ).selection_pending && final(a).transform == old(a).transform && final(a).text == old(
            a,
        ).text && final(a).crop_overlay == old(a).crop_overlay && final(a).color_picker == old(
            a,
        ).color_picker,
        final(b).text.caret_visible == visible,
        !repaint ==> *final(b) == *old(b),
        final(b).contours == old(b).contours && final(b).selection_pending == old(
            b,
        ).selection_pending && final(b).transform == old(b).transform && final(b).labelled == old(
            b,
        ).labelled && final(b).bordered == old(b).bordered && final(b).accent == old(b).accent,
{
}

} // verus!

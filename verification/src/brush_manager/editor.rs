//! Editing a brush: every edit goes to the brush in memory at once, and nothing of
//! it to the disk until the brush is saved. Choosing an icon is no edit: it writes the
//! brush's file at once.

use vstd::prelude::*;

use crate::brush_manager::preset::{
    family_place, family_to_dropdown_index, find_brush, lemma_place, lemma_place_kept, place_of,
    shows_pattern, views, Brush, BrushView, DynSource, Dynamics, DynamicsField, Look, Mapping,
    ScaleField, ONE, SOURCE_COUNT,
};
use crate::canvas::stroke_tip::BrushFamily;
use crate::ieee::Single;

verus! {

/// The pattern size that a brush gets when it is first textured.
pub const FRESH_PATTERN_SIZE: u32 = 0x4348_0000;

/// The pattern strength that a brush gets when it is first textured.
pub const FRESH_PATTERN_STRENGTH: u32 = 0x3f59_999a;

/// The least pattern size that is shown.
pub const LEAST_PATTERN_SIZE: u32 = 0x4180_0000;

/// The editor and the brushes it edits.
pub struct Editor {
    pub brushes: Vec<Brush>,
    pub selected: Option<u64>,
    pub selected_name: Option<String>,
    /// The controls are being filled: what they report is no edit.
    pub loading: bool,
    /// There are edits that were not saved.
    pub dirty: bool,
    /// The brush as it was selected or last saved.
    pub baseline: Option<Brush>,
}

/// What the editor is.
#[verifier::ext_equal]
pub ghost struct EditorView {
    pub brushes: Seq<BrushView>,
    pub selected: Option<u64>,
    pub selected_name: Option<Seq<char>>,
    pub loading: bool,
    pub dirty: bool,
    pub baseline: Option<BrushView>,
}

/// One edit.
pub ghost enum Edit {
    Name(Seq<char>),
    /// The place of the family, and the pattern that a brush gets when it is
    /// first textured.
    Family(u32, u64),
    Scale(ScaleField, Single),
    Buildup(bool),
    /// Switching a dynamic, and what the engine starts the size with.
    Toggle(DynamicsField, bool, Mapping),
    Source(DynamicsField, usize),
    /// One end of a range: the lower one or the upper one.
    Range(DynamicsField, bool, Single),
    Invert(DynamicsField, bool),
    /// A pattern was read for the brush.
    Pattern(u64),
}

impl View for Editor {
    type V = EditorView;

    open spec fn view(&self) -> EditorView {
        EditorView {
            brushes: views(self.brushes@),
            selected: self.selected,
            selected_name: match self.selected_name {
                Some(n) => Some(n@),
                None => None,
            },
            loading: self.loading,
            dirty: self.dirty,
            baseline: match self.baseline {
                Some(b) => Some(b@),
                None => None,
            },
        }
    }
}

/// The family that is picked.
pub open spec fn picked_family(now: BrushFamily, index: u32, fresh: u64) -> BrushFamily {
    if index == 0 {
        BrushFamily::SoftRound
    } else if index == 1 {
        BrushFamily::Pixel
    } else {
        match now {
            BrushFamily::Textured(p) => BrushFamily::Textured(p),
            _ => BrushFamily::Textured(fresh),
        }
    }
}

/// A look with another family: a textured one without a pattern size gets one.
pub open spec fn with_family(look: Look, index: u32, fresh: u64) -> Look {
    let family = picked_family(look.family, index, fresh);
    if family is Textured && look.texture_scale.le_spec(Single { bits: 0 }) {
        Look {
            family,
            texture_scale: Single { bits: FRESH_PATTERN_SIZE },
            texture_strength: Single { bits: FRESH_PATTERN_STRENGTH },
            ..look
        }
    } else {
        Look { family, ..look }
    }
}

/// A look with one slider moved.
pub open spec fn with_scale(look: Look, field: ScaleField, value: Single) -> Look {
    match field {
        ScaleField::Size => Look { default_size: value, ..look },
        ScaleField::Opacity => Look { default_opacity: value, ..look },
        ScaleField::Spacing => Look { spacing_ratio: value, ..look },
        ScaleField::Stabilizer => Look { stabilizer: value, ..look },
        ScaleField::SpeedSmoothing => Look { speed_smoothing: value, ..look },
        ScaleField::Hardness => Look { hardness: value, ..look },
        ScaleField::PatternSize => Look { texture_scale: value, ..look },
        ScaleField::PatternStrength => Look { texture_strength: value, ..look },
    }
}

/// A look with one dynamic changed, if it is on.
pub open spec fn with_mapping(
    look: Look,
    field: DynamicsField,
    change: spec_fn(Mapping) -> Mapping,
) -> Look {
    match look.dynamics.slot(field) {
        Some(m) => Look { dynamics: look.dynamics.with(field, Some(change(m))), ..look },
        None => look,
    }
}

/// What an edit does to a brush.
pub open spec fn edited_look(look: Look, edit: Edit) -> Look {
    match edit {
        Edit::Name(_) => look,
        Edit::Family(index, fresh) => with_family(look, index, fresh),
        Edit::Scale(field, value) => with_scale(look, field, value),
        Edit::Buildup(on) => Look { buildup: on, ..look },
        Edit::Toggle(field, on, pressure_linear) => if !on {
            Look { dynamics: look.dynamics.with(field, None), ..look }
        } else if look.dynamics.slot(field) is None {
            Look {
                dynamics: look.dynamics.with(field, Some(field.start(look, pressure_linear))),
                ..look
            }
        } else {
            look
        },
        Edit::Source(field, index) => with_mapping(
            look,
            field,
            |m: Mapping|
                Mapping {
                    source: choose|s: DynSource| #[trigger] s.place() == index,
                    ..m
                },
        ),
        Edit::Range(field, low, value) => with_mapping(
            look,
            field,
            |m: Mapping|
                if low {
                    Mapping { low: value, ..m }
                } else {
                    Mapping { high: value, ..m }
                },
        ),
        Edit::Invert(field, on) => with_mapping(
            look,
            field,
            |m: Mapping| Mapping { invert: on, ..m },
        ),
        Edit::Pattern(pattern) => Look { family: BrushFamily::Textured(pattern), ..look },
    }
}

/// What an edit does to a brush.
pub open spec fn edited(
    b: BrushView,
    edit: Edit,
) -> BrushView {
    BrushView {
        name: match edit {
            Edit::Name(n) => n,
            _ => b.name,
        },
        look: edited_look(b.look, edit),
        ..b
    }
}

impl Edit {
    /// Whether the edit is none where its brush is gone.
    pub open spec fn needs_brush(self) -> bool {
        self is Family || self is Toggle
    }

    /// Whether the edit is what a control reports; a pattern is read from a file.
    pub open spec fn of_a_control(self) -> bool {
        !(self is Pattern)
    }

    /// Whether the edit picks something that is on offer.
    pub open spec fn on_offer(self) -> bool {
        self matches Edit::Source(_, index) ==> index < SOURCE_COUNT
    }
}

impl EditorView {
    /// The place of the selected brush.
    pub open spec fn place(self) -> Option<int> {
        match self.selected {
            Some(id) => place_of(self.brushes, id),
            None => None,
        }
    }

    /// The editor after an edit.
    pub open spec fn edit(self, edit: Edit) -> EditorView {
        if (self.loading && edit.of_a_control()) || self.selected is None || !edit.on_offer() {
            self
        } else {
            match self.place() {
                Some(i) => EditorView {
                    brushes: self.brushes.update(i, edited(self.brushes[i], edit)),
                    selected_name: match edit {
                        Edit::Name(n) => Some(n),
                        _ => self.selected_name,
                    },
                    dirty: true,
                    ..self
                },
                None => if edit.needs_brush() {
                    self
                } else {
                    EditorView {
                        selected_name: match edit {
                            Edit::Name(n) => Some(n),
                            _ => self.selected_name,
                        },
                        dirty: true,
                        ..self
                    }
                },
            }
        }
    }

    /// The editor while its controls are filled from the brush at a place, or from
    /// none.
    pub open spec fn filling(self, at: Option<int>) -> EditorView {
        EditorView {
            loading: true,
            dirty: false,
            baseline: match at {
                Some(i) => Some(self.brushes[i]),
                None => None,
            },
            ..self
        }
    }

    /// The editor once its controls are filled.
    pub open spec fn filled(self) -> EditorView {
        EditorView { loading: false, ..self }
    }

    /// The editor once the selected brush is on the disk.
    pub open spec fn saved(self) -> EditorView {
        if self.selected is Some {
            EditorView {
                dirty: false,
                baseline: match self.place() {
                    Some(i) => Some(self.brushes[i]),
                    None => self.baseline,
                },
                ..self
            }
        } else {
            self
        }
    }

    /// The editor once the edits were discarded.
    pub open spec fn discarded(self) -> EditorView {
        match (self.selected, self.baseline) {
            (Some(_), Some(base)) => EditorView {
                brushes: match self.place() {
                    Some(i) => self.brushes.update(i, base),
                    None => self.brushes,
                },
                dirty: false,
                ..self
            },
            _ => self,
        }
    }
}

proof fn lemma_updated(brushes: Seq<Brush>, at: int, b: Brush)
    requires
        0 <= at < brushes.len(),
    ensures
        views(brushes.update(at, b))
            =~= views(brushes).update(at, b@),
{
}

/// What the controls show.
#[derive(Clone, Copy, Debug, PartialEq, Eq, Structural)]
pub struct Shown {
    pub enabled: bool,
    pub family: u32,
    pub pattern: bool,
    pub size: Single,
    pub opacity: Single,
    pub spacing: Single,
    pub stabilizer: Single,
    pub speed_smoothing: Single,
    pub hardness: Single,
    pub pattern_size: Single,
    pub pattern_strength: Single,
    pub buildup: bool,
    pub dynamics: Dynamics,
}

/// What the controls show of a brush, or without one.
pub open spec fn shown(look: Option<Look>) -> Shown {
    let zero = Single { bits: 0 };
    match look {
        Some(l) => Shown {
            enabled: true,
            family: family_place(l.family),
            pattern: l.family is Textured || l.family is ImageTip,
            size: l.default_size,
            opacity: l.default_opacity,
            spacing: l.spacing_ratio,
            stabilizer: l.stabilizer,
            speed_smoothing: l.speed_smoothing,
            hardness: l.hardness,
            pattern_size: if (Single { bits: LEAST_PATTERN_SIZE }).lt_spec(l.texture_scale) {
                l.texture_scale
            } else {
                Single { bits: LEAST_PATTERN_SIZE }
            },
            pattern_strength: l.texture_strength,
            buildup: l.buildup,
            dynamics: l.dynamics,
        },
        None => Shown {
            enabled: false,
            family: 0,
            pattern: false,
            size: zero,
            opacity: zero,
            spacing: zero,
            stabilizer: zero,
            speed_smoothing: zero,
            hardness: Single { bits: ONE },
            pattern_size: Single { bits: FRESH_PATTERN_SIZE },
            pattern_strength: zero,
            buildup: false,
            dynamics: Dynamics { size: None, flow: None, rotation: None, scatter: None, spacing: None },
        },
    }
}

/// What the controls show of a brush, or without one.
pub fn show(look: Option<Look>) -> (s: Shown)
    ensures
        s == shown(look),
{
    let zero = Single { bits: 0 };
    match look {
        Some(l) => {
            let least = Single { bits: LEAST_PATTERN_SIZE };
            let pattern_size = if least.less(l.texture_scale) {
                l.texture_scale
            } else {
                least
            };
            Shown {
                enabled: true,
                family: family_to_dropdown_index(l.family),
                pattern: shows_pattern(l.family),
                size: l.default_size,
                opacity: l.default_opacity,
                spacing: l.spacing_ratio,
                stabilizer: l.stabilizer,
                speed_smoothing: l.speed_smoothing,
                hardness: l.hardness,
                pattern_size,
                pattern_strength: l.texture_strength,
                buildup: l.buildup,
                dynamics: l.dynamics,
            }
        },
        None => Shown {
            enabled: false,
            family: 0,
            pattern: false,
            size: zero,
            opacity: zero,
            spacing: zero,
            stabilizer: zero,
            speed_smoothing: zero,
            hardness: Single { bits: ONE },
            pattern_size: Single { bits: FRESH_PATTERN_SIZE },
            pattern_strength: zero,
            buildup: false,
            dynamics: Dynamics { size: None, flow: None, rotation: None, scatter: None, spacing: None },
        },
    }
}

impl Editor {
    /// An editor without a selection.
    pub fn new(brushes: Vec<Brush>) -> (e: Editor)
        ensures
            e@ == (EditorView {
                brushes: views(brushes@),
                selected: None,
                selected_name: None,
                loading: false,
                dirty: false,
                baseline: None,
            }),
    {
        Editor {
            brushes,
            selected: None,
            selected_name: None,
            loading: false,
            dirty: false,
            baseline: None,
        }
    }

    /// The place of the brush that an edit goes to; nothing while loading.
    fn target(&self) -> (r: Option<usize>)
        ensures
            match r {
                Some(i) => !self@.loading && self@.place() == Some(i as int) && i
                    < self.brushes@.len(),
                None => self@.loading || self@.place() is None,
            },
    {
        if self.loading {
            return None;
        }
        match self.selected {
            Some(id) => find_brush(&self.brushes, id),
            None => None,
        }
    }

    /// Give the brush at a place another look and name the edit.
    fn put_look(&mut self, at: usize, look: Look, Ghost(edit): Ghost<Edit>)
        requires
            !old(self)@.loading,
            old(self)@.place() == Some(at as int),
            at < old(self).brushes@.len(),
            edit.on_offer(),
            !(edit is Name),
            look == edited_look(old(self)@.brushes[at as int].look, edit),
        ensures
            final(self)@ == old(self)@.edit(edit),
    {
        let ghost before = self.brushes@;
        let was = &self.brushes[at];
        let changed = Brush { look, ..was.copy() };
        self.brushes.set(at, changed);
        self.dirty = true;
        proof {
            lemma_updated(before, at as int, changed);
            assert(changed@ == edited(old(self)@.brushes[at as int], edit));
            assert(self@ =~= old(self)@.edit(edit));
        }
    }

    /// The name was edited. The new name is what the brush is found by after the
    /// library was read again.
    pub fn rename(&mut self, name: String)
        ensures
            final(self)@ == old(self)@.edit(Edit::Name(name@)),
    {
        if self.loading || self.selected.is_none() {
            return;
        }
        let ghost before = self.brushes@;
        match self.target() {
            Some(at) => {
                let was = &self.brushes[at];
                let changed = Brush { name: name.as_str().to_owned(), ..was.copy() };
                self.brushes.set(at, changed);
                proof {
                    lemma_updated(before, at as int, changed);
                }
            },
            None => {},
        }
        self.selected_name = Some(name);
        self.dirty = true;
        assert(self@ =~= old(self)@.edit(Edit::Name(name@)));
    }

    /// A family was picked.
    pub fn pick_family(&mut self, index: u32, fresh: u64)
        ensures
            final(self)@ == old(self)@.edit(Edit::Family(index, fresh)),
    {
        if let Some(at) = self.target() {
            let mut look = self.brushes[at].look;
            assert(self@.brushes[at as int] == self.brushes@[at as int]@);
            look.family = if index == 0 {
                BrushFamily::SoftRound
            } else if index == 1 {
                BrushFamily::Pixel
            } else {
                match look.family {
                    BrushFamily::Textured(p) => BrushFamily::Textured(p),
                    _ => BrushFamily::Textured(fresh),
                }
            };
            let textured = match look.family {
                BrushFamily::Textured(_) => true,
                _ => false,
            };
            if textured && look.texture_scale.at_most(Single { bits: 0 }) {
                look.texture_scale = Single { bits: FRESH_PATTERN_SIZE };
                look.texture_strength = Single { bits: FRESH_PATTERN_STRENGTH };
            }
            self.put_look(at, look, Ghost(Edit::Family(index, fresh)));
        }
    }

    /// A slider was moved.
    pub fn set_scale(&mut self, field: ScaleField, value: Single)
        ensures
            final(self)@ == old(self)@.edit(Edit::Scale(field, value)),
    {
        if let Some(at) = self.target() {
            let mut look = self.brushes[at].look;
            assert(self@.brushes[at as int] == self.brushes@[at as int]@);
            match field {
                ScaleField::Size => {
                    look.default_size = value;
                },
                ScaleField::Opacity => {
                    look.default_opacity = value;
                },
                ScaleField::Spacing => {
                    look.spacing_ratio = value;
                },
                ScaleField::Stabilizer => {
                    look.stabilizer = value;
                },
                ScaleField::SpeedSmoothing => {
                    look.speed_smoothing = value;
                },
                ScaleField::Hardness => {
                    look.hardness = value;
                },
                ScaleField::PatternSize => {
                    look.texture_scale = value;
                },
                ScaleField::PatternStrength => {
                    look.texture_strength = value;
                },
            }
            self.put_look(at, look, Ghost(Edit::Scale(field, value)));
        } else {
            self.touch();
            assert(self@ =~= old(self)@.edit(Edit::Scale(field, value)));
        }
    }

    /// An edit whose brush is gone: there is nothing to change, and the edit
    /// still counts.
    fn touch(&mut self)
        ensures
            final(self)@ == (EditorView {
                dirty: old(self).dirty || (!old(self).loading && old(self).selected is Some),
                ..old(self)@
            }),
    {
        if !self.loading && self.selected.is_some() {
            self.dirty = true;
        }
    }

    /// Building up was switched.
    pub fn set_buildup(&mut self, on: bool)
        ensures
            final(self)@ == old(self)@.edit(Edit::Buildup(on)),
    {
        if let Some(at) = self.target() {
            let mut look = self.brushes[at].look;
            assert(self@.brushes[at as int] == self.brushes@[at as int]@);
            look.buildup = on;
            self.put_look(at, look, Ghost(Edit::Buildup(on)));
        } else {
            self.touch();
            assert(self@ =~= old(self)@.edit(Edit::Buildup(on)));
        }
    }

    /// A dynamic was switched. What its controls show then, if it is on.
    pub fn toggle_dynamics(
        &mut self,
        field: DynamicsField,
        on: bool,
        pressure_linear: Mapping,
    ) -> (m: Option<Mapping>)
        ensures
            final(self)@ == old(self)@.edit(Edit::Toggle(field, on, pressure_linear)),
            m == (if old(self)@.loading || old(self)@.place() is None || !on {
                None
            } else {
                final(self)@.brushes[old(self)@.place()->0].look.dynamics.slot(field)
            }),
    {
        if let Some(at) = self.target() {
            let mut look = self.brushes[at].look;
            assert(self@.brushes[at as int] == self.brushes@[at as int]@);
            if on {
                let start = field.default_mapping(&look, pressure_linear);
                if look.dynamics.get(field).is_none() {
                    look.dynamics.set(field, Some(start));
                }
                let m = look.dynamics.get(field);
                self.put_look(at, look, Ghost(Edit::Toggle(field, on, pressure_linear)));
                m
            } else {
                look.dynamics.set(field, None);
                self.put_look(at, look, Ghost(Edit::Toggle(field, on, pressure_linear)));
                None
            }
        } else {
            None
        }
    }

    /// Another source was picked for a dynamic.
    pub fn set_source(&mut self, field: DynamicsField, index: usize)
        ensures
            final(self)@ == old(self)@.edit(Edit::Source(field, index)),
    {
        let source = match DynSource::from_index(index) {
            Some(source) => source,
            None => {
                return;
            },
        };
        assert(source == choose|s: DynSource| #[trigger] s.place() == index) by {
            let other = choose|s: DynSource| #[trigger] s.place() == index;
            assert(source.place() == index);
            assert(other.place() == index);
        }
        if let Some(at) = self.target() {
            let mut look = self.brushes[at].look;
            assert(self@.brushes[at as int] == self.brushes@[at as int]@);
            if let Some(m) = look.dynamics.get(field) {
                look.dynamics.set(field, Some(Mapping { source, ..m }));
            }
            self.put_look(at, look, Ghost(Edit::Source(field, index)));
        } else {
            self.touch();
            assert(self@ =~= old(self)@.edit(Edit::Source(field, index)));
        }
    }

    /// One end of the range of a dynamic was edited.
    pub fn set_range(&mut self, field: DynamicsField, low: bool, value: Single)
        ensures
            final(self)@ == old(self)@.edit(Edit::Range(field, low, value)),
    {
        if let Some(at) = self.target() {
            let mut look = self.brushes[at].look;
            assert(self@.brushes[at as int] == self.brushes@[at as int]@);
            if let Some(m) = look.dynamics.get(field) {
                let changed = if low {
                    Mapping { low: value, ..m }
                } else {
                    Mapping { high: value, ..m }
                };
                look.dynamics.set(field, Some(changed));
            }
            self.put_look(at, look, Ghost(Edit::Range(field, low, value)));
        } else {
            self.touch();
            assert(self@ =~= old(self)@.edit(Edit::Range(field, low, value)));
        }
    }

    /// A dynamic was turned round.
    pub fn set_invert(&mut self, field: DynamicsField, on: bool)
        ensures
            final(self)@ == old(self)@.edit(Edit::Invert(field, on)),
    {
        if let Some(at) = self.target() {
            let mut look = self.brushes[at].look;
            assert(self@.brushes[at as int] == self.brushes@[at as int]@);
            if let Some(m) = look.dynamics.get(field) {
                look.dynamics.set(field, Some(Mapping { invert: on, ..m }));
            }
            self.put_look(at, look, Ghost(Edit::Invert(field, on)));
        } else {
            self.touch();
            assert(self@ =~= old(self)@.edit(Edit::Invert(field, on)));
        }
    }

    /// A pattern was read for the brush that was selected when it was asked for.
    pub fn pattern_picked(&mut self, id: u64, pattern: u64)
        ensures
            final(self)@ == (EditorView {
                brushes: match place_of(old(self)@.brushes, id) {
                    Some(i) => old(self)@.brushes.update(
                        i,
                        BrushView {
                            look: Look {
                                family: BrushFamily::Textured(pattern),
                                ..old(self)@.brushes[i].look
                            },
                            ..old(self)@.brushes[i]
                        },
                    ),
                    None => old(self)@.brushes,
                },
                dirty: true,
                ..old(self)@
            }),
            old(self).selected == Some(id) ==> final(self)@ == old(self)@.edit(
                Edit::Pattern(pattern),
            ),
    {
        let ghost before = self.brushes@;
        if let Some(at) = find_brush(&self.brushes, id) {
            let was = &self.brushes[at];
            let look = Look { family: BrushFamily::Textured(pattern), ..was.look };
            let changed = Brush { look, ..was.copy() };
            assert(self@.brushes[at as int] == self.brushes@[at as int]@);
            self.brushes.set(at, changed);
            proof {
                lemma_updated(before, at as int, changed);
            }
        }
        self.dirty = true;
        assert(self@.brushes =~= match place_of(
            old(self)@.brushes,
            id,
        ) {
            Some(i) => old(self)@.brushes.update(
                i,
                BrushView {
                    look: Look {
                        family: BrushFamily::Textured(pattern),
                        ..old(self)@.brushes[i].look
                    },
                    ..old(self)@.brushes[i]
                },
            ),
            None => old(self)@.brushes,
        });
    }

    /// Begin to fill the controls from the brush at a place, or from none: it is
    /// what discarding goes back to.
    pub fn begin_load(&mut self, at: Option<usize>) -> (s: Shown)
        requires
            at matches Some(i) ==> i < old(self).brushes@.len(),
        ensures
            final(self)@ == old(self)@.filling(
                match at {
                    Some(i) => Some(i as int),
                    None => None,
                },
            ),
            s == shown(
                match at {
                    Some(i) => Some(old(self)@.brushes[i as int].look),
                    None => None,
                },
            ),
    {
        self.loading = true;
        self.dirty = false;
        match at {
            Some(i) => {
                let brush = self.brushes[i].copy();
                assert(self@.brushes[i as int] == self.brushes@[i as int]@);
                let look = brush.look;
                self.baseline = Some(brush);
                show(Some(look))
            },
            None => {
                self.baseline = None;
                show(None)
            },
        }
    }

    /// The controls are filled.
    pub fn end_load(&mut self)
        ensures
            final(self)@ == old(self)@.filled(),
    {
        self.loading = false;
    }

    /// The selected brush was written to the disk. Without a selection nothing was.
    pub fn saved(&mut self)
        ensures
            final(self)@ == old(self)@.saved(),
    {
        if let Some(id) = self.selected {
            if let Some(at) = find_brush(&self.brushes, id) {
                assert(self@.brushes[at as int] == self.brushes@[at as int]@);
                let brush = self.brushes[at].copy();
                self.baseline = Some(brush);
            }
            self.dirty = false;
        }
        assert(self@ =~= old(self)@.saved());
    }

    /// Discard the edits. Whether the controls are to be filled anew, from the
    /// baseline, which stays what it is.
    pub fn discard(&mut self) -> (fill: bool)
        ensures
            final(self)@ == old(self)@.discarded(),
            fill == (old(self)@.selected is Some && old(self)@.baseline is Some),
    {
        let ghost before = self.brushes@;
        let base = match &self.baseline {
            Some(b) => b.copy(),
            None => {
                return false;
            },
        };
        match self.selected {
            Some(id) => {
                if let Some(at) = find_brush(&self.brushes, id) {
                    self.brushes.set(at, base);
                    proof {
                        lemma_updated(before, at as int, base);
                    }
                }
                self.dirty = false;
                assert(self@ =~= old(self)@.discarded());
                true
            },
            None => false,
        }
    }
}

/// The editor after a run of edits.
pub open spec fn edits(e: EditorView, run: Seq<Edit>) -> EditorView
    decreases run.len(),
{
    if run.len() == 0 {
        e
    } else {
        edits(e, run.drop_last()).edit(run.last())
    }
}

/// What the controls report while they are filled is no edit.
pub proof fn law_loading_is_no_edit(e: EditorView, edit: Edit)
    requires
        e.loading,
        edit.of_a_control(),
    ensures
        e.edit(edit) == e,
{
}

/// Edits touch the selected brush alone, keep which brush that is, and leave the
/// baseline as it was.
pub proof fn law_edits_stay_with_the_brush(e: EditorView, run: Seq<Edit>)
    ensures
        edits(e, run).brushes.len() == e.brushes.len(),
        edits(e, run).selected == e.selected,
        edits(e, run).loading == e.loading,
        edits(e, run).baseline == e.baseline,
        edits(e, run).place() == e.place(),
        forall|i: int|
            0 <= i < e.brushes.len() && e.place() != Some(i) ==> #[trigger] edits(
                e,
                run,
            ).brushes[i] == e.brushes[i],
        e.place() matches Some(i) ==> 0 <= i < e.brushes.len() && edits(e, run).brushes[i].id
            == e.brushes[i].id && edits(e, run).brushes[i].path == e.brushes[i].path,
    decreases run.len(),
{
    if e.selected is Some {
        lemma_place(e.brushes, e.selected->0);
    }
    if run.len() > 0 {
        law_edits_stay_with_the_brush(e, run.drop_last());
        let mid = edits(e, run.drop_last());
        if mid.edit(run.last()) != mid {
            if let Some(i) = mid.place() {
                lemma_place_kept(
                    mid.brushes,
                    mid.selected->0,
                    i,
                    edited(mid.brushes[i], run.last()),
                );
            }
        }
    }
}

/// Discarding undoes whatever was edited since the brush was selected or last
/// saved, and nothing is unsaved then.
pub proof fn law_discard_undoes_the_edits(e: EditorView, run: Seq<Edit>)
    requires
        e.place() is Some,
        e.baseline == Some(e.brushes[e.place()->0]),
    ensures
        edits(e, run).discarded().brushes == e.brushes,
        edits(e, run).discarded().baseline == e.baseline,
        !edits(e, run).discarded().dirty,
{
    law_edits_stay_with_the_brush(e, run);
    assert(edits(e, run).discarded().brushes =~= e.brushes);
}

/// After saving nothing is unsaved, and discarding changes nothing.
pub proof fn law_discard_after_save_changes_nothing(e: EditorView)
    requires
        e.place() is Some,
    ensures
        !e.saved().dirty,
        e.saved().discarded() == e.saved(),
{
    lemma_place(e.brushes, e.selected->0);
    assert(e.saved().discarded() =~= e.saved());
}

/// A slider moves the one measure that it stands for and no other.
pub proof fn law_a_slider_moves_its_own_measure(look: Look, field: ScaleField, value: Single)
    ensures
        ({
            let l = with_scale(look, field, value);
            &&& field is Size ==> l.default_size == value
            &&& !(field is Size) ==> l.default_size == look.default_size
            &&& field is Opacity ==> l.default_opacity == value
            &&& !(field is Opacity) ==> l.default_opacity == look.default_opacity
            &&& field is Spacing ==> l.spacing_ratio == value
            &&& !(field is Spacing) ==> l.spacing_ratio == look.spacing_ratio
            &&& field is Stabilizer ==> l.stabilizer == value
            &&& !(field is Stabilizer) ==> l.stabilizer == look.stabilizer
            &&& field is SpeedSmoothing ==> l.speed_smoothing == value
            &&& !(field is SpeedSmoothing) ==> l.speed_smoothing == look.speed_smoothing
            &&& field is Hardness ==> l.hardness == value
            &&& !(field is Hardness) ==> l.hardness == look.hardness
            &&& field is PatternSize ==> l.texture_scale == value
            &&& !(field is PatternSize) ==> l.texture_scale == look.texture_scale
            &&& field is PatternStrength ==> l.texture_strength == value
            &&& !(field is PatternStrength) ==> l.texture_strength == look.texture_strength
            &&& l.family == look.family && l.buildup == look.buildup && l.tip == look.tip
            &&& l.dynamics == look.dynamics && l.icon == look.icon && l.preview == look.preview
        }),
{
}

/// Each control shows the measure that it edits: what a slider was moved to is what it
/// shows, and the other sliders show what they did. A pattern is never shown smaller
/// than sixteen.
pub proof fn law_a_control_shows_what_it_edits(look: Look, value: Single)
    ensures
        ({
            let before = shown(Some(look));
            let size = shown(Some(with_scale(look, ScaleField::Size, value)));
            let opacity = shown(Some(with_scale(look, ScaleField::Opacity, value)));
            let spacing = shown(Some(with_scale(look, ScaleField::Spacing, value)));
            let stabilizer = shown(Some(with_scale(look, ScaleField::Stabilizer, value)));
            let smoothing = shown(Some(with_scale(look, ScaleField::SpeedSmoothing, value)));
            let hardness = shown(Some(with_scale(look, ScaleField::Hardness, value)));
            let pattern = shown(Some(with_scale(look, ScaleField::PatternSize, value)));
            let strength = shown(Some(with_scale(look, ScaleField::PatternStrength, value)));
            &&& size == (Shown { size: value, ..before })
            &&& opacity == (Shown { opacity: value, ..before })
            &&& spacing == (Shown { spacing: value, ..before })
            &&& stabilizer == (Shown { stabilizer: value, ..before })
            &&& smoothing == (Shown { speed_smoothing: value, ..before })
            &&& hardness == (Shown { hardness: value, ..before })
            &&& strength == (Shown { pattern_strength: value, ..before })
            &&& pattern == (Shown { pattern_size: pattern.pattern_size, ..before })
            &&& (Single { bits: 0x4180_0000 }).lt_spec(value) ==> pattern.pattern_size == value
            &&& !(Single { bits: 0x4180_0000 }).lt_spec(value) ==> pattern.pattern_size == (Single {
                bits: 0x4180_0000,
            })
            &&& before.size == look.default_size && before.opacity == look.default_opacity
            &&& before.spacing == look.spacing_ratio && before.stabilizer == look.stabilizer
            &&& before.speed_smoothing == look.speed_smoothing && before.hardness == look.hardness
            &&& before.pattern_strength == look.texture_strength
            &&& before.buildup == look.buildup && before.dynamics == look.dynamics
            &&& before.enabled && !shown(None).enabled
            &&& before.pattern <==> look.family is Textured || look.family is ImageTip
        }),
{
}

/// A family that is picked is the one that shows as picked. A brush that is textured
/// already keeps its pattern, and any other gets the fresh one; one without a pattern
/// size gets a size and a strength with it. Nothing else of the brush changes.
pub proof fn law_a_picked_family_shows(look: Look, index: u32, fresh: u64)
    ensures
        ({
            let l = with_family(look, index, fresh);
            &&& index <= 2 ==> family_place(l.family) == index
            &&& index > 2 ==> family_place(l.family) == 2
            &&& index == 0 ==> l.family == BrushFamily::SoftRound
            &&& index == 1 ==> l.family == BrushFamily::Pixel
            &&& index >= 2 && look.family is Textured ==> l.family == look.family
            &&& index >= 2 && !(look.family is Textured) ==> l.family == BrushFamily::Textured(
                fresh,
            )
            &&& index < 2 ==> l.texture_scale == look.texture_scale && l.texture_strength
                == look.texture_strength
            &&& index >= 2 && look.texture_scale.le_spec(Single { bits: 0 }) ==> l.texture_scale
                == (Single { bits: 0x4348_0000 }) && l.texture_strength == (Single {
                bits: 0x3f59_999a,
            })
            &&& !look.texture_scale.le_spec(Single { bits: 0 }) ==> l.texture_scale
                == look.texture_scale && l.texture_strength == look.texture_strength
            &&& l == (Look {
                family: l.family,
                texture_scale: l.texture_scale,
                texture_strength: l.texture_strength,
                ..look
            })
        }),
{
}

/// A dynamic that is switched off is gone; one that is switched on starts with what its
/// field starts with, unless it is on already. The other dynamics and all else stay.
pub proof fn law_switching_a_dynamic(
    look: Look,
    field: DynamicsField,
    other: DynamicsField,
    on: bool,
    engine: Mapping,
)
    ensures
        ({
            let l = edited_look(look, Edit::Toggle(field, on, engine));
            &&& l.dynamics.slot(field) is Some <==> on
            &&& on && look.dynamics.slot(field) is Some ==> l == look
            &&& on && look.dynamics.slot(field) is None ==> l.dynamics.slot(field) == Some(
                field.start(look, engine),
            )
            &&& other != field ==> l.dynamics.slot(other) == look.dynamics.slot(other)
            &&& l == (Look { dynamics: l.dynamics, ..look })
        }),
{
}

/// An edit of a dynamic that is on changes the one thing it is about: its source, one
/// end of its range or its direction. One that is off stays off, and the other dynamics
/// stay as they are.
pub proof fn law_editing_a_dynamic(
    look: Look,
    field: DynamicsField,
    other: DynamicsField,
    source: DynSource,
    low: bool,
    value: Single,
    on: bool,
)
    ensures
        ({
            let picked = edited_look(look, Edit::Source(field, source.place() as usize));
            let ranged = edited_look(look, Edit::Range(field, low, value));
            let turned = edited_look(look, Edit::Invert(field, on));
            &&& look.dynamics.slot(field) is None ==> picked == look && ranged == look && turned
                == look
            &&& look.dynamics.slot(field) matches Some(m) ==> {
                &&& picked.dynamics.slot(field) == Some(Mapping { source, ..m })
                &&& low ==> ranged.dynamics.slot(field) == Some(Mapping { low: value, ..m })
                &&& !low ==> ranged.dynamics.slot(field) == Some(Mapping { high: value, ..m })
                &&& turned.dynamics.slot(field) == Some(Mapping { invert: on, ..m })
            }
            &&& other != field ==> picked.dynamics.slot(other) == look.dynamics.slot(other)
                && ranged.dynamics.slot(other) == look.dynamics.slot(other)
                && turned.dynamics.slot(other) == look.dynamics.slot(other)
            &&& picked == (Look { dynamics: picked.dynamics, ..look })
            &&& ranged == (Look { dynamics: ranged.dynamics, ..look })
            &&& turned == (Look { dynamics: turned.dynamics, ..look })
        }),
{
    let index = source.place() as usize;
    let found = choose|s: DynSource| #[trigger] s.place() == index;
    assert(source.place() == index);
    assert(found.place() == index);
}

/// Building up is switched as asked, a pattern that was read textures the brush with it,
/// a name is the name and touches no look, and none of them changes anything else.
pub proof fn law_plain_edits(b: BrushView, on: bool, pattern: u64, name: Seq<char>)
    ensures
        edited(b, Edit::Buildup(on)) == (BrushView { look: Look { buildup: on, ..b.look }, ..b }),
        edited(b, Edit::Pattern(pattern)) == (BrushView {
            look: Look { family: BrushFamily::Textured(pattern), ..b.look },
            ..b
        }),
        edited(b, Edit::Name(name)) == (BrushView { name, ..b }),
{
}

/// An edit goes to the selected brush at once and counts as unsaved; without a selection
/// or for something that is not on offer it is none. Only a new name changes the name
/// that is selected.
pub proof fn law_an_edit_goes_to_the_selected_brush(e: EditorView, edit: Edit)
    requires
        !e.loading,
    ensures
        e.selected is None ==> e.edit(edit) == e,
        (edit matches Edit::Source(_, index) && index >= 9) ==> e.edit(edit) == e,
        e.place() is Some && (edit matches Edit::Source(_, index) ==> index < 9) ==> {
            &&& e.edit(edit).dirty
            &&& e.edit(edit).brushes[e.place()->0] == edited(e.brushes[e.place()->0], edit)
            &&& edit is Name ==> e.edit(edit).selected_name == Some(edit->Name_0)
            &&& !(edit is Name) ==> e.edit(edit).selected_name == e.selected_name
        },
        e.edit(edit).selected == e.selected,
{
    if e.selected is Some {
        lemma_place(e.brushes, e.selected->0);
    }
}

/// Each control makes its own edit, with what it reports.
pub proof fn law_each_control_makes_its_own_edit(
    a: &mut Editor,
    name: String,
    b: &mut Editor,
    index: u32,
    fresh: u64,
    c: &mut Editor,
    scale: ScaleField,
    value: Single,
    d: &mut Editor,
    on: bool,
    f: &mut Editor,
    field: DynamicsField,
    source: usize,
    g: &mut Editor,
    low: bool,
    h: &mut Editor,
)
    requires
        call_ensures(Editor::rename, (a, name), ()),
        call_ensures(Editor::pick_family, (b, index, fresh), ()),
        call_ensures(Editor::set_scale, (c, scale, value), ()),
        call_ensures(Editor::set_buildup, (d, on), ()),
        call_ensures(Editor::set_source, (f, field, source), ()),
        call_ensures(Editor::set_range, (g, field, low, value), ()),
        call_ensures(Editor::set_invert, (h, field, on), ()),
    ensures
        final(a)@ == old(a)@.edit(Edit::Name(name@)),
        final(b)@ == old(b)@.edit(Edit::Family(index, fresh)),
        final(c)@ == old(c)@.edit(Edit::Scale(scale, value)),
        final(d)@ == old(d)@.edit(Edit::Buildup(on)),
        final(f)@ == old(f)@.edit(Edit::Source(field, source)),
        final(g)@ == old(g)@.edit(Edit::Range(field, low, value)),
        final(h)@ == old(h)@.edit(Edit::Invert(field, on)),
{
}

/// What a switched dynamic shows is the dynamic that the brush has then, and nothing
/// where it is off or the switch was no edit.
pub proof fn law_a_switched_dynamic_shows(
    e: &mut Editor,
    field: DynamicsField,
    on: bool,
    engine: Mapping,
    m: Option<Mapping>,
)
    requires
        call_ensures(Editor::toggle_dynamics, (e, field, on, engine), m),
    ensures
        final(e)@ == old(e)@.edit(Edit::Toggle(field, on, engine)),
        m is Some <==> !old(e).loading && old(e)@.place() is Some && on,
        m is Some ==> m == final(e)@.brushes[old(e)@.place()->0].look.dynamics.slot(field),
{
    if old(e)@.selected is Some {
        lemma_place(old(e)@.brushes, old(e)@.selected->0);
    }
}

/// A brush that was read for a pattern keeps it even where another one is selected by
/// then; only that brush changes.
pub proof fn law_a_pattern_goes_to_the_brush_it_was_asked_for(
    e: &mut Editor,
    id: u64,
    pattern: u64,
    i: int,
)
    requires
        call_ensures(Editor::pattern_picked, (e, id, pattern), ()),
        0 <= i < old(e)@.brushes.len(),
    ensures
        final(e).dirty,
        final(e)@.brushes.len() == old(e)@.brushes.len(),
        place_of(old(e)@.brushes, id) == Some(i) ==> final(e)@.brushes[i].look.family
            == BrushFamily::Textured(pattern) && final(e)@.brushes[i].id == id,
        place_of(old(e)@.brushes, id) != Some(i) ==> final(e)@.brushes[i] == old(e)@.brushes[i],
        final(e).selected == old(e).selected,
{
    lemma_place(old(e)@.brushes, id);
}

/// Filling the controls starts from the brush that is shown: that is what discarding
/// goes back to, nothing is unsaved, and what the controls report is no edit until they
/// are filled.
pub proof fn law_filling_starts_afresh(
    e: &mut Editor,
    at: Option<usize>,
    s: Shown,
    f: &mut Editor,
)
    requires
        at matches Some(i) ==> i < old(e).brushes@.len(),
        call_ensures(Editor::begin_load, (e, at), s),
        old(f)@ == final(e)@,
        call_ensures(Editor::end_load, (f,), ()),
    ensures
        final(e).loading && !final(e).dirty,
        !final(f).loading && !final(f).dirty,
        at is None ==> final(f)@.baseline is None && s == shown(None),
        at matches Some(i) ==> final(f)@.baseline == Some(old(e)@.brushes[i as int]) && s == shown(
            Some(old(e)@.brushes[i as int].look),
        ),
        final(f)@.brushes == old(e)@.brushes && final(f)@.selected == old(e)@.selected
            && final(f)@.selected_name == old(e)@.selected_name,
{
}

/// Saving keeps the brushes and makes the selected one, as it is now, what discarding
/// goes back to; discarding puts that back and changes no other brush.
pub proof fn law_saving_and_discarding(
    e: &mut Editor,
    f: &mut Editor,
    fill: bool,
    i: int,
)
    requires
        call_ensures(Editor::saved, (e,), ()),
        call_ensures(Editor::discard, (f,), fill),
        0 <= i < old(f)@.brushes.len(),
    ensures
        final(e)@.brushes == old(e)@.brushes,
        old(e).selected is Some ==> !final(e).dirty,
        old(e).selected is None ==> final(e)@ == old(e)@,
        old(e)@.place() is Some ==> final(e)@.baseline == Some(
            old(e)@.brushes[old(e)@.place()->0],
        ),
        fill <==> old(f).selected is Some && old(f).baseline is Some,
        fill ==> !final(f).dirty,
        !fill ==> final(f)@ == old(f)@,
        fill && old(f)@.place() == Some(i) ==> final(f)@.brushes[i] == old(f)@.baseline->0,
        old(f)@.place() != Some(i) ==> final(f)@.brushes[i] == old(f)@.brushes[i],
        final(f)@.baseline == old(f)@.baseline,
{
    if old(f)@.selected is Some {
        lemma_place(old(f)@.brushes, old(f)@.selected->0);
    }
}

/// Filling the controls, saving and discarding leave the selection where it is. Only
/// discarding touches a brush, only a save or a new filling sets what is gone back to,
/// and only the filling itself is told as such.
pub proof fn law_what_filling_and_saving_leave_alone(
    a: &mut Editor,
    at: Option<usize>,
    s: Shown,
    b: &mut Editor,
    c: &mut Editor,
    d: &mut Editor,
    fill: bool,
    e: &mut Editor,
    id: u64,
    pattern: u64,
)
    requires
        at matches Some(i) ==> i < old(a).brushes@.len(),
        call_ensures(Editor::begin_load, (a, at), s),
        call_ensures(Editor::end_load, (b,), ()),
        call_ensures(Editor::saved, (c,), ()),
        call_ensures(Editor::discard, (d,), fill),
        call_ensures(Editor::pattern_picked, (e, id, pattern), ()),
    ensures
        final(a)@.brushes == old(a)@.brushes && final(a)@.selected == old(a)@.selected
            && final(a)@.selected_name == old(a)@.selected_name,
        final(b)@.brushes == old(b)@.brushes && final(b)@.selected == old(b)@.selected
            && final(b)@.selected_name == old(b)@.selected_name,
        final(b)@.dirty == old(b)@.dirty && final(b)@.baseline == old(b)@.baseline
            && !final(b)@.loading,
        final(c)@.brushes == old(c)@.brushes && final(c)@.selected == old(c)@.selected
            && final(c)@.selected_name == old(c)@.selected_name && final(c)@.loading == old(
            c,
        )@.loading,
        final(d)@.selected == old(d)@.selected && final(d)@.selected_name == old(
            d,
        )@.selected_name && final(d)@.baseline == old(d)@.baseline && final(d)@.loading == old(
            d,
        )@.loading && final(d)@.brushes.len() == old(d)@.brushes.len(),
        !fill ==> final(d)@ == old(d)@,
        final(e)@.selected == old(e)@.selected && final(e)@.selected_name == old(
            e,
        )@.selected_name && final(e)@.baseline == old(e)@.baseline && final(e)@.loading == old(
            e,
        )@.loading,
{
    lemma_place(old(d)@.brushes, old(d)@.selected->0);
}

} // verus!

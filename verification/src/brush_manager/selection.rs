//! Which brush the editor shows.

use vstd::prelude::*;

use crate::brush_manager::editor::{Edit, Editor, EditorView};
use crate::brush_manager::library::{initial_selection, lemma_named, reselect, reselected};
use crate::brush_manager::preset::{
    find_brush, lemma_place, place_of, views, Brush, BrushView, Dynamics, Look, ONE,
};
use crate::canvas::stroke_tip::BrushFamily;
use crate::ieee::Single;

verus! {

/// The size of a new brush: twelve pixels.
pub const NEW_SIZE: u32 = 0x4140_0000;

/// The spacing of a new brush: a tenth of its size.
pub const NEW_SPACING: u32 = 0x3dcc_cccd;

/// How a new brush paints, given the number of the round tip and the dynamics that
/// the engine starts with.
pub open spec fn new_look(round_tip: u64, dynamics: Dynamics) -> Look {
    Look {
        family: BrushFamily::SoftRound,
        default_size: Single { bits: NEW_SIZE },
        default_opacity: Single { bits: ONE },
        spacing_ratio: Single { bits: NEW_SPACING },
        stabilizer: Single { bits: 0 },
        speed_smoothing: Single { bits: 0 },
        hardness: Single { bits: ONE },
        texture_scale: Single { bits: 0 },
        texture_strength: Single { bits: 0 },
        buildup: false,
        tip: round_tip,
        dynamics,
        icon: None,
        preview: None,
    }
}

/// What activating a row of the list does.
#[derive(Clone, Copy, Debug, PartialEq, Eq, Structural)]
pub enum Switch {
    /// Its brush is selected: fill the controls from the one at this place.
    To(Option<usize>),
    /// Another brush has unsaved edits: ask whether to save or discard them, or to
    /// stay.
    Ask,
    /// It is the brush with the unsaved edits: nothing happens.
    Stay,
}

/// What is answered when a brush with unsaved edits is about to be left.
#[derive(Clone, Copy, Debug, PartialEq, Eq, Structural)]
pub enum LeaveAnswer {
    Save,
    Discard,
    Stay,
}

/// What follows from the answer.
#[derive(Clone, Copy, Debug, PartialEq, Eq, Structural)]
pub enum LeaveStep {
    /// Save the brush, and leave it once that is done.
    SaveFirst,
    /// Leave it.
    Leave,
    /// Stay with it.
    Stay,
}

/// The place of the brush that the window opens with.
pub open spec fn opening_place(brushes: Seq<BrushView>, active: u64) -> Option<int> {
    match place_of(brushes, active) {
        Some(i) => Some(i),
        None => if brushes.len() > 0 {
            Some(0)
        } else {
            None
        },
    }
}

impl EditorView {
    /// The editor with the brush at a place selected, or none.
    pub open spec fn at(self, at: Option<int>) -> EditorView {
        EditorView {
            selected: match at {
                Some(i) => Some(self.brushes[i].id),
                None => None,
            },
            selected_name: match at {
                Some(i) => Some(self.brushes[i].name),
                None => None,
            },
            ..self
        }
    }

    /// A fresh editor with the active brush selected, else the first.
    pub open spec fn opened(brushes: Seq<BrushView>, active: u64) -> EditorView {
        (EditorView {
            brushes,
            selected: None,
            selected_name: None,
            loading: false,
            dirty: false,
            baseline: None,
        }).at(opening_place(brushes, active))
    }

    /// The selected brush has edits that were not saved.
    pub open spec fn unsaved(self) -> bool {
        self.dirty && self.place() is Some
    }

    /// The editor once a row of the list was activated: unsaved edits keep their brush
    /// selected.
    pub open spec fn switched(self, id: u64) -> EditorView {
        if self.unsaved() {
            self
        } else {
            self.activated(id)
        }
    }

    /// The editor with the brush of an activated row selected.
    pub open spec fn activated(self, id: u64) -> EditorView {
        EditorView {
            selected: Some(id),
            selected_name: match place_of(self.brushes, id) {
                Some(i) => Some(self.brushes[i].name),
                None => None,
            },
            ..self
        }
    }

    /// The editor once a brush is being made: its name is the one to select.
    pub open spec fn creating(self, name: Seq<char>) -> EditorView {
        EditorView { selected_name: Some(name), ..self }
    }

    /// The editor once the library was read again.
    pub open spec fn reloaded(self, brushes: Seq<BrushView>) -> EditorView {
        (EditorView { brushes, ..self }).at(reselected(brushes, self.selected_name))
    }
}

impl Editor {
    /// Select the brush at a place, or none.
    fn select_at(&mut self, at: Option<usize>)
        requires
            at matches Some(i) ==> i < old(self).brushes@.len(),
        ensures
            final(self)@ == old(self)@.at(
                match at {
                    Some(i) => Some(i as int),
                    None => None,
                },
            ),
    {
        match at {
            Some(i) => {
                let brush = &self.brushes[i];
                let id: u64 = brush.id;
                let name = brush.name.as_str().to_owned();
                self.selected = Some(id);
                self.selected_name = Some(name);
                assert(self@.brushes[i as int] == self.brushes@[i as int]@);
            },
            None => {
                self.selected = None;
                self.selected_name = None;
            },
        }
        assert(self@ =~= old(self)@.at(
            match at {
                Some(i) => Some(i as int),
                None => None,
            },
        ));
    }

    /// The window opens with a fresh editor: the active brush is selected, else the
    /// first. The place is that of the brush that the controls are filled from.
    pub fn open(brushes: Vec<Brush>, active: u64) -> (r: (Editor, Option<usize>))
        ensures
            r.0@ == EditorView::opened(views(brushes@), active),
            match r.1 {
                Some(i) => opening_place(views(brushes@), active) == Some(i as int) && i
                    < brushes@.len(),
                None => opening_place(views(brushes@), active) is None,
            },
    {
        let at = initial_selection(&brushes, active);
        proof {
            lemma_place(views(brushes@), active);
        }
        let mut editor = Editor::new(brushes);
        editor.select_at(at);
        (editor, at)
    }

    /// Whether the selected brush may be left, for another one or because the window
    /// closes: not while it has unsaved edits.
    pub fn may_leave(&self) -> (r: bool)
        ensures
            r == !self@.unsaved(),
    {
        match self.selected {
            Some(id) => !(self.dirty && find_brush(&self.brushes, id).is_some()),
            None => true,
        }
    }

    /// What was answered when the selected brush was about to be left.
    pub fn leave_answered(&mut self, answer: LeaveAnswer) -> (s: LeaveStep)
        ensures
            final(self)@ == (if answer == LeaveAnswer::Discard {
                old(self)@.discarded()
            } else {
                old(self)@
            }),
            s == (match answer {
                LeaveAnswer::Save => LeaveStep::SaveFirst,
                LeaveAnswer::Discard => if final(self)@.unsaved() {
                    LeaveStep::Stay
                } else {
                    LeaveStep::Leave
                },
                LeaveAnswer::Stay => LeaveStep::Stay,
            }),
    {
        match answer {
            LeaveAnswer::Save => LeaveStep::SaveFirst,
            LeaveAnswer::Stay => LeaveStep::Stay,
            LeaveAnswer::Discard => {
                self.discard();
                if self.may_leave() {
                    LeaveStep::Leave
                } else {
                    LeaveStep::Stay
                }
            },
        }
    }

    /// A row of the list was activated. Where the selected brush has unsaved edits it
    /// stays selected.
    pub fn activate(&mut self, id: u64) -> (s: Switch)
        ensures
            final(self)@ == old(self)@.switched(id),
            if old(self)@.unsaved() {
                s == (if old(self).selected == Some(id) {
                    Switch::Stay
                } else {
                    Switch::Ask
                })
            } else {
                &&& s matches Switch::To(at)
                &&& match at {
                    Some(i) => place_of(old(self)@.brushes, id) == Some(i as int) && i
                        < old(self).brushes@.len(),
                    None => place_of(old(self)@.brushes, id) is None,
                }
            },
    {
        if !self.may_leave() {
            return match self.selected {
                Some(now) => if now == id {
                    Switch::Stay
                } else {
                    Switch::Ask
                },
                None => Switch::Ask,
            };
        }
        let at = find_brush(&self.brushes, id);
        self.selected = Some(id);
        self.selected_name = match at {
            Some(i) => {
                assert(self@.brushes[i as int] == self.brushes@[i as int]@);
                Some(self.brushes[i].name.as_str().to_owned())
            },
            None => None,
        };
        assert(self@ =~= old(self)@.activated(id));
        Switch::To(at)
    }

    /// A brush is being made. Its name is selected before it joins the library, so
    /// that the reading that follows finds it. None is made while the selected brush
    /// has unsaved edits: it would be left for the new one.
    pub fn create(
        &mut self,
        name: String,
        path: String,
        round_tip: u64,
        dynamics: Dynamics,
    ) -> (made: Option<Brush>)
        ensures
            made is None == old(self)@.unsaved(),
            final(self)@ == (if old(self)@.unsaved() {
                old(self)@
            } else {
                old(self)@.creating(name@)
            }),
            made matches Some(brush) ==> brush.id == 0 && brush.name@ == name@ && brush.path
                == Some(path) && brush.look == new_look(round_tip, dynamics),
    {
        if !self.may_leave() {
            return None;
        }
        let selected = name.as_str().to_owned();
        self.selected_name = Some(selected);
        assert(self@ =~= old(self)@.creating(name@));
        let brush = Brush {
            id: 0,
            name,
            look: Look {
                family: BrushFamily::SoftRound,
                default_size: Single { bits: NEW_SIZE },
                default_opacity: Single { bits: ONE },
                spacing_ratio: Single { bits: NEW_SPACING },
                stabilizer: Single { bits: 0 },
                speed_smoothing: Single { bits: 0 },
                hardness: Single { bits: ONE },
                texture_scale: Single { bits: 0 },
                texture_strength: Single { bits: 0 },
                buildup: false,
                tip: round_tip,
                dynamics,
                icon: None,
                preview: None,
            },
            path: Some(path),
        };
        Some(brush)
    }

    /// The brush that was made has joined the library under an identity.
    pub fn created(&mut self, id: u64)
        ensures
            final(self)@ == (EditorView { selected: Some(id), ..old(self)@ }),
    {
        self.selected = Some(id);
        assert(self@ =~= (EditorView { selected: Some(id), ..old(self)@ }));
    }

    /// The library was read again, with new identities: what was read is what counts,
    /// and edits that were not saved are gone. The result is the place of the brush
    /// that the controls are filled from.
    pub fn reload(&mut self, brushes: Vec<Brush>) -> (at: Option<usize>)
        ensures
            final(self)@ == old(self)@.reloaded(views(brushes@)),
            match at {
                Some(i) => reselected(views(brushes@), old(self)@.selected_name) == Some(i as int)
                    && i < brushes@.len(),
                None => reselected(views(brushes@), old(self)@.selected_name) is None,
            },
    {
        self.brushes = brushes;
        let want = match &self.selected_name {
            Some(name) => Some(name.as_str()),
            None => None,
        };
        let at = reselect(&self.brushes, want);
        self.select_at(at);
        at
    }
}

/// A library that is read again keeps the selection: as long as it holds a brush of
/// the selected name, such a brush is selected.
pub proof fn law_reloading_keeps_the_selection(
    e: EditorView,
    brushes: Seq<BrushView>,
    name: Seq<char>,
    at: int,
)
    requires
        e.selected_name == Some(name),
        0 <= at < brushes.len(),
        brushes[at].name == name,
    ensures
        e.reloaded(brushes).selected_name == Some(name),
        exists|i: int|
            0 <= i < brushes.len() && (#[trigger] brushes[i]).name == name && e.reloaded(
                brushes,
            ).selected == Some(brushes[i].id),
{
    lemma_named(brushes, name);
}

/// A brush that is renamed stays the selected one when the library is read again
/// with it under its new name.
pub proof fn law_a_renamed_brush_stays_selected(
    e: EditorView,
    name: Seq<char>,
    brushes: Seq<BrushView>,
    at: int,
)
    requires
        !e.loading,
        e.selected is Some,
        0 <= at < brushes.len(),
        brushes[at].name == name,
    ensures
        e.edit(Edit::Name(name)).reloaded(brushes).selected_name == Some(name),
{
    law_reloading_keeps_the_selection(e.edit(Edit::Name(name)), brushes, name, at);
}

/// A new brush is selected as soon as the library is read with it at the end, if its
/// name was free.
pub proof fn law_a_new_brush_is_selected(e: EditorView, new: BrushView)
    requires
        forall|i: int| 0 <= i < e.brushes.len() ==> (#[trigger] e.brushes[i]).name != new.name,
    ensures
        e.creating(new.name).reloaded(e.brushes.push(new)).selected == Some(new.id),
        e.creating(new.name).reloaded(e.brushes.push(new)).selected_name == Some(new.name),
{
    let all = e.brushes.push(new);
    lemma_named(all, new.name);
    assert(all[e.brushes.len() as int] == new);
    assert forall|i: int| 0 <= i < e.brushes.len() implies (#[trigger] all[i]).name
        != new.name by {
        assert(all[i] == e.brushes[i]);
    }
}

/// The brush that an activated row stands for is the one that edits go to, once it is
/// selected.
pub proof fn law_an_activated_brush_is_edited(e: EditorView, id: u64)
    ensures
        e.activated(id).place() == place_of(e.brushes, id),
        e.activated(id).place() matches Some(i) ==> e.activated(id).selected_name == Some(
            e.brushes[i].name,
        ) && e.brushes[i].id == id,
{
    lemma_place(e.brushes, id);
}

/// A selection is a brush's identity together with its name, or neither; nothing else of
/// the editor changes with it.
pub proof fn law_a_selection_is_a_brush_and_its_name(e: EditorView, i: int)
    ensures
        e.at(Some(i)).selected == Some(e.brushes[i].id),
        e.at(Some(i)).selected_name == Some(e.brushes[i].name),
        e.at(None).selected is None && e.at(None).selected_name is None,
        e.at(Some(i)).brushes == e.brushes && e.at(Some(i)).dirty == e.dirty && e.at(
            Some(i),
        ).loading == e.loading && e.at(Some(i)).baseline == e.baseline,
{
}

/// A window opens on the active brush where there is one, else on the first, with
/// nothing unsaved and nothing loading.
pub proof fn law_a_window_opens_on_the_active_brush(
    brushes: Vec<Brush>,
    active: u64,
    r: (Editor, Option<usize>),
)
    requires
        call_ensures(Editor::open, (brushes, active), r),
    ensures
        r.0@.brushes == views(brushes@),
        !r.0.dirty && !r.0.loading && r.0@.baseline is None,
        r.1 is None <==> brushes@.len() == 0,
        r.1 is None ==> r.0.selected is None,
        r.1 matches Some(i) ==> r.0.selected == Some(views(brushes@)[i as int].id)
            && r.0@.selected_name == Some(views(brushes@)[i as int].name),
        place_of(views(brushes@), active) is Some ==> r.0.selected == Some(active),
        place_of(views(brushes@), active) is None && brushes@.len() > 0 ==> r.1 == Some(0usize),
{
    lemma_place(views(brushes@), active);
}

/// There is something unsaved exactly where the selected brush is in the library and was
/// edited; the brush may be left exactly where there is not.
pub proof fn law_when_a_brush_may_be_left(e: Editor, may: bool)
    requires
        call_ensures(Editor::may_leave, (&e,), may),
    ensures
        !e.dirty ==> may,
        e.selected is None ==> may,
        e.dirty && e.selected is Some && place_of(views(e.brushes@), e.selected->0) is Some
            ==> !may,
        e.dirty && e.selected is Some && place_of(views(e.brushes@), e.selected->0) is None ==> may,
{
}

/// The answer is followed: saving comes first and changes nothing yet, staying stays, and
/// discarding discards and then leaves unless something is still unsaved.
pub proof fn law_the_answer_is_followed(e: &mut Editor, answer: LeaveAnswer, s: LeaveStep)
    requires
        call_ensures(Editor::leave_answered, (e, answer), s),
    ensures
        s is SaveFirst <==> answer is Save,
        answer is Stay ==> s is Stay,
        !(answer is Discard) ==> final(e)@ == old(e)@,
        answer is Discard ==> final(e)@ == old(e)@.discarded(),
        answer is Discard && old(e).baseline is Some && old(e).selected is Some ==> s is Leave,
        s is Leave ==> answer is Discard && !final(e)@.unsaved(),
{
}

/// An activated row selects its brush unless another has unsaved edits: then it is
/// asked, or nothing happens on the row of that very brush.
pub proof fn law_what_activating_a_row_does(e: &mut Editor, id: u64, s: Switch)
    requires
        call_ensures(Editor::activate, (e, id), s),
    ensures
        s is To <==> !old(e)@.unsaved(),
        s is Stay <==> old(e)@.unsaved() && old(e).selected == Some(id),
        !(s is To) ==> final(e)@ == old(e)@,
        s matches Switch::To(at) ==> {
            &&& final(e).selected == Some(id)
            &&& at is Some <==> place_of(old(e)@.brushes, id) is Some
            &&& at is Some ==> old(e)@.brushes[at->0 as int].id == id && final(e)@.selected_name
                == Some(old(e)@.brushes[at->0 as int].name)
            &&& at is None ==> final(e)@.selected_name is None
            &&& final(e)@.brushes == old(e)@.brushes && final(e).dirty == old(e).dirty
        },
{
    lemma_place(old(e)@.brushes, id);
}

/// A brush is made unless something is unsaved. It is round and soft, twelve pixels wide,
/// a tenth of that apart, opaque and hard, with no pattern, picture or smoothing, under
/// the name and the file it was given; the name is the one that is selected next.
pub proof fn law_what_a_new_brush_is(
    e: &mut Editor,
    name: String,
    path: String,
    round_tip: u64,
    dynamics: Dynamics,
    made: Option<Brush>,
)
    requires
        call_ensures(Editor::create, (e, name, path, round_tip, dynamics), made),
    ensures
        made is Some <==> !old(e)@.unsaved(),
        made is None ==> final(e)@ == old(e)@,
        made is Some ==> final(e)@.selected_name == Some(name@) && final(e)@.selected
            == old(e)@.selected && final(e)@.brushes == old(e)@.brushes,
        made matches Some(b) ==> {
            &&& b.name@ == name@ && b.path is Some && b.path->0@ == path@
            &&& b.look.family is SoftRound && b.look.tip == round_tip && b.look.dynamics == dynamics
            &&& b.look.default_size.bits == 0x4140_0000 && b.look.spacing_ratio.bits == 0x3dcc_cccd
            &&& b.look.default_opacity.bits == 0x3f80_0000 && b.look.hardness.bits == 0x3f80_0000
            &&& b.look.stabilizer.bits == 0 && b.look.speed_smoothing.bits == 0
            &&& b.look.texture_scale.bits == 0 && b.look.texture_strength.bits == 0
            &&& !b.look.buildup && b.look.icon is None && b.look.preview is None
        },
{
}

/// A library that is read again takes the place of the old one, and the selection is
/// found anew by name: its place is what is filled from.
pub proof fn law_what_reading_again_does(e: &mut Editor, brushes: Vec<Brush>, at: Option<usize>)
    requires
        call_ensures(Editor::reload, (e, brushes), at),
    ensures
        final(e)@.brushes == views(brushes@),
        at is None <==> brushes@.len() == 0,
        at matches Some(i) ==> i < brushes@.len() && final(e).selected == Some(
            views(brushes@)[i as int].id,
        ) && final(e)@.selected_name == Some(views(brushes@)[i as int].name),
        at is None ==> final(e).selected is None && final(e)@.selected_name is None,
        final(e).dirty == old(e).dirty && final(e).loading == old(e).loading,
{
    if let Some(name) = old(e)@.selected_name {
        lemma_named(views(brushes@), name);
    }
}

/// Selecting by a row, and a new brush that has joined, change nothing but the selection:
/// the brushes, their unsaved edits and what is gone back to stay. Reading again brings
/// other brushes and changes no more than that besides.
pub proof fn law_what_selecting_leaves_alone(
    a: &mut Editor,
    id: u64,
    s: Switch,
    b: &mut Editor,
    c: &mut Editor,
    brushes: Vec<Brush>,
    at: Option<usize>,
)
    requires
        call_ensures(Editor::activate, (a, id), s),
        call_ensures(Editor::created, (b, id), ()),
        call_ensures(Editor::reload, (c, brushes), at),
    ensures
        final(a)@.brushes == old(a)@.brushes && final(a)@.dirty == old(a)@.dirty
            && final(a)@.baseline == old(a)@.baseline && final(a)@.loading == old(a)@.loading,
        final(b)@.brushes == old(b)@.brushes && final(b)@.dirty == old(b)@.dirty
            && final(b)@.baseline == old(b)@.baseline && final(b)@.loading == old(b)@.loading
            && final(b)@.selected_name == old(b)@.selected_name,
        final(b)@.selected == Some(id),
        final(c)@.brushes == views(brushes@),
        final(c)@.dirty == old(c)@.dirty && final(c)@.baseline == old(c)@.baseline
            && final(c)@.loading == old(c)@.loading,
{
}

} // verus!

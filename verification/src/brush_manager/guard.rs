//! Unsaved edits are never left behind.

use vstd::prelude::*;

use crate::brush_manager::editor::{edited, Edit, EditorView};
use crate::brush_manager::library::{lemma_named, reselected};
use crate::brush_manager::preset::{lemma_place, lemma_place_kept, place_of, BrushView};
use crate::brush_manager::selection::opening_place;

verus! {

/// What happens to the editor.
pub ghost enum Move {
    /// The selected brush is edited.
    Edit(Edit),
    /// The selected brush was written to the disk as this.
    Save(BrushView),
    /// The edits are discarded.
    Discard,
    /// A row of the list is activated, and the controls are filled.
    Activate(u64),
    /// A brush of this name is being made.
    Create(Seq<char>),
    /// The library is read again, and the controls are filled.
    Reload(Seq<BrushView>),
}

/// The editor, and the brushes as they were last saved or read.
pub ghost struct Desk {
    pub editor: EditorView,
    pub kept: Seq<BrushView>,
}

/// Whether no two brushes share an identity.
pub open spec fn distinct(brushes: Seq<BrushView>) -> bool {
    forall|i: int, j: int|
        0 <= i < j < brushes.len() ==> (#[trigger] brushes[i]).id != (#[trigger] brushes[j]).id
}

impl Move {
    /// A brush is written under its own identity, and a library that is read has no
    /// two brushes with the same one.
    pub open spec fn fits(self, d: Desk) -> bool {
        match self {
            Move::Save(b) => d.editor.place() matches Some(i) ==> b.id == d.editor.brushes[i].id,
            Move::Reload(brushes) => distinct(brushes),
            _ => true,
        }
    }
}

impl Desk {
    /// The desk when the window has opened.
    pub open spec fn opened(brushes: Seq<BrushView>, active: u64) -> Desk {
        Desk {
            editor: EditorView::opened(brushes, active).filling(
                opening_place(brushes, active),
            ).filled(),
            kept: brushes,
        }
    }

    /// The desk after a move.
    pub open spec fn step(self, m: Move) -> Desk {
        let e = self.editor;
        match m {
            Move::Edit(edit) => Desk { editor: e.edit(edit), ..self },
            Move::Save(b) => match e.place() {
                Some(i) => Desk {
                    editor: (EditorView { brushes: e.brushes.update(i, b), ..e }).saved(),
                    kept: self.kept.update(i, b),
                },
                None => self,
            },
            Move::Discard => Desk { editor: e.discarded(), ..self },
            Move::Activate(id) => if e.unsaved() {
                self
            } else {
                Desk {
                    editor: e.switched(id).filling(place_of(e.brushes, id)).filled(),
                    ..self
                }
            },
            Move::Create(name) => if e.unsaved() {
                self
            } else {
                Desk { editor: e.creating(name), ..self }
            },
            Move::Reload(brushes) => Desk {
                editor: e.reloaded(brushes).filling(
                    reselected(brushes, e.selected_name),
                ).filled(),
                kept: brushes,
            },
        }
    }

    /// Every brush but the selected one is as it was last saved or read; the selected
    /// one is too, unless it has unsaved edits, and those can be discarded.
    pub open spec fn inv(self) -> bool {
        let e = self.editor;
        &&& self.kept.len() == e.brushes.len()
        &&& forall|i: int|
            0 <= i < e.brushes.len() ==> (#[trigger] e.brushes[i]).id == self.kept[i].id
        &&& forall|i: int|
            0 <= i < e.brushes.len() && e.place() != Some(i) ==> #[trigger] e.brushes[i]
                == self.kept[i]
        &&& e.place() matches Some(i) ==> e.baseline == Some(self.kept[i]) && (!e.dirty
            ==> e.brushes[i] == self.kept[i])
    }
}

proof fn lemma_place_of_own(brushes: Seq<BrushView>, i: int)
    requires
        distinct(brushes),
        0 <= i < brushes.len(),
    ensures
        place_of(brushes, brushes[i].id) == Some(i),
{
    lemma_place(brushes, brushes[i].id);
}

/// A window that opens has nothing unsaved.
pub proof fn law_opening_has_nothing_unsaved(brushes: Seq<BrushView>, active: u64)
    ensures
        Desk::opened(brushes, active).inv(),
        !Desk::opened(brushes, active).editor.unsaved(),
{
    lemma_place(brushes, active);
    if let Some(i) = opening_place(brushes, active) {
        lemma_place(brushes, brushes[i].id);
    }
}

/// Whatever is done, unsaved edits stay with the selected brush: no other brush ever
/// differs from what was last saved or read.
pub proof fn law_unsaved_edits_stay_selected(d: Desk, m: Move)
    requires
        d.inv(),
        m.fits(d),
    ensures
        d.step(m).inv(),
{
    let e = d.editor;
    let after = d.step(m);
    if e.selected is Some {
        lemma_place(e.brushes, e.selected->0);
    }
    match m {
        Move::Edit(edit) => {
            if e.edit(edit) != e {
                if let Some(i) = e.place() {
                    lemma_place_kept(e.brushes, e.selected->0, i, edited(e.brushes[i], edit));
                }
            }
        },
        Move::Save(b) => {
            if let Some(i) = e.place() {
                lemma_place_kept(e.brushes, e.selected->0, i, b);
            }
        },
        Move::Discard => {
            if let Some(i) = e.place() {
                lemma_place_kept(e.brushes, e.selected->0, i, d.kept[i]);
            }
        },
        Move::Activate(id) => {
            if !e.unsaved() {
                law_what_may_be_left_is_kept(d);
                lemma_place(e.brushes, id);
            }
        },
        Move::Create(name) => {},
        Move::Reload(brushes) => {
            if let Some(name) = e.selected_name {
                lemma_named(brushes, name);
            }
            if let Some(i) = reselected(brushes, e.selected_name) {
                lemma_place_of_own(brushes, i);
            }
        },
    }
}

/// Where the selected brush may be left, every brush is as it was last saved or read:
/// switching brushes and closing the window lose and leave behind nothing.
pub proof fn law_what_may_be_left_is_kept(d: Desk)
    requires
        d.inv(),
    ensures
        !d.editor.unsaved() ==> d.editor.brushes == d.kept,
{
    if !d.editor.unsaved() {
        assert(d.editor.brushes =~= d.kept);
    }
}

/// Unsaved edits are left only once they were saved or discarded: activating a row and
/// making a brush change nothing before.
pub proof fn law_unsaved_edits_hold_the_selection(d: Desk, id: u64, name: Seq<char>)
    requires
        d.editor.unsaved(),
    ensures
        d.editor.switched(id) == d.editor,
        d.step(Move::Activate(id)) == d,
        d.step(Move::Create(name)) == d,
        d.inv() ==> !d.step(Move::Discard).editor.unsaved(),
        forall|b: BrushView| !(#[trigger] d.step(Move::Save(b))).editor.unsaved(),
{
}

} // verus!

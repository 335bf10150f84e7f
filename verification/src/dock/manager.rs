//! The window's layouts: which one is shown, when they are saved, and what the
//! layout bar offers.

use vstd::prelude::*;

use crate::text::same;

verus! {

/// The layouts by name, the one that is shown, and what is pending.
pub struct LayoutManager {
    pub names: Vec<String>,
    pub current: String,
    pub edit_mode: bool,
    /// A save has been put off and its timer runs.
    pub save_queued: bool,
}

/// What a change of the layouts asks for.
#[derive(Clone, Copy, Debug, PartialEq, Eq, Structural)]
pub struct LayoutChange {
    /// Build the window anew.
    pub rebuild: bool,
    /// Place the floating windows anew.
    pub reanchor: bool,
    /// Write the layouts to disk.
    pub save: bool,
    /// Tell the observers.
    pub notify: bool,
}

impl LayoutChange {
    /// Nothing.
    pub open spec fn nothing() -> LayoutChange {
        LayoutChange { rebuild: false, reanchor: false, save: false, notify: false }
    }

    /// Another layout is shown.
    pub open spec fn shown() -> LayoutChange {
        LayoutChange { rebuild: true, reanchor: true, save: true, notify: true }
    }
}

/// Whether a name is among the layouts.
pub open spec fn has_name(names: Seq<String>, name: Seq<char>) -> bool {
    exists|i: int| 0 <= i < names.len() && (#[trigger] names[i])@ == name
}

/// Whether a name is among the layouts.
fn contains_name(names: &Vec<String>, name: &str) -> (r: bool)
    ensures
        r == has_name(names@, name@),
{
    let mut i: usize = 0;
    while i < names.len()
        invariant
            i <= names.len(),
            forall|j: int| 0 <= j < i ==> (#[trigger] names@[j])@ != name@,
        decreases names.len() - i,
    {
        if same(names[i].as_str(), name) {
            assert(names@[i as int]@ == name@);
            return true;
        }
        i = i + 1;
    }
    false
}

/// What a layout that is shown anew asks for.
pub fn apply() -> (c: LayoutChange)
    ensures
        c == LayoutChange::shown(),
{
    LayoutChange { rebuild: true, reanchor: true, save: true, notify: true }
}

/// What comes of an attempt to remove a layout, to reset the shown one, or to
/// change it: everything where it was changed.
pub fn changed(done: bool) -> (c: LayoutChange)
    ensures
        c == (if done {
            LayoutChange::shown()
        } else {
            LayoutChange::nothing()
        }),
{
    if done {
        apply()
    } else {
        LayoutChange { rebuild: false, reanchor: false, save: false, notify: false }
    }
}

/// What comes of an attempt to rename or duplicate a layout: the window stays as
/// it is.
pub fn renamed(done: bool) -> (c: LayoutChange)
    ensures
        c == (LayoutChange { save: done, notify: done, ..LayoutChange::nothing() }),
{
    LayoutChange { rebuild: false, reanchor: false, save: done, notify: done }
}

/// What moving or sizing a floating window asks for: only the windows are placed
/// anew.
pub fn float_changed() -> (c: LayoutChange)
    ensures
        c == (LayoutChange { reanchor: true, save: true, ..LayoutChange::nothing() }),
{
    LayoutChange { rebuild: false, reanchor: true, save: true, notify: false }
}

impl LayoutManager {
    /// Show another layout. Nothing happens where it is shown already or is not
    /// among the layouts.
    pub fn select(&mut self, name: &str) -> (c: LayoutChange)
        ensures
            final(self).names@ == old(self).names@,
            final(self).edit_mode == old(self).edit_mode,
            final(self).save_queued == old(self).save_queued,
            if old(self).current@ == name@ || !has_name(old(self).names@, name@) {
                c == LayoutChange::nothing() && final(self).current@ == old(self).current@
            } else {
                c == LayoutChange::shown() && final(self).current@ == name@
            },
            has_name(old(self).names@, old(self).current@) ==> has_name(
                final(self).names@,
                final(self).current@,
            ),
    {
        if same(self.current.as_str(), name) || !contains_name(&self.names, name) {
            return changed(false);
        }
        self.current = name.to_owned();
        apply()
    }

    /// Whether the shown layout may be deleted: one must be left.
    pub fn can_delete(&self) -> (r: bool)
        ensures
            r == (self.names@.len() > 1),
    {
        self.names.len() > 1
    }

    /// Turn editing on or off. True tells the observers: only where it changes.
    pub fn set_edit_mode(&mut self, on: bool) -> (notify: bool)
        ensures
            notify == (old(self).edit_mode != on),
            final(self).edit_mode == on,
            final(self).names@ == old(self).names@,
            final(self).current@ == old(self).current@,
            final(self).save_queued == old(self).save_queued,
    {
        let notify = self.edit_mode != on;
        self.edit_mode = on;
        notify
    }

    /// Whether a save is put off after a split took another size.
    pub open spec fn queued_after(queued: bool, changed: bool) -> bool {
        queued || changed
    }

    /// A split has another size. True starts the timer of a put-off save: many
    /// changes while it runs are saved once. The window is not built anew, for
    /// that would take the dragged seam away.
    pub fn store_split_size(&mut self, changed: bool) -> (start_timer: bool)
        ensures
            start_timer == (changed && !old(self).save_queued),
            final(self).save_queued == LayoutManager::queued_after(
                old(self).save_queued,
                changed,
            ),
            final(self).names@ == old(self).names@,
            final(self).current@ == old(self).current@,
            final(self).edit_mode == old(self).edit_mode,
    {
        if !changed || self.save_queued {
            return false;
        }
        self.save_queued = true;
        true
    }

    /// Save at once what was put off. True asks for the save.
    pub fn flush(&mut self) -> (save: bool)
        ensures
            save == old(self).save_queued,
            !final(self).save_queued,
            final(self).names@ == old(self).names@,
            final(self).current@ == old(self).current@,
            final(self).edit_mode == old(self).edit_mode,
    {
        let save = self.save_queued;
        self.save_queued = false;
        save
    }

    /// The timer of a put-off save fires. It always saves, also where the save was
    /// made meanwhile, and a later change is put off anew.
    pub fn save_due(&mut self) -> (save: bool)
        ensures
            save,
            !final(self).save_queued,
            final(self).names@ == old(self).names@,
            final(self).current@ == old(self).current@,
            final(self).edit_mode == old(self).edit_mode,
    {
        self.save_queued = false;
        true
    }
}

/// What happens to a put-off save.
pub ghost enum SaveStep {
    /// A split was resized, to another size or not.
    Resize(bool),
    /// What was put off is saved at once.
    Flush,
    /// The timer of a put-off save fires.
    Due,
}

/// The put-off saves: whether one is queued, the timers that run, and whether there
/// is a size that no save has seen.
pub ghost struct SaveDesk {
    pub queued: bool,
    pub timers: nat,
    pub unsaved: bool,
}

impl SaveDesk {
    /// The desk after a step.
    pub open spec fn step(self, step: SaveStep) -> SaveDesk {
        match step {
            SaveStep::Resize(changed) => SaveDesk {
                queued: LayoutManager::queued_after(self.queued, changed),
                timers: if changed && !self.queued {
                    self.timers + 1
                } else {
                    self.timers
                },
                unsaved: self.unsaved || changed,
            },
            SaveStep::Flush => SaveDesk {
                queued: false,
                unsaved: self.unsaved && !self.queued,
                ..self
            },
            SaveStep::Due => if self.timers > 0 {
                SaveDesk { queued: false, timers: (self.timers - 1) as nat, unsaved: false }
            } else {
                self
            },
        }
    }

    /// A size that no save has seen is queued, and a queued save has a timer.
    pub open spec fn inv(self) -> bool {
        (self.unsaved ==> self.queued) && (self.queued ==> self.timers > 0)
    }
}

/// A dragged size waits for a save that comes: whatever happens, a size that no save
/// has seen is queued with a timer running, and both a flush and the timer save it.
pub proof fn law_a_put_off_save_comes(d: SaveDesk, step: SaveStep)
    requires
        d.inv(),
    ensures
        d.step(step).inv(),
        !d.step(SaveStep::Flush).unsaved,
        !d.step(SaveStep::Due).unsaved,
{
}

/// Whether a save is put off after a run of resizes since the last save.
pub open spec fn queued_by(changes: Seq<bool>) -> bool
    decreases changes.len(),
{
    changes.len() > 0 && LayoutManager::queued_after(
        queued_by(changes.drop_last()),
        changes.last(),
    )
}

/// No dragged size is lost: a save is put off exactly where some resize since the
/// last save changed a size.
pub proof fn law_changed_sizes_await_a_save(changes: Seq<bool>)
    ensures
        queued_by(changes) <==> changes.contains(true),
    decreases changes.len(),
{
    if changes.len() > 0 {
        law_changed_sizes_await_a_save(changes.drop_last());
        if changes.last() {
            assert(changes[changes.len() - 1]);
        }
        if changes.drop_last().contains(true) {
            let i = changes.drop_last().index_of(true);
            assert(changes[i]);
        }
        if changes.contains(true) && !changes.last() {
            let i = changes.index_of(true);
            assert(changes.drop_last()[i]);
        }
    }
}

/// What a toggled entry of the panel list asks for: a change only where the panel
/// is not as the entry says, so that showing the list changes nothing.
pub fn panel_toggled(visible: bool, checked: bool) -> (set: Option<bool>)
    ensures
        set == (if visible != checked {
            Some(checked)
        } else {
            None
        }),
{
    if visible != checked {
        Some(checked)
    } else {
        None
    }
}

/// What the layout bar shows.
#[derive(Clone, Copy, Debug, PartialEq, Eq, Structural)]
pub struct LayoutBar {
    pub duplicate: bool,
    pub panels: bool,
    pub reset: bool,
    pub delete: bool,
    /// The name is being entered.
    pub naming: bool,
}

impl LayoutBar {
    /// Editing was turned on or off: its buttons show only while it is on, that
    /// for deleting only where a layout is left, and entering a name ends with
    /// it.
    pub fn set_editing(&mut self, on: bool, can_delete: bool)
        ensures
            *final(self) == (LayoutBar {
                duplicate: on,
                panels: on,
                reset: on,
                delete: on && can_delete,
                naming: on && old(self).naming,
            }),
    {
        self.duplicate = on;
        self.panels = on;
        self.reset = on;
        self.delete = on && can_delete;
        if !on {
            self.naming = false;
        }
    }

    /// A name is to be entered, or that is over.
    pub fn set_naming(&mut self, naming: bool)
        ensures
            *final(self) == (LayoutBar { naming, ..*old(self) }),
    {
        self.naming = naming;
    }
}

/// The layout picked in the list; none while the list itself is being filled.
pub fn picked(syncing: bool, index: u32, names: &Vec<String>) -> (r: Option<usize>)
    ensures
        r == (if !syncing && index < names@.len() {
            Some(index as usize)
        } else {
            None
        }),
{
    if !syncing && (index as usize) < names.len() {
        Some(index as usize)
    } else {
        None
    }
}

/// Where a panel docks, in words.
pub fn sides_text(horizontal: bool, vertical: bool) -> (t: &'static str)
    ensures
        t@ == (match (horizontal, vertical) {
            (true, true) => "Docks against any edge."@,
            (true, false) => "Docks along the top or bottom only."@,
            (false, true) => "Docks down the left or right only."@,
            (false, false) => "Fixed in place."@,
        }),
{
    match (horizontal, vertical) {
        (true, true) => "Docks against any edge.",
        (true, false) => "Docks along the top or bottom only.",
        (false, true) => "Docks down the left or right only.",
        (false, false) => "Fixed in place.",
    }
}

/// The icon and the tooltip of the edit button.
pub fn edit_button(editing: bool) -> (r: (&'static str, &'static str))
    ensures
        r.0@ == (if editing {
            "object-select-symbolic"@
        } else {
            "document-edit-symbolic"@
        }),
        r.1@ == (if editing {
            "Done - finish editing this layout"@
        } else {
            "Edit this layout - move, resize or switch off panels"@
        }),
{
    if editing {
        ("object-select-symbolic", "Done - finish editing this layout")
    } else {
        ("document-edit-symbolic", "Edit this layout - move, resize or switch off panels")
    }
}

/// What each kind of change asks for. One of the tree asks for everything, or for
/// nothing where it was not made; a name is saved and told, and the window stays; a
/// floating window is placed and saved, and the window stays.
pub proof fn law_what_changes_ask_for(
    done: bool,
    tree: LayoutChange,
    name: LayoutChange,
    float: LayoutChange,
)
    requires
        call_ensures(changed, (done,), tree),
        call_ensures(renamed, (done,), name),
        call_ensures(float_changed, (), float),
    ensures
        tree.rebuild == done && tree.reanchor == done && tree.save == done && tree.notify == done,
        !name.rebuild && !name.reanchor && name.save == done && name.notify == done,
        !float.rebuild && float.reanchor && float.save && !float.notify,
{
}

/// A layout is shown exactly where it is one of the layouts and not shown already;
/// showing it again asks for nothing.
pub proof fn law_a_known_layout_is_shown_once(
    m: &mut LayoutManager,
    name: &str,
    c: LayoutChange,
    n: &mut LayoutManager,
    again: LayoutChange,
)
    requires
        call_ensures(LayoutManager::select, (m, name), c),
        old(n).current@ == final(m).current@,
        old(n).names@ == final(m).names@,
        call_ensures(LayoutManager::select, (n, name), again),
    ensures
        ({
            let known = exists|i: int|
                0 <= i < old(m).names@.len() && (#[trigger] old(m).names@[i])@ == name@;
            let shown = old(m).current@ == name@;
            &&& c.rebuild <==> known && !shown
            &&& c.reanchor == c.rebuild && c.save == c.rebuild && c.notify == c.rebuild
            &&& known || shown ==> final(m).current@ == name@
            &&& !known ==> final(m).current@ == old(m).current@
        }),
        !again.rebuild && !again.reanchor && !again.save && !again.notify,
        final(m).names@ == old(m).names@,
{
}

/// A layout may be deleted while another is left; editing is told only where it
/// changes.
pub proof fn law_one_layout_is_left(
    m: LayoutManager,
    can: bool,
    n: &mut LayoutManager,
    on: bool,
    notify: bool,
)
    requires
        call_ensures(LayoutManager::can_delete, (&m,), can),
        call_ensures(LayoutManager::set_edit_mode, (n, on), notify),
    ensures
        can <==> m.names@.len() >= 2,
        final(n).edit_mode == on,
        notify <==> final(n).edit_mode != old(n).edit_mode,
{
}

/// Of many changes one save is put off, and its timer is started once; a flush saves it
/// exactly where it is still due, and a second one saves nothing.
pub proof fn law_many_changes_are_saved_once(
    a: &mut LayoutManager,
    first: bool,
    start: bool,
    b: &mut LayoutManager,
    second: bool,
    again: bool,
    c: &mut LayoutManager,
    save: bool,
    d: &mut LayoutManager,
    more: bool,
)
    requires
        !old(a).save_queued,
        call_ensures(LayoutManager::store_split_size, (a, first), start),
        old(b).save_queued == final(a).save_queued,
        call_ensures(LayoutManager::store_split_size, (b, second), again),
        old(c).save_queued == final(b).save_queued,
        call_ensures(LayoutManager::flush, (c,), save),
        old(d).save_queued == final(c).save_queued,
        call_ensures(LayoutManager::flush, (d,), more),
    ensures
        start <==> first,
        again <==> second && !first,
        save <==> first || second,
        !more,
{
}

/// An entry of the panel list asks for what it says, and only where that is not so.
pub proof fn law_a_toggled_entry_asks_for_what_it_says(
    visible: bool,
    checked: bool,
    set: Option<bool>,
    syncing: bool,
    index: u32,
    names: Vec<String>,
    r: Option<usize>,
)
    requires
        call_ensures(panel_toggled, (visible, checked), set),
        call_ensures(picked, (syncing, index, &names), r),
    ensures
        visible == checked ==> set is None,
        visible && !checked ==> set == Some(false),
        !visible && checked ==> set == Some(true),
        syncing ==> r is None,
        r is Some ==> r->0 == index && r->0 < names@.len(),
        !syncing && index < names@.len() ==> r is Some,
{
}

/// The bar shows its buttons only during editing, that for deleting only where a layout
/// would be left, and stops entering a name with it.
pub proof fn law_the_bar_shows_its_buttons_while_editing(
    b: &mut LayoutBar,
    on: bool,
    can_delete: bool,
    c: &mut LayoutBar,
    naming: bool,
)
    requires
        call_ensures(LayoutBar::set_editing, (b, on, can_delete), ()),
        call_ensures(LayoutBar::set_naming, (c, naming), ()),
    ensures
        final(b).duplicate == on && final(b).panels == on && final(b).reset == on,
        final(b).delete <==> on && can_delete,
        !on ==> !final(b).naming,
        on ==> final(b).naming == old(b).naming,
        final(c).naming == naming,
        final(c).duplicate == old(c).duplicate && final(c).panels == old(c).panels
            && final(c).reset == old(c).reset && final(c).delete == old(c).delete,
{
}

/// Where a panel docks is told by the two ways that it may lie, each way by itself.
pub proof fn law_words_for_where_a_panel_docks(horizontal: bool, vertical: bool, t: &'static str)
    requires
        call_ensures(sides_text, (horizontal, vertical), t),
    ensures
        horizontal && vertical ==> t@ == "Docks against any edge."@,
        horizontal && !vertical ==> t@ == "Docks along the top or bottom only."@,
        !horizontal && vertical ==> t@ == "Docks down the left or right only."@,
        !horizontal && !vertical ==> t@ == "Fixed in place."@,
{
}

/// The edit button offers the other of the two: to finish while editing, to edit else.
pub proof fn law_the_edit_button_offers_the_other(
    editing: bool,
    r: (&'static str, &'static str),
)
    requires
        call_ensures(edit_button, (editing,), r),
    ensures
        editing ==> r.0@ == "object-select-symbolic"@ && r.1@
            == "Done - finish editing this layout"@,
        !editing ==> r.0@ == "document-edit-symbolic"@ && r.1@
            == "Edit this layout - move, resize or switch off panels"@,
{
}

} // verus!

//! Keys and actions of the main window.

use vstd::prelude::*;

use crate::text::push_text;

verus! {

/// A key, as far as the window tells them apart.
#[derive(Clone, Copy, Debug, PartialEq, Eq, Structural)]
pub enum Key {
    Escape,
    /// Either Enter key.
    Enter,
    /// Either Delete key.
    Delete,
    Other,
}

/// A tool whose work is applied or cancelled as a whole.
#[derive(Clone, Copy, Debug, PartialEq, Eq, Structural)]
pub enum ModalTool {
    Transform,
    Liquify,
    Pattern,
}

/// The active tool, as far as keys tell them apart.
#[derive(Clone, Copy, Debug, PartialEq, Eq, Structural)]
pub enum KeyTool {
    Modal(ModalTool),
    Crop,
    Selection,
    Other,
}

/// What a key press does.
#[derive(Clone, Copy, Debug, PartialEq, Eq, Structural)]
pub enum KeyAction {
    /// The key goes on to the focused widget.
    Proceed,
    /// The text being edited on the canvas gets the key.
    EditText,
    /// Leave the component being edited; where none is, look further.
    LeaveComponent,
    /// Delete what is selected; where nothing is, the layer.
    DeleteSelection,
    Apply(ModalTool),
    Cancel(ModalTool),
    /// Drop the crop and go back to the cursor.
    CancelCrop,
    /// Drop the selection.
    Deselect,
}

/// What a key press does that leaves no component.
pub open spec fn tool_key(key: Key, tool: KeyTool) -> KeyAction {
    match (key, tool) {
        (Key::Delete, _) => KeyAction::DeleteSelection,
        (Key::Enter, KeyTool::Modal(m)) => KeyAction::Apply(m),
        (Key::Escape, KeyTool::Modal(m)) => KeyAction::Cancel(m),
        (Key::Escape, KeyTool::Crop) => KeyAction::CancelCrop,
        (Key::Escape, KeyTool::Selection) => KeyAction::Deselect,
        _ => KeyAction::Proceed,
    }
}

/// What a key press does. Every key goes on while a text field has the focus.
pub open spec fn key_spec(
    key: Key,
    document: bool,
    typing: bool,
    text_editing: bool,
    tool: KeyTool,
) -> KeyAction {
    if !document || typing {
        KeyAction::Proceed
    } else if text_editing {
        KeyAction::EditText
    } else if key == Key::Escape {
        KeyAction::LeaveComponent
    } else {
        tool_key(key, tool)
    }
}

/// What a key press does: nothing without a document, nor while a text field has
/// the focus, for the keys are seen before the focused widget sees them.
pub fn key_pressed(
    key: Key,
    document: bool,
    typing: bool,
    text_editing: bool,
    tool: KeyTool,
) -> (a: KeyAction)
    ensures
        a == key_spec(key, document, typing, text_editing, tool),
{
    if !document || typing {
        return KeyAction::Proceed;
    }
    if text_editing {
        return KeyAction::EditText;
    }
    if key == Key::Escape {
        return KeyAction::LeaveComponent;
    }
    key_for_tool(key, tool)
}

/// What a key press does once no component was left by it.
pub fn key_for_tool(key: Key, tool: KeyTool) -> (a: KeyAction)
    ensures
        a == tool_key(key, tool),
{
    match (key, tool) {
        (Key::Delete, _) => KeyAction::DeleteSelection,
        (Key::Enter, KeyTool::Modal(m)) => KeyAction::Apply(m),
        (Key::Escape, KeyTool::Modal(m)) => KeyAction::Cancel(m),
        (Key::Escape, KeyTool::Crop) => KeyAction::CancelCrop,
        (Key::Escape, KeyTool::Selection) => KeyAction::Deselect,
        _ => KeyAction::Proceed,
    }
}

/// A text field with the focus gets every key.
pub proof fn law_text_field_gets_every_key(key: Key, document: bool, editing: bool, tool: KeyTool)
    ensures
        key_spec(key, document, true, editing, tool) == KeyAction::Proceed,
{
}

/// One of the two colors to paint with.
#[derive(Clone, Copy, Debug, PartialEq, Eq, Structural)]
pub enum ColorSlot {
    Primary,
    Secondary,
}

impl ColorSlot {
    /// The other slot.
    pub open spec fn other(self) -> ColorSlot {
        match self {
            ColorSlot::Primary => ColorSlot::Secondary,
            ColorSlot::Secondary => ColorSlot::Primary,
        }
    }

    /// The other slot.
    pub fn swapped(self) -> (s: ColorSlot)
        ensures
            s == self.other(),
    {
        match self {
            ColorSlot::Primary => ColorSlot::Secondary,
            ColorSlot::Secondary => ColorSlot::Primary,
        }
    }
}

/// Swapping the colors twice comes back.
pub proof fn law_swapping_twice_comes_back(s: ColorSlot)
    ensures
        s.other().other() == s,
        s.other() != s,
{
}

/// An action on the view of the document in front.
#[derive(Clone, Copy, Debug, PartialEq, Eq, Structural)]
pub enum ViewportAction {
    ZoomIn,
    ZoomOut,
    ZoomFit,
    PerfGraph,
}

impl ViewportAction {
    /// The action's name.
    pub fn id(self) -> (id: &'static str)
        ensures
            id@ == (match self {
                ViewportAction::ZoomIn => "zoom-in"@,
                ViewportAction::ZoomOut => "zoom-out"@,
                ViewportAction::ZoomFit => "zoom-fit"@,
                ViewportAction::PerfGraph => "perf-graph"@,
            }),
    {
        match self {
            ViewportAction::ZoomIn => "zoom-in",
            ViewportAction::ZoomOut => "zoom-out",
            ViewportAction::ZoomFit => "zoom-fit",
            ViewportAction::PerfGraph => "perf-graph",
        }
    }
}

/// The full name of an application action, for binding a key to it.
pub fn accel_target(id: &str) -> (t: String)
    ensures
        t@ == "app."@ + id@,
{
    let mut t = "app.".to_owned();
    push_text(&mut t, id);
    t
}

/// A key binding for an action: none where the binding only qualifies a drag, an
/// empty one where the action is unbound.
pub enum AccelBinding {
    /// There is no action to bind.
    Skip,
    /// Bind these keys, or none.
    Bind(Option<String>),
}

/// The key binding for an action.
pub fn accel_binding(modifier_only: bool, accel: Option<String>) -> (b: AccelBinding)
    ensures
        b == (if modifier_only {
            AccelBinding::Skip
        } else {
            AccelBinding::Bind(accel)
        }),
{
    if modifier_only {
        AccelBinding::Skip
    } else {
        AccelBinding::Bind(accel)
    }
}

/// What each key does. Delete deletes with any tool; Enter applies and Escape cancels
/// the work of the very tool in hand; Escape drops a crop and a selection with theirs;
/// anything else goes on.
pub proof fn law_what_keys_do_to_a_tool(key: Key, tool: KeyTool, a: KeyAction)
    requires
        call_ensures(key_for_tool, (key, tool), a),
    ensures
        a is DeleteSelection <==> key is Delete,
        a is Apply <==> key is Enter && tool is Modal,
        a matches KeyAction::Apply(m) ==> tool == KeyTool::Modal(m),
        a is Cancel <==> key is Escape && tool is Modal,
        a matches KeyAction::Cancel(m) ==> tool == KeyTool::Modal(m),
        a is CancelCrop <==> key is Escape && tool is Crop,
        a is Deselect <==> key is Escape && tool is Selection,
        key is Other ==> a is Proceed,
        key is Enter && !(tool is Modal) ==> a is Proceed,
        key is Escape && tool is Other ==> a is Proceed,
        !(a is EditText) && !(a is LeaveComponent),
{
}

/// A key goes on without a document and while a text field has the focus. Text that is
/// edited on the canvas gets every other key; Escape then leaves a component before
/// anything else, and any other key goes to the tool.
pub proof fn law_who_gets_a_key(
    key: Key,
    document: bool,
    typing: bool,
    text_editing: bool,
    tool: KeyTool,
    a: KeyAction,
    for_tool: KeyAction,
)
    requires
        call_ensures(key_pressed, (key, document, typing, text_editing, tool), a),
        call_ensures(key_for_tool, (key, tool), for_tool),
    ensures
        !document || typing ==> a is Proceed,
        a is EditText <==> document && !typing && text_editing,
        a is LeaveComponent <==> document && !typing && !text_editing && key is Escape,
        document && !typing && !text_editing && !(key is Escape) ==> a == for_tool,
{
}

/// The other of the two colors is the other.
pub proof fn law_the_other_color(s: ColorSlot, t: ColorSlot)
    requires
        call_ensures(ColorSlot::swapped, (s,), t),
    ensures
        s is Primary <==> t is Secondary,
{
}

/// Actions are named, and a key is bound to the action of the program by that name. A
/// binding that only qualifies a drag binds nothing; any other binds what it says.
pub proof fn law_actions_and_their_keys(
    v: ViewportAction,
    id: &'static str,
    name: &str,
    target: String,
    modifier_only: bool,
    accel: Option<String>,
    b: AccelBinding,
)
    requires
        call_ensures(ViewportAction::id, (v,), id),
        call_ensures(accel_target, (name,), target),
        call_ensures(accel_binding, (modifier_only, accel), b),
    ensures
        v is ZoomIn ==> id@ == "zoom-in"@,
        v is ZoomOut ==> id@ == "zoom-out"@,
        v is ZoomFit ==> id@ == "zoom-fit"@,
        v is PerfGraph ==> id@ == "perf-graph"@,
        target@.take(4) == "app."@,
        target@.skip(4) == name@,
        b is Skip <==> modifier_only,
        b matches AccelBinding::Bind(keys) ==> keys == accel,
{
    reveal_strlit("app.");
    assert(target@.take(4) =~= "app."@);
    assert(target@.skip(4) =~= name@);
}

} // verus!

//! A panel or floating window that is carried under the pointer.
//!
//! What is carried is taken out of its place and put on a layer of its own. The
//! place is held open at the size that it has, and everything is restored when
//! the carrying ends.

use vstd::prelude::*;

use crate::ieee::Single;

verus! {

/// The least size that a widget asks for.
#[derive(Clone, Copy, Debug, PartialEq, Eq, Structural)]
pub struct Request {
    pub width: i32,
    pub height: i32,
}

/// What a widget stands in.
#[derive(Clone, Copy, Debug, PartialEq, Eq, Structural)]
pub enum Parent {
    /// A slot of the dock.
    Slot(u64),
    /// An overlay.
    Overlay(u64),
    /// The layer of what is carried.
    DragLayer,
    /// Something that a widget cannot be put back into.
    Other(u64),
}

/// Where a widget stands, and the size that it asks for.
#[derive(Clone, Copy, Debug, PartialEq, Eq, Structural)]
pub struct Placement {
    pub parent: Parent,
    pub request: Request,
}

/// A carried widget, with the place that it was taken from, what the slot there
/// asked for, and the size that the widget had.
#[derive(Clone, Copy, Debug, PartialEq, Eq, Structural)]
pub struct Carried {
    pub widget: u64,
    pub from: Placement,
    pub slot: Option<Request>,
    pub width: Single,
    pub height: Single,
}

/// What is carried, if anything.
#[derive(Clone, Copy, Debug, PartialEq, Eq, Structural)]
pub struct Carrier {
    pub carried: Option<Carried>,
}

/// What the start of a carry does.
#[derive(Clone, Copy, Debug, PartialEq, Eq, Structural)]
pub struct CarryBegin {
    /// Put this back first: it was still carried.
    pub put_back: Option<Carried>,
    /// Have the slot that the widget leaves ask for this, which is the size that
    /// it has.
    pub hold_open: Option<Request>,
    /// The widget has been taken out, and goes to the layer of what is carried.
    pub taken: bool,
}

impl Parent {
    /// A widget can be put back into a slot or an overlay.
    pub open spec fn takes_back(self) -> bool {
        self is Slot || self is Overlay
    }
}

impl Carrier {
    /// Nothing is carried.
    pub fn new() -> (c: Carrier)
        ensures
            c.carried is None,
    {
        Carrier { carried: None }
    }

    /// A widget is picked up. `from` is where it stands, and is none where it has
    /// no place or no size; `slot` and `slot_size` are what the slot that it stands
    /// in asks for and the size that it has, `width` and `height` the widget's own.
    pub fn begin(
        &mut self,
        widget: u64,
        from: Option<Placement>,
        slot: Request,
        slot_size: Request,
        width: Single,
        height: Single,
    ) -> (b: CarryBegin)
        ensures
            b.put_back == old(self).carried,
            b.taken == (from is Some && from->0.parent.takes_back()),
            final(self).carried == (if b.taken {
                Some(
                    Carried {
                        widget,
                        from: from->0,
                        slot: if from->0.parent is Slot {
                            Some(slot)
                        } else {
                            None
                        },
                        width,
                        height,
                    },
                )
            } else {
                None
            }),
            b.hold_open == (if b.taken && from->0.parent is Slot {
                Some(slot_size)
            } else {
                None
            }),
    {
        let put_back = self.carried;
        self.carried = None;
        match from {
            Some(place) => match place.parent {
                Parent::Slot(_) => {
                    self.carried = Some(
                        Carried { widget, from: place, slot: Some(slot), width, height },
                    );
                    CarryBegin { put_back, hold_open: Some(slot_size), taken: true }
                },
                Parent::Overlay(_) => {
                    self.carried = Some(Carried { widget, from: place, slot: None, width, height });
                    CarryBegin { put_back, hold_open: None, taken: true }
                },
                _ => CarryBegin { put_back, hold_open: None, taken: false },
            },
            None => CarryBegin { put_back, hold_open: None, taken: false },
        }
    }

    /// Whether what is carried can be drawn elsewhere: not without a size to scale
    /// from.
    pub fn follows(&self) -> (r: bool)
        ensures
            r == (match self.carried {
                Some(c) => !c.width.le_spec(Single { bits: 0 }) && !c.height.le_spec(
                    Single { bits: 0 },
                ),
                None => false,
            }),
    {
        match self.carried {
            Some(c) => {
                let zero = Single { bits: 0 };
                !c.width.at_most(zero) && !c.height.at_most(zero)
            },
            None => false,
        }
    }

    /// The carrying ends: what was carried goes back to its place.
    pub fn end(&mut self) -> (put_back: Option<Carried>)
        ensures
            put_back == old(self).carried,
            final(self).carried is None,
    {
        let put_back = self.carried;
        self.carried = None;
        put_back
    }
}

/// Where the widgets stand, and what the slots ask for.
pub ghost struct Room {
    pub widgets: Map<u64, Placement>,
    pub slots: Map<u64, Request>,
}

impl Room {
    /// A widget is taken out: it goes to the layer of what is carried and asks for
    /// the size that it has, and its slot is held open.
    pub open spec fn lift(self, widget: u64, shown: Request, hold_open: Option<Request>) -> Room {
        Room {
            widgets: self.widgets.insert(
                widget,
                Placement { parent: Parent::DragLayer, request: shown },
            ),
            slots: match (self.widgets[widget].parent, hold_open) {
                (Parent::Slot(id), Some(size)) => self.slots.insert(id, size),
                _ => self.slots,
            },
        }
    }

    /// A carried widget is put back.
    pub open spec fn restore(self, c: Carried) -> Room {
        Room {
            widgets: self.widgets.insert(c.widget, c.from),
            slots: match (c.from.parent, c.slot) {
                (Parent::Slot(id), Some(request)) => self.slots.insert(id, request),
                _ => self.slots,
            },
        }
    }
}

/// Carrying leaves no trace: once a widget that was picked up is put back, every
/// widget stands where it stood, and every widget and slot asks for what it asked
/// for.
pub proof fn law_carrying_leaves_no_trace(
    room: Room,
    widget: u64,
    shown: Request,
    slot_size: Request,
    width: Single,
    height: Single,
)
    requires
        room.widgets.dom().contains(widget),
        room.widgets[widget].parent.takes_back(),
        room.widgets[widget].parent matches Parent::Slot(id) ==> room.slots.dom().contains(id),
    ensures
        ({
            let from = room.widgets[widget];
            let (slot, hold_open) = match from.parent {
                Parent::Slot(id) => (Some(room.slots[id]), Some(slot_size)),
                _ => (None, None),
            };
            room.lift(widget, shown, hold_open).restore(
                Carried { widget, from, slot, width, height },
            ) == room
        }),
{
    let from = room.widgets[widget];
    let (slot, hold_open) = match from.parent {
        Parent::Slot(id) => (Some(room.slots[id]), Some(slot_size)),
        _ => (None, None),
    };
    let back = room.lift(widget, shown, hold_open).restore(
        Carried { widget, from, slot, width, height },
    );
    assert(back.widgets =~= room.widgets);
    assert(back.slots =~= room.slots);
}

/// A widget is picked up exactly where it can be put back: out of a slot or an overlay.
/// What was carried before goes back first. What is put back at the end is the widget
/// that was picked up, to the place it stood in and with the size it asked for; a slot
/// is held open at its size meanwhile, and then asks for what it asked for.
pub proof fn law_what_is_picked_up_goes_back(
    c: &mut Carrier,
    widget: u64,
    from: Option<Placement>,
    slot: Request,
    slot_size: Request,
    width: Single,
    height: Single,
    b: CarryBegin,
    d: &mut Carrier,
    back: Option<Carried>,
)
    requires
        call_ensures(Carrier::begin, (c, widget, from, slot, slot_size, width, height), b),
        *old(d) == *final(c),
        call_ensures(Carrier::end, (d,), back),
    ensures
        b.put_back == old(c).carried,
        b.taken <==> from is Some && (from->0.parent is Slot || from->0.parent is Overlay),
        back is Some <==> b.taken,
        back is Some ==> back->0.widget == widget && back->0.from == from->0 && back->0.width
            == width && back->0.height == height,
        back is Some && from->0.parent is Slot ==> back->0.slot == Some(slot) && b.hold_open
            == Some(slot_size),
        b.taken && from->0.parent is Overlay ==> back->0.slot is None && b.hold_open is None,
        !b.taken ==> b.hold_open is None,
        final(d).carried is None,
{
}

/// What is carried is drawn elsewhere exactly where it has a width and a height.
pub proof fn law_what_has_a_size_follows(c: Carrier, follows: bool)
    requires
        call_ensures(Carrier::follows, (&c,), follows),
    ensures
        c.carried is None ==> !follows,
        c.carried is Some && c.carried->0.width.magnitude() == 0 ==> !follows,
        c.carried is Some && c.carried->0.height.magnitude() == 0 ==> !follows,
        c.carried is Some && (Single { bits: 0 }).lt_spec(c.carried->0.width) && (Single {
            bits: 0,
        }).lt_spec(c.carried->0.height) ==> follows,
{
}

/// While a widget is carried only it and its slot are changed.
pub proof fn law_lifting_touches_only_the_widget_and_its_slot(
    room: Room,
    widget: u64,
    shown: Request,
    hold_open: Option<Request>,
    other: u64,
    slot: u64,
)
    ensures
        ({
            let after = room.lift(widget, shown, hold_open);
            &&& after.widgets[widget] == (Placement { parent: Parent::DragLayer, request: shown })
            &&& other != widget ==> after.widgets[other] == room.widgets[other]
            &&& room.widgets[widget].parent != Parent::Slot(slot) ==> after.slots[slot]
                == room.slots[slot]
            &&& room.widgets[widget].parent == Parent::Slot(slot) && hold_open is Some
                ==> after.slots[slot] == hold_open->0
        }),
{
}

} // verus!

//! What the layout editor asks for, carried out.

use vstd::prelude::*;

use crate::dock::drop::FloatAnchor;
use crate::dock::edit::{EditRequest, FloatSize, ToolWindowId};
use crate::dock::manager::{apply, float_changed, LayoutChange};
use crate::layout::LayoutNode;

verus! {

/// A floating window's place and size.
#[derive(Clone, Copy, Debug, PartialEq, Eq, Structural)]
pub struct FloatPlace {
    pub window: ToolWindowId,
    pub anchor: FloatAnchor,
    pub size: FloatSize,
}

/// The tree after a request.
pub open spec fn asked_of_tree(root: LayoutNode, request: EditRequest) -> LayoutNode {
    match request {
        EditRequest::Remove(panel) => match root.without(panel) {
            Some(rest) => rest,
            None => root,
        },
        EditRequest::Move { panel, target } => target.applied(root, panel),
        _ => root,
    }
}

/// A floating window after a request.
pub open spec fn asked_of_float(place: FloatPlace, request: EditRequest) -> FloatPlace {
    match request {
        EditRequest::Anchor { window, anchor } => if place.window == window {
            FloatPlace { anchor, ..place }
        } else {
            place
        },
        EditRequest::Resize { window, size } => if place.window == window {
            FloatPlace { size, ..place }
        } else {
            place
        },
        _ => place,
    }
}

/// Carry out a request. Panels are taken away and moved in the tree; floating
/// windows are placed and sized beside it.
pub fn perform(
    request: &EditRequest,
    root: &mut LayoutNode,
    floats: &mut Vec<FloatPlace>,
) -> (c: LayoutChange)
    ensures
        *final(root) == asked_of_tree(*old(root), *request),
        final(floats)@ == old(floats)@.map_values(|p: FloatPlace| asked_of_float(p, *request)),
        c == (match *request {
            EditRequest::Remove(_) | EditRequest::Move { .. } => LayoutChange::shown(),
            _ => LayoutChange { reanchor: true, save: true, ..LayoutChange::nothing() },
        }),
{
    let change = match request {
        EditRequest::Remove(panel) => {
            match root.copy().remove_panel(*panel) {
                Some(rest) => {
                    *root = rest;
                },
                None => {},
            }
            apply()
        },
        EditRequest::Move { panel, target } => {
            target.apply(root, *panel);
            apply()
        },
        _ => float_changed(),
    };
    let ghost before = floats@;
    let mut i: usize = 0;
    while i < floats.len()
        invariant
            i <= floats@.len(),
            floats@.len() == before.len(),
            forall|k: int|
                0 <= k < i ==> #[trigger] floats@[k] == asked_of_float(before[k], *request),
            forall|k: int| i <= k < before.len() ==> #[trigger] floats@[k] == before[k],
        decreases floats@.len() - i,
    {
        let place = floats[i];
        let changed = match request {
            EditRequest::Anchor { window, anchor } => if place.window == *window {
                FloatPlace { anchor: *anchor, ..place }
            } else {
                place
            },
            EditRequest::Resize { window, size } => if place.window == *window {
                FloatPlace { size: *size, ..place }
            } else {
                place
            },
            _ => place,
        };
        floats.set(i, changed);
        i = i + 1;
    }
    assert(floats@ =~= before.map_values(|p: FloatPlace| asked_of_float(p, *request)));
    change
}

/// A request on a floating window leaves the panels as they are, and one on a
/// panel leaves the floating windows.
pub proof fn law_requests_do_not_mix(root: LayoutNode, place: FloatPlace, request: EditRequest)
    ensures
        request is Anchor || request is Resize ==> asked_of_tree(root, request) == root,
        request is Remove || request is Move ==> asked_of_float(place, request) == place,
{
}

/// Asking twice for the same place or size is asking once.
pub proof fn law_float_requests_are_idempotent(place: FloatPlace, request: EditRequest)
    ensures
        asked_of_float(asked_of_float(place, request), request) == asked_of_float(place, request),
{
}

/// A request does what it says and nothing else. A removed panel is gone, unless it was
/// all there is; a moved panel lands at its target; a window that is pinned or sized is
/// pinned or sized as asked, keeps the other of the two, and no other window changes.
pub proof fn law_a_request_does_what_it_says(
    request: EditRequest,
    root: &mut LayoutNode,
    floats: &mut Vec<FloatPlace>,
    c: LayoutChange,
    i: int,
)
    requires
        call_ensures(perform, (&request, root, floats), c),
        0 <= i < old(floats)@.len(),
    ensures
        final(floats)@.len() == old(floats)@.len(),
        ({
            let before = old(floats)@[i];
            let after = final(floats)@[i];
            &&& after.window == before.window
            &&& request matches EditRequest::Anchor { window, anchor } ==> after.size == before.size
                && (before.window == window ==> after.anchor == anchor) && (before.window != window
                ==> after.anchor == before.anchor)
            &&& request matches EditRequest::Resize { window, size } ==> after.anchor
                == before.anchor && (before.window == window ==> after.size == size) && (
            before.window != window ==> after.size == before.size)
            &&& request is Remove || request is Move ==> after == before
        }),
        request matches EditRequest::Remove(panel) ==> (old(root).without(panel) matches Some(rest)
            ==> *final(root) == rest),
        request matches EditRequest::Remove(panel) ==> (old(root).without(panel) is None
            ==> *final(root) == *old(root)),
        request matches EditRequest::Move { panel, target } ==> *final(root) == target.applied(
            *old(root),
            panel,
        ),
        request is Anchor || request is Resize ==> *final(root) == *old(root),
        c.save && c.reanchor,
        c.rebuild <==> request is Remove || request is Move,
        c.notify == c.rebuild,
{
}

} // verus!

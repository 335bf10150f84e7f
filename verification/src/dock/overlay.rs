//! What the layout editor draws over the dock, and what moves there.

use vstd::prelude::*;

use crate::dock::drop::FreeEdge;
use crate::dock::edit::{EditState, FloatGrip, Movable, Seam};
use crate::dock::sizing::{seam_resizable, split_views, SplitInfo, SplitView};
use crate::layout::PanelId;

verus! {

/// What the overlay is drawn from, beside the editing in progress.
#[derive(Clone, Copy, Debug, PartialEq, Eq, Structural)]
pub struct Scene {
    /// The seam that is dragged or hovered has a band to draw.
    pub seam_band: bool,
    /// What is hovered has a place on the screen.
    pub hovered_place: bool,
    /// What is hovered may be removed, where it is a panel.
    pub removable: bool,
    /// What is carried would land somewhere.
    pub landing: bool,
    /// There is a preview of the landing.
    pub preview: bool,
}

/// A step of drawing the overlay, each over those before it.
#[derive(Clone, Copy, Debug, PartialEq, Eq, Structural)]
pub enum OverlayStep {
    /// The band of the seam.
    SeamBand,
    /// A veil over what is hovered, darker while it is carried.
    Veil { lifted: bool },
    /// The grip of what is hovered.
    Grip,
    /// The delete button of what is hovered.
    Delete,
    /// The edges of a floating window.
    Edges(FloatGrip),
    /// Everything goes dark: what is carried would land nowhere.
    Dim,
    /// The place of the landing, or the seed of one.
    Landing { lands: bool },
    /// A grip at the pointer, for what could not be lifted.
    PointerGrip,
}

/// One step, or none.
pub open spec fn only_if(shown: bool, s: OverlayStep) -> Seq<OverlayStep> {
    if shown {
        seq![s]
    } else {
        seq![]
    }
}

impl EditState {
    /// What is hovered is a panel that may be removed.
    pub open spec fn deletable(self, scene: Scene) -> bool {
        scene.removable && self.hovered is Some && self.hovered->0 is Panel
    }

    /// The seam that is drawn: the dragged one before the hovered one.
    pub open spec fn seam_drawn(self) -> Option<Seam> {
        match self.seam_drag {
            Some(drag) => Some(drag.seam),
            None => self.hovered_seam,
        }
    }

    /// The veil and the buttons of what is hovered.
    pub open spec fn hover_steps(self, scene: Scene) -> Seq<OverlayStep> {
        let veiled = self.lifted || scene.hovered_place;
        let dragging = self.dragging is Some;
        only_if(veiled, OverlayStep::Veil { lifted: dragging }) + only_if(
            veiled && !dragging,
            OverlayStep::Grip,
        ) + only_if(veiled && !dragging && self.deletable(scene), OverlayStep::Delete)
    }

    /// What a carry draws.
    pub open spec fn carry_steps(self, scene: Scene) -> Seq<OverlayStep> {
        let dragging = self.dragging is Some;
        only_if(dragging && !scene.landing, OverlayStep::Dim) + only_if(
            dragging && scene.preview,
            OverlayStep::Landing { lands: scene.landing },
        ) + only_if(dragging && !self.lifted, OverlayStep::PointerGrip)
    }

    /// The steps of drawing the overlay.
    pub open spec fn steps(self, scene: Scene) -> Seq<OverlayStep> {
        let edges = match self.float_edges {
            Some(grip) => only_if(self.dragging is None, OverlayStep::Edges(grip)),
            None => seq![],
        };
        only_if(scene.seam_band, OverlayStep::SeamBand) + self.hover_steps(scene) + edges
            + self.carry_steps(scene)
    }

    /// The seam that is drawn.
    pub fn shown_seam(&self) -> (s: Option<Seam>)
        ensures
            s == self.seam_drawn(),
    {
        match self.seam_drag {
            Some(drag) => Some(drag.seam),
            None => self.hovered_seam,
        }
    }

    /// The steps of drawing the overlay: the seam, then what is hovered, then the
    /// edges of a floating window, then what is carried.
    pub fn draw(&self, scene: Scene) -> (steps: Vec<OverlayStep>)
        ensures
            steps@ == self.steps(scene),
    {
        let mut steps: Vec<OverlayStep> = Vec::new();
        let dragging = self.dragging.is_some();
        if scene.seam_band {
            steps.push(OverlayStep::SeamBand);
        }
        let ghost after_seam = steps@;
        assert(after_seam =~= only_if(scene.seam_band, OverlayStep::SeamBand));
        if self.lifted || scene.hovered_place {
            steps.push(OverlayStep::Veil { lifted: dragging });
            if !dragging {
                steps.push(OverlayStep::Grip);
                let deletable = match self.hovered {
                    Some(Movable::Panel(_)) => scene.removable,
                    _ => false,
                };
                if deletable {
                    steps.push(OverlayStep::Delete);
                }
            }
        }
        let ghost after_hover = steps@;
        assert(after_hover =~= after_seam + self.hover_steps(scene));
        if !dragging {
            if let Some(grip) = self.float_edges {
                steps.push(OverlayStep::Edges(grip));
            }
        }
        let ghost after_edges = steps@;
        if dragging {
            if !scene.landing {
                steps.push(OverlayStep::Dim);
            }
            if scene.preview {
                steps.push(OverlayStep::Landing { lands: scene.landing });
            }
            if !self.lifted {
                steps.push(OverlayStep::PointerGrip);
            }
        }
        assert(steps@ =~= after_edges + self.carry_steps(scene));
        assert(steps@ =~= self.steps(scene));
        steps
    }
}

/// A step stands in a sequence of optional ones only where one of them shows it.
proof fn lemma_only_if(shown: bool, s: OverlayStep, t: OverlayStep)
    ensures
        only_if(shown, s).contains(t) <==> shown && s == t,
{
    if shown {
        assert(only_if(shown, s)[0] == s);
    }
}

/// What two sequences hold together is what either holds.
proof fn lemma_joined(a: Seq<OverlayStep>, b: Seq<OverlayStep>, t: OverlayStep)
    ensures
        (a + b).contains(t) <==> a.contains(t) || b.contains(t),
{
    if a.contains(t) {
        let i = a.index_of(t);
        assert((a + b)[i] == t);
    }
    if b.contains(t) {
        let i = b.index_of(t);
        assert((a + b)[a.len() + i] == t);
    }
}

/// The delete button is offered on a panel that may be removed, and on nothing
/// else; it goes away while something is carried, and so does the grip.
pub proof fn law_only_removable_panels_offer_deletion(e: EditState, scene: Scene)
    ensures
        e.steps(scene).contains(OverlayStep::Delete) <==> (e.lifted || scene.hovered_place)
            && e.dragging is None && e.deletable(scene),
        e.dragging is Some ==> !e.steps(scene).contains(OverlayStep::Grip),
{
    let edges = match e.float_edges {
        Some(grip) => only_if(e.dragging is None, OverlayStep::Edges(grip)),
        None => seq![],
    };
    let band = only_if(scene.seam_band, OverlayStep::SeamBand);
    let veiled = e.lifted || scene.hovered_place;
    let dragging = e.dragging is Some;
    let veil = only_if(veiled, OverlayStep::Veil { lifted: dragging });
    let grip = only_if(veiled && !dragging, OverlayStep::Grip);
    let delete = only_if(veiled && !dragging && e.deletable(scene), OverlayStep::Delete);
    let dim = only_if(dragging && !scene.landing, OverlayStep::Dim);
    let place = only_if(dragging && scene.preview, OverlayStep::Landing { lands: scene.landing });
    let pointer = only_if(dragging && !e.lifted, OverlayStep::PointerGrip);
    assert forall|t: OverlayStep| t == OverlayStep::Delete || t == OverlayStep::Grip implies (
    #[trigger] e.steps(scene).contains(t) <==> grip.contains(t) || delete.contains(t)) by {
        lemma_joined(band + e.hover_steps(scene) + edges, e.carry_steps(scene), t);
        lemma_joined(band + e.hover_steps(scene), edges, t);
        lemma_joined(band, e.hover_steps(scene), t);
        lemma_joined(veil + grip, delete, t);
        lemma_joined(veil, grip, t);
        lemma_joined(dim + place, pointer, t);
        lemma_joined(dim, place, t);
        lemma_only_if(scene.seam_band, OverlayStep::SeamBand, t);
        lemma_only_if(veiled, OverlayStep::Veil { lifted: dragging }, t);
        lemma_only_if(dragging && !scene.landing, OverlayStep::Dim, t);
        lemma_only_if(dragging && scene.preview, OverlayStep::Landing { lands: scene.landing }, t);
        lemma_only_if(dragging && !e.lifted, OverlayStep::PointerGrip, t);
        match e.float_edges {
            Some(g) => lemma_only_if(e.dragging is None, OverlayStep::Edges(g), t),
            None => {},
        }
    }
    lemma_only_if(veiled && !dragging, OverlayStep::Grip, OverlayStep::Delete);
    lemma_only_if(veiled && !dragging, OverlayStep::Grip, OverlayStep::Grip);
    lemma_only_if(veiled && !dragging && e.deletable(scene), OverlayStep::Delete, OverlayStep::Delete);
    lemma_only_if(veiled && !dragging && e.deletable(scene), OverlayStep::Delete, OverlayStep::Grip);
}

/// The lines along the edges of a floating window, one down a side and one along
/// the top or bottom: each is drawn where the edge gives, and lit where it is
/// under the pointer.
pub fn edge_lines(free: (FreeEdge, FreeEdge), under: (FreeEdge, FreeEdge)) -> (r: (
    Option<bool>,
    Option<bool>,
))
    ensures
        r.0 == (if free.0 == FreeEdge::Neither {
            None
        } else {
            Some(under.0 != FreeEdge::Neither)
        }),
        r.1 == (if free.1 == FreeEdge::Neither {
            None
        } else {
            Some(under.1 != FreeEdge::Neither)
        }),
{
    let across = if free.0 == FreeEdge::Neither {
        None
    } else {
        Some(under.0 != FreeEdge::Neither)
    };
    let down = if free.1 == FreeEdge::Neither {
        None
    } else {
        Some(under.1 != FreeEdge::Neither)
    };
    (across, down)
}

/// Whether the seam of a split can be dragged: not where its fixed part is a panel
/// of a locked size.
pub open spec fn gives(split: SplitView, locked: Seq<PanelId>) -> bool {
    match split.panel {
        Some(id) => !locked.contains(id),
        None => true,
    }
}

/// The seams that can be dragged among the first `n` splits.
pub open spec fn seams_of(splits: Seq<SplitView>, locked: Seq<PanelId>, n: nat) -> Seq<Seam>
    decreases n,
{
    if n == 0 {
        seq![]
    } else {
        let rest = seams_of(splits, locked, (n - 1) as nat);
        let split = splits[n - 1];
        if gives(split, locked) {
            rest.push(Seam { split: (n - 1) as usize, axis: split.axis })
        } else {
            rest
        }
    }
}

/// Whether a panel is among those of a locked size.
fn is_locked(locked: &Vec<PanelId>, id: PanelId) -> (r: bool)
    ensures
        r == locked@.contains(id),
{
    let mut i: usize = 0;
    while i < locked.len()
        invariant
            i <= locked.len(),
            forall|j: int| 0 <= j < i ==> locked@[j] != id,
        decreases locked.len() - i,
    {
        if locked[i] == id {
            assert(locked@[i as int] == id);
            return true;
        }
        i = i + 1;
    }
    false
}

/// The seams that can be dragged, in the order of the splits.
pub fn handles(splits: &Vec<SplitInfo>, locked: &Vec<PanelId>) -> (seams: Vec<Seam>)
    ensures
        seams@ == seams_of(split_views(splits@), locked@, splits@.len()),
{
    let mut seams: Vec<Seam> = Vec::new();
    let mut i: usize = 0;
    while i < splits.len()
        invariant
            i <= splits.len(),
            seams@ == seams_of(split_views(splits@), locked@, i as nat),
        decreases splits.len() - i,
    {
        let resizable = match splits[i].panel {
            Some(id) => Some(!is_locked(locked, id)),
            None => None,
        };
        assert(split_views(splits@)[i as int] == splits@[i as int]@);
        if seam_resizable(resizable) {
            seams.push(Seam { split: i, axis: splits[i].axis });
        }
        i = i + 1;
    }
    seams
}

/// The first of some seams whose band holds the pointer.
pub open spec fn first_held(seams: Seq<(Seam, bool)>) -> Option<Seam>
    decreases seams.len(),
{
    if seams.len() == 0 {
        None
    } else if seams[0].1 {
        Some(seams[0].0)
    } else {
        first_held(seams.skip(1))
    }
}

/// The seam under the pointer, given for each whether its band holds the pointer.
pub fn handle_at(seams: &Vec<(Seam, bool)>) -> (r: Option<Seam>)
    ensures
        r == first_held(seams@),
{
    let mut i: usize = 0;
    assert(seams@.skip(0) =~= seams@);
    while i < seams.len()
        invariant
            i <= seams.len(),
            first_held(seams@) == first_held(seams@.skip(i as int)),
        decreases seams.len() - i,
    {
        let (seam, holds) = seams[i];
        assert(seams@.skip(i as int)[0] == seams@[i as int]);
        if holds {
            return Some(seam);
        }
        assert(seams@.skip(i as int).skip(1) =~= seams@.skip(i + 1));
        i = i + 1;
    }
    None
}

/// Some edge of a floating window is under the pointer.
pub open spec fn grabs(grip: FloatGrip) -> bool {
    grip.across != FreeEdge::Neither || grip.down != FreeEdge::Neither
}

/// The first floating window with an edge under the pointer.
pub open spec fn first_grip(grips: Seq<FloatGrip>) -> Option<FloatGrip>
    decreases grips.len(),
{
    if grips.len() == 0 {
        None
    } else if grabs(grips[0]) {
        Some(grips[0])
    } else {
        first_grip(grips.skip(1))
    }
}

/// The floating window whose edges the pointer grabs, given the edges of each that
/// are under the pointer.
pub fn float_edges_at(grips: &Vec<FloatGrip>) -> (r: Option<FloatGrip>)
    ensures
        r == first_grip(grips@),
{
    let mut i: usize = 0;
    assert(grips@.skip(0) =~= grips@);
    while i < grips.len()
        invariant
            i <= grips.len(),
            first_grip(grips@) == first_grip(grips@.skip(i as int)),
        decreases grips.len() - i,
    {
        let grip = grips[i];
        assert(grips@.skip(i as int)[0] == grips@[i as int]);
        if grip.across != FreeEdge::Neither || grip.down != FreeEdge::Neither {
            return Some(grip);
        }
        assert(grips@.skip(i as int).skip(1) =~= grips@.skip(i + 1));
        i = i + 1;
    }
    None
}

/// The gliding of the landing's preview, and of what is carried, toward where they
/// belong.
#[derive(Clone, Copy, Debug, PartialEq, Eq, Structural)]
pub struct Glide {
    /// A frame callback runs.
    pub ticking: bool,
    /// The preview has a place.
    pub preview: bool,
}

impl Glide {
    /// Nothing glides.
    pub fn new() -> (g: Glide)
        ensures
            g == (Glide { ticking: false, preview: false }),
    {
        Glide { ticking: false, preview: false }
    }

    /// A carry starts: the preview stands at its place at once.
    pub fn begin(&mut self)
        ensures
            *final(self) == (Glide { preview: true, ..*old(self) }),
    {
        self.preview = true;
    }

    /// The pointer moved during a carry. True starts the frame callback: there is
    /// never more than one.
    pub fn keep(&mut self) -> (install: bool)
        ensures
            install == !old(self).ticking,
            *final(self) == (Glide { ticking: true, ..*old(self) }),
    {
        let install = !self.ticking;
        self.ticking = true;
        install
    }

    /// A frame: both move on. `preview_there` and `carried_there` say whether they
    /// had arrived, the latter none where nothing has been lifted. False ends the
    /// callback.
    pub fn tick(&mut self, preview_there: bool, carried_there: Option<bool>) -> (go_on: bool)
        ensures
            go_on == (!preview_there || carried_there == Some(false)),
            *final(self) == (Glide {
                ticking: old(self).ticking && go_on,
                preview: true,
            }),
    {
        self.preview = true;
        let carried_moves = match carried_there {
            Some(there) => !there,
            None => false,
        };
        let go_on = !preview_there || carried_moves;
        if !go_on {
            self.ticking = false;
        }
        go_on
    }

    /// The carry is over. True takes the frame callback away.
    pub fn stop(&mut self) -> (cancel: bool)
        ensures
            cancel == old(self).ticking,
            *final(self) == (Glide { ticking: false, preview: false }),
    {
        let cancel = self.ticking;
        self.ticking = false;
        self.preview = false;
        cancel
    }
}

proof fn lemma_steps_hold(e: EditState, scene: Scene, t: OverlayStep)
    ensures
        e.steps(scene).contains(t) <==> only_if(
            scene.seam_band,
            OverlayStep::SeamBand,
        ).contains(t) || e.hover_steps(scene).contains(t) || (e.float_edges is Some
            && e.dragging is None && t == OverlayStep::Edges(e.float_edges->0)) || e.carry_steps(
            scene,
        ).contains(t),
{
    let edges = match e.float_edges {
        Some(grip) => only_if(e.dragging is None, OverlayStep::Edges(grip)),
        None => seq![],
    };
    let band = only_if(scene.seam_band, OverlayStep::SeamBand);
    lemma_joined(band + e.hover_steps(scene) + edges, e.carry_steps(scene), t);
    lemma_joined(band + e.hover_steps(scene), edges, t);
    lemma_joined(band, e.hover_steps(scene), t);
    if let Some(grip) = e.float_edges {
        lemma_only_if(e.dragging is None, OverlayStep::Edges(grip), t);
    }
}

proof fn lemma_hover_holds(e: EditState, scene: Scene, t: OverlayStep)
    ensures
        e.hover_steps(scene).contains(t) <==> (e.lifted || scene.hovered_place) && (t
            == (OverlayStep::Veil { lifted: e.dragging is Some }) || (e.dragging is None && (t
            == OverlayStep::Grip || (e.deletable(scene) && t == OverlayStep::Delete)))),
{
    let veiled = e.lifted || scene.hovered_place;
    let dragging = e.dragging is Some;
    let veil = only_if(veiled, OverlayStep::Veil { lifted: dragging });
    let grip = only_if(veiled && !dragging, OverlayStep::Grip);
    let delete = only_if(veiled && !dragging && e.deletable(scene), OverlayStep::Delete);
    lemma_joined(veil + grip, delete, t);
    lemma_joined(veil, grip, t);
    lemma_only_if(veiled, OverlayStep::Veil { lifted: dragging }, t);
    lemma_only_if(veiled && !dragging, OverlayStep::Grip, t);
    lemma_only_if(veiled && !dragging && e.deletable(scene), OverlayStep::Delete, t);
}

proof fn lemma_carry_holds(e: EditState, scene: Scene, t: OverlayStep)
    ensures
        e.carry_steps(scene).contains(t) <==> e.dragging is Some && ((!scene.landing && t
            == OverlayStep::Dim) || (scene.preview && t == (OverlayStep::Landing {
            lands: scene.landing,
        })) || (!e.lifted && t == OverlayStep::PointerGrip)),
{
    let dragging = e.dragging is Some;
    let dim = only_if(dragging && !scene.landing, OverlayStep::Dim);
    let place = only_if(dragging && scene.preview, OverlayStep::Landing { lands: scene.landing });
    let pointer = only_if(dragging && !e.lifted, OverlayStep::PointerGrip);
    lemma_joined(dim + place, pointer, t);
    lemma_joined(dim, place, t);
    lemma_only_if(dragging && !scene.landing, OverlayStep::Dim, t);
    lemma_only_if(dragging && scene.preview, OverlayStep::Landing { lands: scene.landing }, t);
    lemma_only_if(dragging && !e.lifted, OverlayStep::PointerGrip, t);
}

/// What the overlay shows, step by step: the band of a seam that has one, a veil over
/// what is hovered or lifted, darker during a carry, the buttons and a window's edges
/// only outside a carry, and what a carry shows only during one.
pub proof fn law_every_overlay_step_has_its_own_reason(e: EditState, scene: Scene, t: OverlayStep)
    ensures
        e.steps(scene).contains(t) <==> ({
            let carrying = e.dragging is Some;
            let veiled = e.lifted || scene.hovered_place;
            match t {
                OverlayStep::SeamBand => scene.seam_band,
                OverlayStep::Veil { lifted } => veiled && lifted == carrying,
                OverlayStep::Grip => veiled && !carrying,
                OverlayStep::Delete => veiled && !carrying && scene.removable && e.hovered is Some
                    && e.hovered->0 is Panel,
                OverlayStep::Edges(grip) => !carrying && e.float_edges == Some(grip),
                OverlayStep::Dim => carrying && !scene.landing,
                OverlayStep::Landing { lands } => carrying && scene.preview && lands
                    == scene.landing,
                OverlayStep::PointerGrip => carrying && !e.lifted,
            }
        }),
{
    lemma_steps_hold(e, scene, t);
    lemma_only_if(scene.seam_band, OverlayStep::SeamBand, t);
    lemma_hover_holds(e, scene, t);
    lemma_carry_holds(e, scene, t);
}

impl OverlayStep {
    /// How high a step stands over the dock.
    pub open spec fn height(self) -> int {
        match self {
            OverlayStep::SeamBand => 0,
            OverlayStep::Veil { .. } => 1,
            OverlayStep::Grip => 2,
            OverlayStep::Delete => 3,
            OverlayStep::Edges(_) => 4,
            OverlayStep::Dim => 5,
            OverlayStep::Landing { .. } => 6,
            OverlayStep::PointerGrip => 7,
        }
    }
}

/// Whether a row of steps rises from one height to another.
pub open spec fn rising(steps: Seq<OverlayStep>, low: int, high: int) -> bool {
    &&& forall|i: int| 0 <= i < steps.len() ==> low <= (#[trigger] steps[i]).height() < high
    &&& forall|i: int, j: int|
        0 <= i < j < steps.len() ==> (#[trigger] steps[i]).height() < (#[trigger] steps[j]).height()
}

proof fn lemma_rising(a: Seq<OverlayStep>, b: Seq<OverlayStep>, low: int, mid: int, high: int)
    requires
        rising(a, low, mid),
        rising(b, mid, high),
        low <= mid <= high,
    ensures
        rising(a + b, low, high),
{
    let c = a + b;
    assert forall|i: int| 0 <= i < c.len() implies low <= (#[trigger] c[i]).height() < high by {
        if i < a.len() {
            assert(c[i] == a[i]);
        } else {
            assert(c[i] == b[i - a.len()]);
        }
    }
    assert forall|i: int, j: int| 0 <= i < j < c.len() implies (#[trigger] c[i]).height() < (
    #[trigger] c[j]).height() by {
        if j < a.len() {
            assert(c[i] == a[i] && c[j] == a[j]);
        } else if i < a.len() {
            assert(c[i] == a[i] && c[j] == b[j - a.len()]);
        } else {
            assert(c[i] == b[i - a.len()] && c[j] == b[j - a.len()]);
        }
    }
}

/// Each step of the overlay is drawn once, over those that it covers: the seam, then
/// what is hovered with its buttons, the edges of a window, and what is carried on top.
pub proof fn law_the_overlay_rises(e: EditState, scene: Scene)
    ensures
        rising(e.steps(scene), 0, 8),
{
    let edges = match e.float_edges {
        Some(grip) => only_if(e.dragging is None, OverlayStep::Edges(grip)),
        None => seq![],
    };
    let band = only_if(scene.seam_band, OverlayStep::SeamBand);
    let veiled = e.lifted || scene.hovered_place;
    let dragging = e.dragging is Some;
    let veil = only_if(veiled, OverlayStep::Veil { lifted: dragging });
    let grip = only_if(veiled && !dragging, OverlayStep::Grip);
    let delete = only_if(veiled && !dragging && e.deletable(scene), OverlayStep::Delete);
    let dim = only_if(dragging && !scene.landing, OverlayStep::Dim);
    let place = only_if(dragging && scene.preview, OverlayStep::Landing { lands: scene.landing });
    let pointer = only_if(dragging && !e.lifted, OverlayStep::PointerGrip);
    lemma_rising(veil, grip, 1, 2, 3);
    lemma_rising(veil + grip, delete, 1, 3, 4);
    lemma_rising(dim, place, 5, 6, 7);
    lemma_rising(dim + place, pointer, 5, 7, 8);
    lemma_rising(band, e.hover_steps(scene), 0, 1, 4);
    lemma_rising(band + e.hover_steps(scene), edges, 0, 4, 5);
    lemma_rising(band + e.hover_steps(scene) + edges, e.carry_steps(scene), 0, 5, 8);
}

/// The seam that is drawn is the dragged one while there is one, else the hovered one.
pub proof fn law_the_dragged_seam_is_drawn(e: EditState, s: Option<Seam>)
    requires
        call_ensures(EditState::shown_seam, (&e,), s),
    ensures
        e.seam_drag is Some ==> s == Some(e.seam_drag->0.seam),
        e.seam_drag is None ==> s == e.hovered_seam,
{
}

/// The line along an edge is drawn where that edge gives, and lit where it is under the
/// pointer, each axis for itself.
pub proof fn law_lines_are_lit_under_the_pointer(
    free: (FreeEdge, FreeEdge),
    under: (FreeEdge, FreeEdge),
    r: (Option<bool>, Option<bool>),
)
    requires
        call_ensures(edge_lines, (free, under), r),
    ensures
        r.0 is Some <==> !(free.0 is Neither),
        r.1 is Some <==> !(free.1 is Neither),
        r.0 is Some ==> (r.0->0 <==> !(under.0 is Neither)),
        r.1 is Some ==> (r.1->0 <==> !(under.1 is Neither)),
{
}

proof fn lemma_seams(splits: Seq<SplitView>, locked: Seq<PanelId>, n: nat, k: int)
    requires
        n <= splits.len() <= usize::MAX,
        0 <= k < seams_of(splits, locked, n).len(),
    ensures
        ({
            let s = seams_of(splits, locked, n)[k];
            &&& s.split < n
            &&& s.axis == splits[s.split as int].axis
            &&& splits[s.split as int].panel is Some ==> !locked.contains(
                splits[s.split as int].panel->0,
            )
        }),
    decreases n,
{
    if n > 0 {
        let rest = seams_of(splits, locked, (n - 1) as nat);
        if k < rest.len() {
            lemma_seams(splits, locked, (n - 1) as nat, k);
        }
    }
}

proof fn lemma_seam_of_each(splits: Seq<SplitView>, locked: Seq<PanelId>, n: nat, i: int)
    requires
        n <= splits.len() <= usize::MAX,
        0 <= i < n,
        splits[i].panel is None || !locked.contains(splits[i].panel->0),
    ensures
        seams_of(splits, locked, n).contains(Seam { split: i as usize, axis: splits[i].axis }),
    decreases n,
{
    let rest = seams_of(splits, locked, (n - 1) as nat);
    let seam = Seam { split: i as usize, axis: splits[i].axis };
    if i == n - 1 {
        assert(seams_of(splits, locked, n)[rest.len() as int] == seam);
    } else {
        lemma_seam_of_each(splits, locked, (n - 1) as nat, i);
        let k = choose|k: int| 0 <= k < rest.len() && rest[k] == seam;
        assert(seams_of(splits, locked, n)[k] == seam);
    }
}

/// The seams that can be dragged are those of the splits whose fixed part is no panel of
/// a locked size, each cut as its split is, and no others.
pub proof fn law_seams_that_can_be_dragged(splits: Seq<SplitView>, locked: Seq<PanelId>, k: int, i: int)
    requires
        splits.len() <= usize::MAX,
    ensures
        ({
            let seams = seams_of(splits, locked, splits.len());
            &&& 0 <= k < seams.len() ==> seams[k].split < splits.len() && seams[k].axis
                == splits[seams[k].split as int].axis && (
            splits[seams[k].split as int].panel is Some ==> !locked.contains(
                splits[seams[k].split as int].panel->0,
            ))
            &&& 0 <= i < splits.len() && (splits[i].panel is None || !locked.contains(
                splits[i].panel->0,
            )) ==> seams.contains(Seam { split: i as usize, axis: splits[i].axis })
        }),
{
    if 0 <= k < seams_of(splits, locked, splits.len()).len() {
        lemma_seams(splits, locked, splits.len(), k);
    }
    if 0 <= i < splits.len() && (splits[i].panel is None || !locked.contains(splits[i].panel->0)) {
        lemma_seam_of_each(splits, locked, splits.len(), i);
    }
}

/// The seam under the pointer is the first whose band holds it.
pub proof fn law_the_first_seam_under_the_pointer(seams: Seq<(Seam, bool)>)
    ensures
        match first_held(seams) {
            Some(s) => exists|i: int|
                0 <= i < seams.len() && (#[trigger] seams[i]) == (s, true) && forall|j: int|
                    0 <= j < i ==> !(#[trigger] seams[j]).1,
            None => forall|j: int| 0 <= j < seams.len() ==> !(#[trigger] seams[j]).1,
        },
    decreases seams.len(),
{
    if seams.len() > 0 {
        if seams[0].1 {
            assert(seams[0] == (seams[0].0, true));
        } else {
            let rest = seams.skip(1);
            law_the_first_seam_under_the_pointer(rest);
            assert(forall|j: int| 0 < j < seams.len() ==> #[trigger] seams[j] == rest[j - 1]);
            if let Some(s) = first_held(rest) {
                let i = choose|i: int|
                    0 <= i < rest.len() && (#[trigger] rest[i]) == (s, true) && forall|j: int|
                        0 <= j < i ==> !(#[trigger] rest[j]).1;
                assert(seams[i + 1] == (s, true));
            }
        }
    }
}

/// The window that the pointer grabs is the first with an edge under it.
pub proof fn law_the_first_window_with_an_edge_under_the_pointer(grips: Seq<FloatGrip>)
    ensures
        match first_grip(grips) {
            Some(g) => exists|i: int|
                0 <= i < grips.len() && (#[trigger] grips[i]) == g && !(g.across is Neither
                    && g.down is Neither) && forall|j: int|
                    0 <= j < i ==> (#[trigger] grips[j]).across is Neither
                        && grips[j].down is Neither,
            None => forall|j: int|
                0 <= j < grips.len() ==> (#[trigger] grips[j]).across is Neither
                    && grips[j].down is Neither,
        },
    decreases grips.len(),
{
    if grips.len() > 0 && !grabs(grips[0]) {
        let rest = grips.skip(1);
        law_the_first_window_with_an_edge_under_the_pointer(rest);
        assert(forall|j: int| 0 < j < grips.len() ==> #[trigger] grips[j] == rest[j - 1]);
        if let Some(g) = first_grip(rest) {
            let i = choose|i: int|
                0 <= i < rest.len() && (#[trigger] rest[i]) == g && !(g.across is Neither
                    && g.down is Neither) && forall|j: int|
                    0 <= j < i ==> (#[trigger] rest[j]).across is Neither
                        && rest[j].down is Neither;
            assert(grips[i + 1] == g);
        }
    }
}

/// There is never more than one frame callback: it is started only where none runs, ends
/// once both the preview and what is carried have arrived, and the end of the carry
/// takes it away exactly where it still runs.
pub proof fn law_one_frame_callback_glides(
    a: &mut Glide,
    install: bool,
    b: &mut Glide,
    again: bool,
    c: &mut Glide,
    preview_there: bool,
    carried_there: Option<bool>,
    go_on: bool,
    d: &mut Glide,
    cancel: bool,
)
    requires
        call_ensures(Glide::keep, (a,), install),
        *old(b) == *final(a),
        call_ensures(Glide::keep, (b,), again),
        *old(c) == *final(b),
        call_ensures(Glide::tick, (c, preview_there, carried_there), go_on),
        *old(d) == *final(c),
        call_ensures(Glide::stop, (d,), cancel),
    ensures
        install <==> !old(a).ticking,
        !again,
        go_on <==> !(preview_there && (carried_there is None || carried_there->0)),
        final(c).preview,
        cancel <==> go_on,
        !final(d).ticking && !final(d).preview,
        final(a).preview == old(a).preview,
{
}

/// A preview that begins leaves the frame callback as it is, and a callback that is kept
/// leaves the preview as it is.
pub proof fn law_previews_and_callbacks_are_apart(a: &mut Glide, b: &mut Glide, install: bool)
    requires
        call_ensures(Glide::begin, (a,), ()),
        call_ensures(Glide::keep, (b,), install),
    ensures
        final(a).ticking == old(a).ticking && final(a).preview,
        final(b).preview == old(b).preview && final(b).ticking,
{
}

} // verus!

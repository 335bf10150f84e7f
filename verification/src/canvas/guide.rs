//! The drawing guide: moving its nodes, placing vanishing points, and holding a
//! stroke to its lines.

use vstd::prelude::*;

use crate::geometry::Point;
use crate::ieee::Single;

verus! {

/// Vanishing points that a perspective guide may have.
pub const MAX_VANISHING_POINTS: usize = 3;

/// A vanishing point and the color of its lines.
#[derive(Clone, Copy, Debug, PartialEq, Eq, Structural)]
pub struct VanishingPoint {
    pub at: Point,
    pub red: Single,
    pub green: Single,
    pub blue: Single,
}

/// A drawing guide. Every kind but perspective is placed by an origin and an
/// angle.
pub struct GuideConfig {
    pub perspective: bool,
    pub vanishing_points: Vec<VanishingPoint>,
    pub origin: Point,
    pub angle: Single,
}

/// Which node a gesture moves.
#[derive(Clone, Copy, Debug, PartialEq, Eq, Structural)]
pub enum GuideDrag {
    Idle,
    Position,
    Rotation,
}

/// Where a guide drag began: the pointer, and the guide's origin and angle.
#[derive(Clone, Copy, Debug, PartialEq, Eq, Structural)]
pub struct GuideStart {
    pub pointer: Point,
    pub origin: Point,
    pub angle: Single,
}

/// The guide gesture in progress.
#[derive(Clone, Copy, Debug, PartialEq, Eq, Structural)]
pub struct GuideGesture {
    pub drag: GuideDrag,
    pub start: Option<GuideStart>,
    /// The vanishing point being dragged.
    pub dragged: Option<usize>,
    /// Where a tap would add a vanishing point.
    pub pending_add: Option<Point>,
}

/// What a move of the pointer does to the guide.
#[derive(Clone, Copy, Debug, PartialEq, Eq, Structural)]
pub enum GuideMove {
    /// Nothing more: what there was to do is done.
    Done,
    /// Move the origin by as much as the pointer has moved.
    Shift(GuideStart),
    /// Turn the guide about its origin to face the pointer.
    Turn(GuideStart),
}

/// The first vanishing point under the pointer.
pub open spec fn first_hit(hits: Seq<bool>) -> Option<int>
    decreases hits.len(),
{
    if hits.len() == 0 {
        None
    } else {
        match first_hit(hits.drop_last()) {
            Some(i) => Some(i),
            None => if hits.last() {
                Some(hits.len() - 1)
            } else {
                None
            },
        }
    }
}

/// The first vanishing point under the pointer.
fn find_hit(hits: &Vec<bool>) -> (r: Option<usize>)
    ensures
        match r {
            Some(i) => first_hit(hits@) == Some(i as int),
            None => first_hit(hits@) is None,
        },
{
    proof {
        law_first_hit_is_a_hit(hits@);
    }
    let mut i: usize = 0;
    while i < hits.len()
        invariant
            i <= hits.len(),
            forall|j: int| 0 <= j < i ==> !hits@[j],
            match first_hit(hits@) {
                Some(k) => {
                    &&& 0 <= k < hits@.len()
                    &&& hits@[k]
                    &&& forall|j: int| 0 <= j < k ==> !hits@[j]
                },
                None => forall|j: int| 0 <= j < hits@.len() ==> !hits@[j],
            },
        decreases hits.len() - i,
    {
        if hits[i] {
            return Some(i);
        }
        i = i + 1;
    }
    None
}

impl GuideConfig {
    /// A guide has no more vanishing points than it may have.
    pub open spec fn wf(self) -> bool {
        self.vanishing_points@.len() <= MAX_VANISHING_POINTS
    }
}

impl GuideGesture {
    /// No gesture.
    pub open spec fn rest() -> GuideGesture {
        GuideGesture { drag: GuideDrag::Idle, start: None, dragged: None, pending_add: None }
    }

    /// A gesture does one thing: it drags a vanishing point, or waits for a tap,
    /// or moves the guide.
    pub open spec fn wf(self) -> bool {
        &&& self.dragged is Some ==> self.pending_add is None && self.start is None
        &&& self.pending_add is Some ==> self.start is None
        &&& self.start is Some <==> self.drag != GuideDrag::Idle
    }

    /// The gesture after a move of the pointer.
    pub open spec fn moved(self, away: bool) -> GuideGesture {
        if self.dragged is None && away {
            GuideGesture { pending_add: None, ..self }
        } else {
            self
        }
    }

    /// The vanishing points after the gesture.
    pub open spec fn points_at_end(
        self,
        perspective: bool,
        points: Seq<VanishingPoint>,
        red: Single,
        green: Single,
        blue: Single,
    ) -> Seq<VanishingPoint> {
        match self.pending_add {
            Some(at) => if perspective && points.len() < MAX_VANISHING_POINTS {
                points.push(VanishingPoint { at, red, green, blue })
            } else {
                points
            },
            None => points,
        }
    }

    /// No gesture.
    pub fn new() -> (g: GuideGesture)
        ensures
            g == GuideGesture::rest(),
            g.wf(),
    {
        GuideGesture { drag: GuideDrag::Idle, start: None, dragged: None, pending_add: None }
    }

    /// Begin a gesture at a point of the canvas. `hits` tells for each vanishing
    /// point whether the pointer is on it, `on_rotation` whether it is on the
    /// rotation node. A perspective guide has its vanishing points dragged, or
    /// gets one where nothing is hit; any other is turned by its rotation node
    /// and moved from anywhere else.
    pub fn begin(
        &mut self,
        config: Option<&GuideConfig>,
        at: Point,
        hits: &Vec<bool>,
        on_rotation: bool,
    )
        ensures
            *final(self) == (match config {
                None => *old(self),
                Some(c) => if c.perspective {
                    match first_hit(hits@) {
                        Some(i) => GuideGesture {
                            dragged: Some(i as usize),
                            ..GuideGesture::rest()
                        },
                        None => GuideGesture { pending_add: Some(at), ..GuideGesture::rest() },
                    }
                } else {
                    GuideGesture {
                        drag: if on_rotation {
                            GuideDrag::Rotation
                        } else {
                            GuideDrag::Position
                        },
                        start: Some(
                            GuideStart { pointer: at, origin: c.origin, angle: c.angle },
                        ),
                        ..GuideGesture::rest()
                    }
                },
            }),
            config is Some ==> final(self).wf(),
    {
        match config {
            None => {},
            Some(c) => {
                *self = GuideGesture::new();
                if c.perspective {
                    match find_hit(hits) {
                        Some(i) => {
                            self.dragged = Some(i);
                        },
                        None => {
                            self.pending_add = Some(at);
                        },
                    }
                } else {
                    self.drag = if on_rotation {
                        GuideDrag::Rotation
                    } else {
                        GuideDrag::Position
                    };
                    self.start = Some(
                        GuideStart { pointer: at, origin: c.origin, angle: c.angle },
                    );
                }
            },
        }
    }

    /// The pointer is at a point; `away` says that it has left the place of a
    /// pending tap. A vanishing point that is dragged follows the pointer.
    pub fn update(&mut self, config: &mut GuideConfig, at: Point, away: bool) -> (m: GuideMove)
        ensures
            *final(self) == old(self).moved(away),
            match old(self).dragged {
                Some(i) => {
                    &&& m == GuideMove::Done
                    &&& final(config).vanishing_points@ == (if i
                        < old(config).vanishing_points@.len() {
                        old(config).vanishing_points@.update(
                            i as int,
                            VanishingPoint { at, ..old(config).vanishing_points@[i as int] },
                        )
                    } else {
                        old(config).vanishing_points@
                    })
                },
                None => {
                    &&& final(config).vanishing_points@ == old(config).vanishing_points@
                    &&& m == (if old(self).pending_add is Some {
                        GuideMove::Done
                    } else {
                        match old(self).start {
                            None => GuideMove::Done,
                            Some(start) => match old(self).drag {
                                GuideDrag::Idle => GuideMove::Done,
                                GuideDrag::Position => GuideMove::Shift(start),
                                GuideDrag::Rotation => GuideMove::Turn(start),
                            },
                        }
                    })
                },
            },
            final(config).perspective == old(config).perspective,
            final(config).origin == old(config).origin,
            final(config).angle == old(config).angle,
            old(config).wf() ==> final(config).wf(),
    {
        if let Some(i) = self.dragged {
            if i < config.vanishing_points.len() {
                let mut p = config.vanishing_points[i];
                p.at = at;
                config.vanishing_points.set(i, p);
            }
            return GuideMove::Done;
        }
        if self.pending_add.is_some() {
            if away {
                self.pending_add = None;
            }
            return GuideMove::Done;
        }
        match self.start {
            None => GuideMove::Done,
            Some(start) => match self.drag {
                GuideDrag::Idle => GuideMove::Done,
                GuideDrag::Position => GuideMove::Shift(start),
                GuideDrag::Rotation => GuideMove::Turn(start),
            },
        }
    }

    /// End the gesture. A tap that is still pending adds a vanishing point of the
    /// given color, as long as the guide is one of perspective with room for it.
    pub fn end(&mut self, config: &mut GuideConfig, red: Single, green: Single, blue: Single)
        ensures
            *final(self) == GuideGesture::rest(),
            final(config).vanishing_points@ == old(self).points_at_end(
                old(config).perspective,
                old(config).vanishing_points@,
                red,
                green,
                blue,
            ),
            final(config).perspective == old(config).perspective,
            final(config).origin == old(config).origin,
            final(config).angle == old(config).angle,
            old(config).wf() ==> final(config).wf(),
    {
        if let Some(at) = self.pending_add {
            if config.perspective && config.vanishing_points.len() < MAX_VANISHING_POINTS {
                config.vanishing_points.push(VanishingPoint { at, red, green, blue });
            }
        }
        *self = GuideGesture::new();
    }
}

/// Drawing Assist for one stroke: where it began, if a guide holds strokes, and
/// the guide line it has been held to since its direction was clear.
pub struct GuideSnap<L> {
    pub start: Option<Point>,
    pub lock: Option<L>,
}

/// Where a point of the stroke goes.
#[derive(Clone, Copy, Debug, PartialEq, Eq, Structural)]
pub enum SnapStep {
    /// Where it is.
    Free,
    /// Onto the line that holds the stroke.
    Project,
    /// The direction is clear by now: seek the guide line that matches the way
    /// from this point.
    Seek(Point),
}

impl<L> GuideSnap<L> {
    /// No guide holds the stroke.
    pub fn new() -> (s: GuideSnap<L>)
        ensures
            s.start is None,
            s.lock is None,
    {
        GuideSnap { start: None, lock: None }
    }

    /// A stroke begins here; `holds` says that the guide in effect holds strokes.
    pub fn arm(&mut self, start: Point, holds: bool)
        ensures
            final(self).lock is None,
            final(self).start == (if holds {
                Some(start)
            } else {
                None
            }),
    {
        self.lock = None;
        self.start = if holds {
            Some(start)
        } else {
            None
        };
    }

    /// Where a point of the stroke goes; `near` says that it is still within the
    /// dead zone round the start.
    pub fn step(&self, near: bool) -> (s: SnapStep)
        ensures
            s == (match self.start {
                None => SnapStep::Free,
                Some(start) => if self.lock is Some {
                    SnapStep::Project
                } else if near {
                    SnapStep::Free
                } else {
                    SnapStep::Seek(start)
                },
            }),
    {
        match self.start {
            None => SnapStep::Free,
            Some(start) => if self.lock.is_some() {
                SnapStep::Project
            } else if near {
                SnapStep::Free
            } else {
                SnapStep::Seek(start)
            },
        }
    }

    /// The line that was found, if any, holds the stroke from now on.
    pub fn hold(&mut self, line: Option<L>)
        requires
            old(self).lock is None,
        ensures
            final(self).start == old(self).start,
            final(self).lock == line,
    {
        self.lock = line;
    }
}

/// A drag never adds a vanishing point: once the pointer has left the place of
/// the tap, ending the gesture leaves the guide's points as they were, and so
/// does every gesture that began on a point.
pub proof fn law_drag_is_no_tap(
    g: GuideGesture,
    perspective: bool,
    points: Seq<VanishingPoint>,
    red: Single,
    green: Single,
    blue: Single,
)
    requires
        g.wf(),
    ensures
        g.moved(true).points_at_end(perspective, points, red, green, blue) == points,
        g.dragged is Some ==> g.points_at_end(perspective, points, red, green, blue) == points,
        g.moved(true).wf(),
{
}

/// A tap adds its point at most once: the gesture it leaves behind adds none.
pub proof fn law_tap_adds_at_most_one(
    g: GuideGesture,
    perspective: bool,
    points: Seq<VanishingPoint>,
    red: Single,
    green: Single,
    blue: Single,
)
    requires
        points.len() <= MAX_VANISHING_POINTS,
    ensures
        g.points_at_end(perspective, points, red, green, blue).len() <= MAX_VANISHING_POINTS,
        g.points_at_end(perspective, points, red, green, blue).len() <= points.len() + 1,
        GuideGesture::rest().points_at_end(perspective, points, red, green, blue) == points,
{
}

/// The vanishing point that a press grabs is one under the pointer, and the first
/// of them; none is grabbed only where none is under the pointer.
pub proof fn law_first_hit_is_a_hit(hits: Seq<bool>)
    ensures
        match first_hit(hits) {
            Some(i) => {
                &&& 0 <= i < hits.len()
                &&& hits[i]
                &&& forall|j: int| 0 <= j < i ==> !hits[j]
            },
            None => forall|j: int| 0 <= j < hits.len() ==> !hits[j],
        },
    decreases hits.len(),
{
    if hits.len() > 0 {
        let rest = hits.drop_last();
        law_first_hit_is_a_hit(rest);
        assert forall|j: int| 0 <= j < rest.len() implies rest[j] == hits[j] by {}
        if first_hit(hits) is None {
            assert forall|j: int| 0 <= j < hits.len() implies !hits[j] by {
                if j < rest.len() {
                    assert(!rest[j]);
                }
            }
        } else {
            let i = first_hit(hits)->Some_0;
            assert forall|j: int| 0 <= j < i implies !hits[j] by {
                assert(!rest[j]);
            }
        }
    }
}

/// A press on a guide of perspective grabs the first vanishing point under the pointer,
/// or waits to see whether it is a tap where there is none. A press on any other guide
/// turns it by its rotation node and moves it from anywhere else, from where the guide
/// stands. Without a guide nothing begins.
pub proof fn law_what_a_guide_press_begins(
    g: &mut GuideGesture,
    config: GuideConfig,
    at: Point,
    hits: Vec<bool>,
    on_rotation: bool,
    k: int,
)
    requires
        call_ensures(GuideGesture::begin, (g, Some(&config), at, &hits, on_rotation), ()),
        hits@.len() <= usize::MAX,
    ensures
        final(g).dragged is Some <==> config.perspective && exists|i: int|
            0 <= i < hits@.len() && #[trigger] hits@[i],
        final(g).dragged matches Some(i) ==> i < hits@.len() && hits@[i as int],
        final(g).dragged is Some && 0 <= k < final(g).dragged->0 ==> !hits@[k],
        final(g).pending_add is Some <==> config.perspective && final(g).dragged is None,
        final(g).pending_add matches Some(p) ==> p == at,
        final(g).drag is Idle <==> config.perspective,
        final(g).drag is Rotation <==> !config.perspective && on_rotation,
        final(g).start is Some <==> !config.perspective,
        final(g).start matches Some(s) ==> s.pointer == at && s.origin == config.origin && s.angle
            == config.angle,
{
    law_first_hit_is_a_hit(hits@);
}

/// A move drags the grabbed vanishing point to the pointer, with its color, and no other
/// point; it gives a tap up once the pointer is away; it shifts or turns the guide from
/// where the drag began, as the press said.
pub proof fn law_what_a_guide_move_does(
    g: &mut GuideGesture,
    config: &mut GuideConfig,
    at: Point,
    away: bool,
    m: GuideMove,
    k: int,
)
    requires
        call_ensures(GuideGesture::update, (g, config, at, away), m),
        old(g).wf(),
    ensures
        final(config).vanishing_points@.len() == old(config).vanishing_points@.len(),
        0 <= k < old(config).vanishing_points@.len() ==> {
            let before = old(config).vanishing_points@[k];
            let after = final(config).vanishing_points@[k];
            &&& after.red == before.red && after.green == before.green && after.blue == before.blue
            &&& (old(g).dragged is Some && old(g).dragged->0 == k) ==> after.at == at
            &&& (old(g).dragged is None || old(g).dragged->0 != k) ==> after.at == before.at
        },
        m is Shift <==> old(g).drag is Position && old(g).pending_add is None
            && old(g).dragged is None,
        m is Turn <==> old(g).drag is Rotation && old(g).pending_add is None
            && old(g).dragged is None,
        m matches GuideMove::Shift(s) ==> old(g).start == Some(s),
        m matches GuideMove::Turn(s) ==> old(g).start == Some(s),
        final(g).drag == old(g).drag && final(g).start == old(g).start && final(g).dragged
            == old(g).dragged,
        !away ==> final(g).pending_add == old(g).pending_add,
        away ==> final(g).pending_add is None,
{
}

/// The end of a gesture adds a vanishing point where the tap was, in the given color and
/// after all the others, exactly where a tap is pending, the guide is one of perspective
/// and it has fewer than three. The points that are there stay, and nothing is left of
/// the gesture.
pub proof fn law_what_the_end_of_a_guide_gesture_adds(
    g: &mut GuideGesture,
    config: &mut GuideConfig,
    red: Single,
    green: Single,
    blue: Single,
    k: int,
)
    requires
        call_ensures(GuideGesture::end, (g, config, red, green, blue), ()),
    ensures
        ({
            let before = old(config).vanishing_points@;
            let after = final(config).vanishing_points@;
            let adds = old(g).pending_add is Some && old(config).perspective && before.len() < 3;
            &&& adds ==> after.len() == before.len() + 1 && after.last() == (VanishingPoint {
                at: old(g).pending_add->0,
                red,
                green,
                blue,
            })
            &&& !adds ==> after.len() == before.len()
            &&& 0 <= k < before.len() ==> after[k] == before[k]
        }),
        final(g).drag is Idle && final(g).start is None && final(g).dragged is None
            && final(g).pending_add is None,
{
}

/// A stroke is held only by a guide that holds strokes, and by the first line that is
/// found for it: until its way is clear it goes free, then the line is sought from where
/// the stroke began, and once there is one every point goes onto it.
pub proof fn law_a_stroke_is_held_once_its_way_is_clear<L>(
    a: &mut GuideSnap<L>,
    start: Point,
    holds: bool,
    near: bool,
    first: SnapStep,
    b: &mut GuideSnap<L>,
    line: Option<L>,
    close: bool,
    then: SnapStep,
)
    requires
        call_ensures(GuideSnap::<L>::arm, (a, start, holds), ()),
        call_ensures(GuideSnap::<L>::step, (&*final(a), near), first),
        *old(b) == *final(a),
        call_ensures(GuideSnap::<L>::hold, (b, line), ()),
        call_ensures(GuideSnap::<L>::step, (&*final(b), close), then),
    ensures
        first is Free <==> !holds || near,
        first matches SnapStep::Seek(p) ==> p == start,
        !(first is Project),
        then is Project <==> holds && line is Some,
        !holds ==> then is Free,
        holds && line is None ==> (then is Free <==> close),
        then matches SnapStep::Seek(p) ==> p == start,
{
}

} // verus!

//! Brushes as the manager edits them.
//!
//! Patterns, tips, curves and pictures belong to the brush engine; here each is
//! told by a number.

use vstd::prelude::*;

use crate::canvas::stroke_tip::BrushFamily;
use crate::ieee::Single;

verus! {

/// The straight curve.
pub const LINEAR_CURVE: u64 = 0;

/// One.
pub const ONE: u32 = 0x3f80_0000;

/// A full turn, in radians.
pub const TAU: u32 = 0x40c9_0fdb;

/// What a dynamic follows.
#[derive(Clone, Copy, Debug, PartialEq, Eq, Structural)]
pub enum DynSource {
    Pressure,
    Speed,
    Direction,
    Distance,
    Random,
    PenRotation,
    FakePenRotation,
    Angle,
    FakeAngle,
}

/// How many sources there are.
pub const SOURCE_COUNT: usize = 9;

impl DynSource {
    /// The place of the source in its list.
    pub open spec fn place(self) -> int {
        match self {
            DynSource::Pressure => 0,
            DynSource::Speed => 1,
            DynSource::Direction => 2,
            DynSource::Distance => 3,
            DynSource::Random => 4,
            DynSource::PenRotation => 5,
            DynSource::FakePenRotation => 6,
            DynSource::Angle => 7,
            DynSource::FakeAngle => 8,
        }
    }

    /// The place of the source in its list.
    pub fn index(self) -> (i: usize)
        ensures
            i == self.place(),
            i < SOURCE_COUNT,
    {
        match self {
            DynSource::Pressure => 0,
            DynSource::Speed => 1,
            DynSource::Direction => 2,
            DynSource::Distance => 3,
            DynSource::Random => 4,
            DynSource::PenRotation => 5,
            DynSource::FakePenRotation => 6,
            DynSource::Angle => 7,
            DynSource::FakeAngle => 8,
        }
    }

    /// The source at a place of the list.
    pub fn from_index(i: usize) -> (s: Option<DynSource>)
        ensures
            s is Some == (i < SOURCE_COUNT),
            s matches Some(source) ==> source.place() == i,
    {
        if i == 0 {
            Some(DynSource::Pressure)
        } else if i == 1 {
            Some(DynSource::Speed)
        } else if i == 2 {
            Some(DynSource::Direction)
        } else if i == 3 {
            Some(DynSource::Distance)
        } else if i == 4 {
            Some(DynSource::Random)
        } else if i == 5 {
            Some(DynSource::PenRotation)
        } else if i == 6 {
            Some(DynSource::FakePenRotation)
        } else if i == 7 {
            Some(DynSource::Angle)
        } else if i == 8 {
            Some(DynSource::FakeAngle)
        } else {
            None
        }
    }

    /// The source in words.
    pub fn label(self) -> (l: &'static str)
        ensures
            l@ == (match self {
                DynSource::Pressure => "Pressure"@,
                DynSource::Speed => "Speed"@,
                DynSource::Direction => "Direction"@,
                DynSource::Distance => "Distance"@,
                DynSource::Random => "Random"@,
                DynSource::PenRotation => "Pen Rotation"@,
                DynSource::FakePenRotation => "Fake Pen Rotation"@,
                DynSource::Angle => "Angle"@,
                DynSource::FakeAngle => "Fake Angle"@,
            }),
    {
        match self {
            DynSource::Pressure => "Pressure",
            DynSource::Speed => "Speed",
            DynSource::Direction => "Direction",
            DynSource::Distance => "Distance",
            DynSource::Random => "Random",
            DynSource::PenRotation => "Pen Rotation",
            DynSource::FakePenRotation => "Fake Pen Rotation",
            DynSource::Angle => "Angle",
            DynSource::FakeAngle => "Fake Angle",
        }
    }
}

/// How a dynamic follows its source.
#[derive(Clone, Copy, Debug, PartialEq, Eq, Structural)]
pub struct Mapping {
    pub source: DynSource,
    pub curve: u64,
    pub low: Single,
    pub high: Single,
    pub invert: bool,
}

/// The dynamics of a brush.
#[derive(Clone, Copy, Debug, PartialEq, Eq, Structural)]
pub struct Dynamics {
    pub size: Option<Mapping>,
    pub flow: Option<Mapping>,
    pub rotation: Option<Mapping>,
    pub scatter: Option<Mapping>,
    pub spacing: Option<Mapping>,
}

impl Dynamics {
    /// Whether any dynamic is on.
    pub fn any_active(&self) -> (r: bool)
        ensures
            r == (exists|f: DynamicsField| #[trigger] self.slot(f) is Some),
    {
        let r = self.size.is_some() || self.flow.is_some() || self.rotation.is_some()
            || self.scatter.is_some() || self.spacing.is_some();
        proof {
            assert(self.slot(DynamicsField::Size) == self.size);
            assert(self.slot(DynamicsField::Flow) == self.flow);
            assert(self.slot(DynamicsField::Rotation) == self.rotation);
            assert(self.slot(DynamicsField::Scatter) == self.scatter);
            assert(self.slot(DynamicsField::Spacing) == self.spacing);
        }
        r
    }
}

/// One of the dynamics.
#[derive(Clone, Copy, Debug, PartialEq, Eq, Structural)]
pub enum DynamicsField {
    Size,
    Flow,
    Rotation,
    Scatter,
    Spacing,
}

/// One of the sliders.
#[derive(Clone, Copy, Debug, PartialEq, Eq, Structural)]
pub enum ScaleField {
    Size,
    Opacity,
    Spacing,
    Stabilizer,
    SpeedSmoothing,
    Hardness,
    PatternSize,
    PatternStrength,
}

/// How a brush paints.
#[derive(Clone, Copy, Debug, PartialEq, Eq, Structural)]
pub struct Look {
    pub family: BrushFamily,
    pub default_size: Single,
    pub default_opacity: Single,
    pub spacing_ratio: Single,
    pub stabilizer: Single,
    pub speed_smoothing: Single,
    pub hardness: Single,
    pub texture_scale: Single,
    pub texture_strength: Single,
    pub buildup: bool,
    pub tip: u64,
    pub dynamics: Dynamics,
    pub icon: Option<u64>,
    pub preview: Option<u64>,
}

/// A brush.
pub struct Brush {
    pub id: u64,
    pub name: String,
    pub look: Look,
    /// The file that holds the brush.
    pub path: Option<String>,
}

/// What a brush is.
pub ghost struct BrushView {
    pub id: u64,
    pub name: Seq<char>,
    pub look: Look,
    pub path: Option<Seq<char>>,
}

impl View for Brush {
    type V = BrushView;

    open spec fn view(&self) -> BrushView {
        BrushView {
            id: self.id,
            name: self.name@,
            look: self.look,
            path: match self.path {
                Some(p) => Some(p@),
                None => None,
            },
        }
    }
}

impl Brush {
    /// The same brush once more.
    pub fn copy(&self) -> (b: Brush)
        ensures
            b@ == self@,
    {
        let path = match &self.path {
            Some(p) => Some(p.as_str().to_owned()),
            None => None,
        };
        Brush { id: self.id, name: self.name.as_str().to_owned(), look: self.look, path }
    }
}

/// What the brushes of a list are.
pub open spec fn views(brushes: Seq<Brush>) -> Seq<BrushView> {
    brushes.map_values(|b: Brush| b@)
}

/// The place of the first brush with an identity.
pub open spec fn place_of(brushes: Seq<BrushView>, id: u64) -> Option<int>
    decreases brushes.len(),
{
    if brushes.len() == 0 {
        None
    } else {
        match place_of(brushes.drop_last(), id) {
            Some(i) => Some(i),
            None => if brushes.last().id == id {
                Some(brushes.len() - 1)
            } else {
                None
            },
        }
    }
}

/// The place of a brush is a place of the list, the brush there has the identity,
/// and no earlier one has.
pub proof fn lemma_place(brushes: Seq<BrushView>, id: u64)
    ensures
        match place_of(brushes, id) {
            Some(i) => 0 <= i < brushes.len() && brushes[i].id == id && forall|k: int|
                0 <= k < i ==> #[trigger] brushes[k].id != id,
            None => forall|k: int| 0 <= k < brushes.len() ==> #[trigger] brushes[k].id != id,
        },
    decreases brushes.len(),
{
    if brushes.len() > 0 {
        lemma_place(brushes.drop_last(), id);
        assert forall|k: int| 0 <= k < brushes.len() - 1 implies #[trigger] brushes[k]
            == brushes.drop_last()[k] by {}
    }
}

/// A brush that keeps its identity keeps its place.
pub proof fn lemma_place_kept(brushes: Seq<BrushView>, id: u64, at: int, b: BrushView)
    requires
        0 <= at < brushes.len(),
        b.id == brushes[at].id,
    ensures
        place_of(brushes.update(at, b), id) == place_of(brushes, id),
    decreases brushes.len(),
{
    let changed = brushes.update(at, b);
    if at == brushes.len() - 1 {
        assert(changed.drop_last() =~= brushes.drop_last());
    } else {
        lemma_place_kept(brushes.drop_last(), id, at, b);
        assert(changed.drop_last() =~= brushes.drop_last().update(at, b));
    }
}

/// The place of the first brush with an identity.
pub fn find_brush(brushes: &Vec<Brush>, id: u64) -> (r: Option<usize>)
    ensures
        match r {
            Some(i) => place_of(views(brushes@), id) == Some(i as int) && i < brushes@.len(),
            None => place_of(views(brushes@), id) is None,
        },
{
    let ghost all = views(brushes@);
    proof {
        lemma_place(all, id);
    }
    let mut i: usize = 0;
    while i < brushes.len()
        invariant
            i <= brushes@.len(),
            all == views(brushes@),
            forall|k: int| 0 <= k < i ==> #[trigger] all[k].id != id,
            match place_of(all, id) {
                Some(p) => 0 <= p < all.len() && all[p].id == id && forall|k: int|
                    0 <= k < p ==> #[trigger] all[k].id != id,
                None => forall|k: int| 0 <= k < all.len() ==> #[trigger] all[k].id != id,
            },
        decreases brushes@.len() - i,
    {
        assert(all[i as int].id == brushes@[i as int].id);
        if brushes[i].id == id {
            return Some(i);
        }
        i = i + 1;
    }
    None
}

impl Dynamics {
    /// One of the dynamics.
    pub open spec fn slot(self, field: DynamicsField) -> Option<Mapping> {
        match field {
            DynamicsField::Size => self.size,
            DynamicsField::Flow => self.flow,
            DynamicsField::Rotation => self.rotation,
            DynamicsField::Scatter => self.scatter,
            DynamicsField::Spacing => self.spacing,
        }
    }

    /// The dynamics with one of them set.
    pub open spec fn with(self, field: DynamicsField, m: Option<Mapping>) -> Dynamics {
        match field {
            DynamicsField::Size => Dynamics { size: m, ..self },
            DynamicsField::Flow => Dynamics { flow: m, ..self },
            DynamicsField::Rotation => Dynamics { rotation: m, ..self },
            DynamicsField::Scatter => Dynamics { scatter: m, ..self },
            DynamicsField::Spacing => Dynamics { spacing: m, ..self },
        }
    }

    /// One of the dynamics.
    pub fn get(&self, field: DynamicsField) -> (m: Option<Mapping>)
        ensures
            m == self.slot(field),
    {
        match field {
            DynamicsField::Size => self.size,
            DynamicsField::Flow => self.flow,
            DynamicsField::Rotation => self.rotation,
            DynamicsField::Scatter => self.scatter,
            DynamicsField::Spacing => self.spacing,
        }
    }

    /// Set one of the dynamics.
    pub fn set(&mut self, field: DynamicsField, m: Option<Mapping>)
        ensures
            *final(self) == old(self).with(field, m),
    {
        match field {
            DynamicsField::Size => {
                self.size = m;
            },
            DynamicsField::Flow => {
                self.flow = m;
            },
            DynamicsField::Rotation => {
                self.rotation = m;
            },
            DynamicsField::Scatter => {
                self.scatter = m;
            },
            DynamicsField::Spacing => {
                self.spacing = m;
            },
        }
    }
}

/// Setting one of the dynamics sets that one and no other.
pub proof fn law_dynamics_are_independent(
    d: Dynamics,
    set: DynamicsField,
    m: Option<Mapping>,
    other: DynamicsField,
)
    ensures
        d.with(set, m).slot(other) == if other == set {
            m
        } else {
            d.slot(other)
        },
        d.with(set, d.slot(set)) == d,
{
}

impl DynamicsField {
    /// What a dynamic starts with when it is switched on.
    pub open spec fn start(self, look: Look, pressure_linear: Mapping) -> Mapping {
        let zero = Single { bits: 0 };
        let one = Single { bits: ONE };
        let plain = Mapping {
            source: DynSource::Pressure,
            curve: LINEAR_CURVE,
            low: zero,
            high: one,
            invert: false,
        };
        match self {
            DynamicsField::Size => pressure_linear,
            DynamicsField::Flow => plain,
            DynamicsField::Rotation => Mapping {
                source: DynSource::Random,
                high: Single { bits: TAU },
                ..plain
            },
            DynamicsField::Scatter => Mapping {
                source: DynSource::Random,
                high: if one.lt_spec(look.default_size) {
                    look.default_size
                } else {
                    one
                },
                ..plain
            },
            DynamicsField::Spacing => Mapping {
                low: look.spacing_ratio,
                high: look.spacing_ratio,
                ..plain
            },
        }
    }

    /// What a dynamic starts with when it is switched on. The one of the size is
    /// the engine's own. The one of the spacing changes nothing until its range is
    /// widened.
    pub fn default_mapping(self, look: &Look, pressure_linear: Mapping) -> (m: Mapping)
        ensures
            m == self.start(*look, pressure_linear),
    {
        let zero = Single { bits: 0 };
        let one = Single { bits: ONE };
        match self {
            DynamicsField::Size => pressure_linear,
            DynamicsField::Flow => Mapping {
                source: DynSource::Pressure,
                curve: LINEAR_CURVE,
                low: zero,
                high: one,
                invert: false,
            },
            DynamicsField::Rotation => Mapping {
                source: DynSource::Random,
                curve: LINEAR_CURVE,
                low: zero,
                high: Single { bits: TAU },
                invert: false,
            },
            DynamicsField::Scatter => {
                let high = if one.less(look.default_size) {
                    look.default_size
                } else {
                    one
                };
                Mapping {
                    source: DynSource::Random,
                    curve: LINEAR_CURVE,
                    low: zero,
                    high,
                    invert: false,
                }
            },
            DynamicsField::Spacing => Mapping {
                source: DynSource::Pressure,
                curve: LINEAR_CURVE,
                low: look.spacing_ratio,
                high: look.spacing_ratio,
                invert: false,
            },
        }
    }

    /// Whether the range of the dynamic is shown in degrees.
    pub fn range_in_degrees(self) -> (r: bool)
        ensures
            r == (self is Rotation),
    {
        match self {
            DynamicsField::Rotation => true,
            _ => false,
        }
    }
}

/// The place of a family in its list: a smudging brush stands where the round
/// one does, one with a tip where the textured one does.
pub open spec fn family_place(family: BrushFamily) -> u32 {
    match family {
        BrushFamily::SoftRound | BrushFamily::Smudge => 0,
        BrushFamily::Pixel => 1,
        BrushFamily::Textured(_) | BrushFamily::ImageTip(_) => 2,
    }
}

/// The place of a family in its list.
pub fn family_to_dropdown_index(family: BrushFamily) -> (i: u32)
    ensures
        i == family_place(family),
{
    match family {
        BrushFamily::SoftRound | BrushFamily::Smudge => 0,
        BrushFamily::Pixel => 1,
        BrushFamily::Textured(_) | BrushFamily::ImageTip(_) => 2,
    }
}

/// Whether the rows of the pattern show.
pub fn shows_pattern(family: BrushFamily) -> (r: bool)
    ensures
        r == (family is Textured || family is ImageTip),
{
    match family {
        BrushFamily::Textured(_) | BrushFamily::ImageTip(_) => true,
        _ => false,
    }
}

/// Every source has its own place in the list, and comes back from it.
pub proof fn law_sources_come_back_from_their_places(
    a: DynSource,
    b: DynSource,
    i: usize,
    s: Option<DynSource>,
)
    requires
        call_ensures(DynSource::index, (a,), i),
        call_ensures(DynSource::from_index, (i,), s),
    ensures
        s == Some(a),
        a.place() == b.place() ==> a == b,
        0 <= a.place() < 9,
{
}

/// The sources are listed in the order in which they are declared, and each is called
/// by its own name.
pub proof fn law_sources_are_listed_in_order(s: DynSource, label: &'static str)
    requires
        call_ensures(DynSource::label, (s,), label),
    ensures
        s is Pressure <==> s.place() == 0,
        s is Speed <==> s.place() == 1,
        s is Direction <==> s.place() == 2,
        s is Distance <==> s.place() == 3,
        s is Random <==> s.place() == 4,
        s is PenRotation <==> s.place() == 5,
        s is FakePenRotation <==> s.place() == 6,
        s is Angle <==> s.place() == 7,
        s is FakeAngle <==> s.place() == 8,
        s is Pressure ==> label@ == "Pressure"@,
        s is Speed ==> label@ == "Speed"@,
        s is Direction ==> label@ == "Direction"@,
        s is Distance ==> label@ == "Distance"@,
        s is Random ==> label@ == "Random"@,
        s is PenRotation ==> label@ == "Pen Rotation"@,
        s is FakePenRotation ==> label@ == "Fake Pen Rotation"@,
        s is Angle ==> label@ == "Angle"@,
        s is FakeAngle ==> label@ == "Fake Angle"@,
{
}

/// Each field of the dynamics is the dynamic of its own name, read and set.
pub proof fn law_each_dynamic_has_its_own_field(d: Dynamics, m: Option<Mapping>, active: bool)
    requires
        call_ensures(Dynamics::any_active, (&d,), active),
    ensures
        d.slot(DynamicsField::Size) == d.size,
        d.slot(DynamicsField::Flow) == d.flow,
        d.slot(DynamicsField::Rotation) == d.rotation,
        d.slot(DynamicsField::Scatter) == d.scatter,
        d.slot(DynamicsField::Spacing) == d.spacing,
        d.with(DynamicsField::Size, m).size == m,
        d.with(DynamicsField::Flow, m).flow == m,
        d.with(DynamicsField::Rotation, m).rotation == m,
        d.with(DynamicsField::Scatter, m).scatter == m,
        d.with(DynamicsField::Spacing, m).spacing == m,
        active <==> d.size is Some || d.flow is Some || d.rotation is Some || d.scatter is Some
            || d.spacing is Some,
{
    assert(d.slot(DynamicsField::Size) == d.size);
    assert(d.slot(DynamicsField::Flow) == d.flow);
    assert(d.slot(DynamicsField::Rotation) == d.rotation);
    assert(d.slot(DynamicsField::Scatter) == d.scatter);
    assert(d.slot(DynamicsField::Spacing) == d.spacing);
}

/// What a dynamic starts with: the size with what the engine says; the flow follows the
/// pressure from nothing to all; the rotation turns at random, all the way round; the
/// scatter goes at random as far as the brush is wide, and a pixel at least; the spacing
/// stays as it is whatever the pressure. All but the size start on the straight curve,
/// not turned round.
pub proof fn law_what_a_dynamic_starts_with(field: DynamicsField, look: Look, engine: Mapping)
    ensures
        ({
            let m = field.start(look, engine);
            let one = Single { bits: 0x3f80_0000 };
            &&& field is Size ==> m == engine
            &&& !(field is Size) ==> m.curve == 0 && !m.invert
            &&& field is Flow || field is Spacing ==> m.source is Pressure
            &&& field is Rotation || field is Scatter ==> m.source is Random
            &&& field is Flow || field is Rotation || field is Scatter ==> m.low.bits == 0
            &&& field is Flow ==> m.high == one
            &&& field is Rotation ==> m.high.bits == 0x40c9_0fdb
            &&& field is Scatter && one.lt_spec(look.default_size) ==> m.high == look.default_size
            &&& field is Scatter && !one.lt_spec(look.default_size) ==> m.high == one
            &&& field is Spacing ==> m.low == look.spacing_ratio && m.high == look.spacing_ratio
        }),
{
}

/// A family stands where its kind is listed: round and smudging first, pixels second,
/// and those with a pattern or a tip, which alone show a pattern, last.
pub proof fn law_families_stand_by_kind(
    family: BrushFamily,
    shows: bool,
    field: DynamicsField,
    degrees: bool,
)
    requires
        call_ensures(shows_pattern, (family,), shows),
        call_ensures(DynamicsField::range_in_degrees, (field,), degrees),
    ensures
        family_place(family) <= 2,
        family_place(BrushFamily::SoftRound) == family_place(BrushFamily::Smudge),
        family_place(family) == 0 <==> family is SoftRound || family is Smudge,
        family_place(family) == 1 <==> family is Pixel,
        shows <==> family_place(family) == 2,
        degrees <==> field is Rotation,
{
}

} // verus!

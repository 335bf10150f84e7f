//! Adjustment layers: the stack of effects, editing it with a live preview, and
//! what applying and cancelling leave behind.

use vstd::prelude::*;

use crate::geometry::Color;
use crate::ieee::{Double, Single};
use crate::text::same;

verus! {

/// How far outwards an offset still counts as centered.
pub const CENTERED_OUT: u64 = 0x3fd5_1eb8_51eb_851f;

/// How far inwards an offset still counts as centered.
pub const CENTERED_IN: u64 = 0xbfd5_1eb8_51eb_851f;

/// What an effect does. How soft a stroke is, is told by its place in the list.
#[derive(Clone, Copy, Debug, PartialEq, Eq, Structural)]
pub enum EffectKind {
    HueSatBright { hue_degrees: Single, saturation: Single, brightness: Single },
    Blur { radius_x: Single, radius_y: Single },
    Sharpen { amount: Single },
    Invert,
    Stroke { color: Color, opacity: Single, thickness: Single, offset: Single, softness: u32 },
}

/// An effect, on or off.
#[derive(Clone, Copy, Debug, PartialEq, Eq, Structural)]
pub struct Effect {
    pub kind: EffectKind,
    pub enabled: bool,
}

/// One of the five effects of a layer.
#[derive(Clone, Copy, Debug, PartialEq, Eq, Structural)]
pub enum EffectSlot {
    HueSatBright,
    Blur,
    Sharpen,
    Invert,
    Stroke,
}

/// What the effects are before they were ever set.
#[derive(Clone, Copy, Debug, PartialEq, Eq, Structural)]
pub struct EffectDefaults {
    pub hue_sat_bright: EffectKind,
    pub blur: EffectKind,
    pub sharpen: EffectKind,
    pub stroke: EffectKind,
}

impl EffectKind {
    /// The slot of the effect.
    pub open spec fn slot(self) -> EffectSlot {
        match self {
            EffectKind::HueSatBright { .. } => EffectSlot::HueSatBright,
            EffectKind::Blur { .. } => EffectSlot::Blur,
            EffectKind::Sharpen { .. } => EffectSlot::Sharpen,
            EffectKind::Invert => EffectSlot::Invert,
            EffectKind::Stroke { .. } => EffectSlot::Stroke,
        }
    }

    /// The slot of the effect.
    pub fn of(&self) -> (s: EffectSlot)
        ensures
            s == self.slot(),
    {
        match self {
            EffectKind::HueSatBright { .. } => EffectSlot::HueSatBright,
            EffectKind::Blur { .. } => EffectSlot::Blur,
            EffectKind::Sharpen { .. } => EffectSlot::Sharpen,
            EffectKind::Invert => EffectSlot::Invert,
            EffectKind::Stroke { .. } => EffectSlot::Stroke,
        }
    }
}

/// Whether two measures are the same number: no pattern that is none is the same
/// as any, and the two zeros are.
pub open spec fn same_number(a: Single, b: Single) -> bool {
    !a.nan() && !b.nan() && a.place() == b.place()
}

fn is_same_number(a: Single, b: Single) -> (r: bool)
    ensures
        r == same_number(a, b),
{
    a.at_most(b) && b.at_most(a)
}

/// Whether two effects do the same.
pub open spec fn same_kind(a: EffectKind, b: EffectKind) -> bool {
    match (a, b) {
        (
            EffectKind::HueSatBright { hue_degrees: h1, saturation: s1, brightness: b1 },
            EffectKind::HueSatBright { hue_degrees: h2, saturation: s2, brightness: b2 },
        ) => same_number(h1, h2) && same_number(s1, s2) && same_number(b1, b2),
        (
            EffectKind::Blur { radius_x: x1, radius_y: y1 },
            EffectKind::Blur { radius_x: x2, radius_y: y2 },
        ) => same_number(x1, x2) && same_number(y1, y2),
        (EffectKind::Sharpen { amount: a1 }, EffectKind::Sharpen { amount: a2 }) => same_number(
            a1,
            a2,
        ),
        (EffectKind::Invert, EffectKind::Invert) => true,
        (
            EffectKind::Stroke { color: c1, opacity: o1, thickness: t1, offset: f1, softness: s1 },
            EffectKind::Stroke { color: c2, opacity: o2, thickness: t2, offset: f2, softness: s2 },
        ) => c1 == c2 && same_number(o1, o2) && same_number(t1, t2) && same_number(f1, f2) && s1
            == s2,
        _ => false,
    }
}

fn is_same_kind(a: &EffectKind, b: &EffectKind) -> (r: bool)
    ensures
        r == same_kind(*a, *b),
{
    match (*a, *b) {
        (
            EffectKind::HueSatBright { hue_degrees: h1, saturation: s1, brightness: b1 },
            EffectKind::HueSatBright { hue_degrees: h2, saturation: s2, brightness: b2 },
        ) => is_same_number(h1, h2) && is_same_number(s1, s2) && is_same_number(b1, b2),
        (
            EffectKind::Blur { radius_x: x1, radius_y: y1 },
            EffectKind::Blur { radius_x: x2, radius_y: y2 },
        ) => is_same_number(x1, x2) && is_same_number(y1, y2),
        (EffectKind::Sharpen { amount: a1 }, EffectKind::Sharpen { amount: a2 }) => is_same_number(
            a1,
            a2,
        ),
        (EffectKind::Invert, EffectKind::Invert) => true,
        (
            EffectKind::Stroke { color: c1, opacity: o1, thickness: t1, offset: f1, softness: s1 },
            EffectKind::Stroke { color: c2, opacity: o2, thickness: t2, offset: f2, softness: s2 },
        ) => c1 == c2 && is_same_number(o1, o2) && is_same_number(t1, t2) && is_same_number(f1, f2)
            && s1 == s2,
        _ => false,
    }
}

/// Whether two stacks do the same.
pub open spec fn same_stack(a: Seq<Effect>, b: Seq<Effect>) -> bool {
    a.len() == b.len() && forall|i: int|
        0 <= i < a.len() ==> (#[trigger] a[i]).enabled == b[i].enabled && same_kind(
            a[i].kind,
            b[i].kind,
        )
}

/// Whether two stacks do the same.
pub fn is_same_stack(a: &Vec<Effect>, b: &Vec<Effect>) -> (r: bool)
    ensures
        r == same_stack(a@, b@),
{
    if a.len() != b.len() {
        return false;
    }
    let mut i: usize = 0;
    while i < a.len()
        invariant
            i <= a@.len(),
            a@.len() == b@.len(),
            forall|k: int|
                0 <= k < i ==> (#[trigger] a@[k]).enabled == b@[k].enabled && same_kind(
                    a@[k].kind,
                    b@[k].kind,
                ),
        decreases a@.len() - i,
    {
        if a[i].enabled != b[i].enabled || !is_same_kind(&a[i].kind, &b[i].kind) {
            return false;
        }
        i = i + 1;
    }
    true
}

/// The first effect of a slot in a stack, else the given one, switched off.
pub open spec fn found(effects: Seq<Effect>, slot: EffectSlot, fallback: EffectKind) -> Effect
    decreases effects.len(),
{
    if effects.len() == 0 {
        Effect { kind: fallback, enabled: false }
    } else if effects[0].kind.slot() == slot {
        effects[0]
    } else {
        found(effects.drop_first(), slot, fallback)
    }
}

fn find_effect(effects: &Vec<Effect>, slot: EffectSlot, fallback: EffectKind) -> (e: Effect)
    ensures
        e == found(effects@, slot, fallback),
{
    let mut i: usize = 0;
    assert(effects@.skip(0) =~= effects@);
    while i < effects.len()
        invariant
            i <= effects@.len(),
            found(effects@, slot, fallback) == found(effects@.skip(i as int), slot, fallback),
        decreases effects@.len() - i,
    {
        if effects[i].kind.of() == slot {
            return effects[i];
        }
        assert(effects@.skip(i as int).drop_first() =~= effects@.skip(i + 1));
        i = i + 1;
    }
    Effect { kind: fallback, enabled: false }
}

/// The five effects of a layer while they are edited, bottom first.
#[derive(Clone, Copy, Debug, PartialEq, Eq, Structural)]
pub struct Working {
    pub hsb: Effect,
    pub blur: Effect,
    pub sharpen: Effect,
    pub invert: Effect,
    pub stroke: Effect,
}

impl EffectDefaults {
    /// Each default belongs to its slot.
    pub open spec fn inv(self) -> bool {
        &&& self.hue_sat_bright.slot() == EffectSlot::HueSatBright
        &&& self.blur.slot() == EffectSlot::Blur
        &&& self.sharpen.slot() == EffectSlot::Sharpen
        &&& self.stroke.slot() == EffectSlot::Stroke
    }
}

/// A number that an effect is set to.
#[derive(Clone, Copy, Debug, PartialEq, Eq, Structural)]
pub enum EffectNumber {
    Hue,
    Saturation,
    Brightness,
    RadiusX,
    RadiusY,
    Amount,
    Opacity,
    Thickness,
    Offset,
}

/// An effect with one of its numbers set; one that has no such number stays as
/// it is.
pub open spec fn with_number(k: EffectKind, n: EffectNumber, value: Single) -> EffectKind {
    match (k, n) {
        (
            EffectKind::HueSatBright { saturation, brightness, .. },
            EffectNumber::Hue,
        ) => EffectKind::HueSatBright { hue_degrees: value, saturation, brightness },
        (
            EffectKind::HueSatBright { hue_degrees, brightness, .. },
            EffectNumber::Saturation,
        ) => EffectKind::HueSatBright { hue_degrees, saturation: value, brightness },
        (
            EffectKind::HueSatBright { hue_degrees, saturation, .. },
            EffectNumber::Brightness,
        ) => EffectKind::HueSatBright { hue_degrees, saturation, brightness: value },
        (EffectKind::Blur { radius_y, .. }, EffectNumber::RadiusX) => EffectKind::Blur {
            radius_x: value,
            radius_y,
        },
        (EffectKind::Blur { radius_x, .. }, EffectNumber::RadiusY) => EffectKind::Blur {
            radius_x,
            radius_y: value,
        },
        (EffectKind::Sharpen { .. }, EffectNumber::Amount) => EffectKind::Sharpen { amount: value },
        (
            EffectKind::Stroke { color, thickness, offset, softness, .. },
            EffectNumber::Opacity,
        ) => EffectKind::Stroke { color, opacity: value, thickness, offset, softness },
        (
            EffectKind::Stroke { color, opacity, offset, softness, .. },
            EffectNumber::Thickness,
        ) => EffectKind::Stroke { color, opacity, thickness: value, offset, softness },
        (
            EffectKind::Stroke { color, opacity, thickness, softness, .. },
            EffectNumber::Offset,
        ) => EffectKind::Stroke { color, opacity, thickness, offset: value, softness },
        _ => k,
    }
}

impl EffectNumber {
    /// The slot of the effect that has the number.
    pub open spec fn slot(self) -> EffectSlot {
        match self {
            EffectNumber::Hue | EffectNumber::Saturation | EffectNumber::Brightness =>
                EffectSlot::HueSatBright,
            EffectNumber::RadiusX | EffectNumber::RadiusY => EffectSlot::Blur,
            EffectNumber::Amount => EffectSlot::Sharpen,
            EffectNumber::Opacity | EffectNumber::Thickness | EffectNumber::Offset =>
                EffectSlot::Stroke,
        }
    }
}

fn set_number(k: EffectKind, n: EffectNumber, value: Single) -> (r: EffectKind)
    ensures
        r == with_number(k, n, value),
{
    match (k, n) {
        (
            EffectKind::HueSatBright { saturation, brightness, .. },
            EffectNumber::Hue,
        ) => EffectKind::HueSatBright { hue_degrees: value, saturation, brightness },
        (
            EffectKind::HueSatBright { hue_degrees, brightness, .. },
            EffectNumber::Saturation,
        ) => EffectKind::HueSatBright { hue_degrees, saturation: value, brightness },
        (
            EffectKind::HueSatBright { hue_degrees, saturation, .. },
            EffectNumber::Brightness,
        ) => EffectKind::HueSatBright { hue_degrees, saturation, brightness: value },
        (EffectKind::Blur { radius_y, .. }, EffectNumber::RadiusX) => EffectKind::Blur {
            radius_x: value,
            radius_y,
        },
        (EffectKind::Blur { radius_x, .. }, EffectNumber::RadiusY) => EffectKind::Blur {
            radius_x,
            radius_y: value,
        },
        (EffectKind::Sharpen { .. }, EffectNumber::Amount) => EffectKind::Sharpen { amount: value },
        (
            EffectKind::Stroke { color, thickness, offset, softness, .. },
            EffectNumber::Opacity,
        ) => EffectKind::Stroke { color, opacity: value, thickness, offset, softness },
        (
            EffectKind::Stroke { color, opacity, offset, softness, .. },
            EffectNumber::Thickness,
        ) => EffectKind::Stroke { color, opacity, thickness: value, offset, softness },
        (
            EffectKind::Stroke { color, opacity, thickness, softness, .. },
            EffectNumber::Offset,
        ) => EffectKind::Stroke { color, opacity, thickness, offset: value, softness },
        _ => k,
    }
}

impl Working {
    /// Every effect stands in its slot.
    pub open spec fn inv(self) -> bool {
        &&& self.hsb.kind.slot() == EffectSlot::HueSatBright
        &&& self.blur.kind.slot() == EffectSlot::Blur
        &&& self.sharpen.kind.slot() == EffectSlot::Sharpen
        &&& self.invert.kind.slot() == EffectSlot::Invert
        &&& self.stroke.kind.slot() == EffectSlot::Stroke
    }

    /// The effect of a slot.
    pub open spec fn at(self, slot: EffectSlot) -> Effect {
        match slot {
            EffectSlot::HueSatBright => self.hsb,
            EffectSlot::Blur => self.blur,
            EffectSlot::Sharpen => self.sharpen,
            EffectSlot::Invert => self.invert,
            EffectSlot::Stroke => self.stroke,
        }
    }

    /// The five with the effect of one slot replaced.
    pub open spec fn with(self, slot: EffectSlot, e: Effect) -> Working {
        match slot {
            EffectSlot::HueSatBright => Working { hsb: e, ..self },
            EffectSlot::Blur => Working { blur: e, ..self },
            EffectSlot::Sharpen => Working { sharpen: e, ..self },
            EffectSlot::Invert => Working { invert: e, ..self },
            EffectSlot::Stroke => Working { stroke: e, ..self },
        }
    }

    /// The five effects that a stack stands for.
    pub open spec fn of(effects: Seq<Effect>, defaults: EffectDefaults) -> Working {
        Working {
            hsb: found(effects, EffectSlot::HueSatBright, defaults.hue_sat_bright),
            blur: found(effects, EffectSlot::Blur, defaults.blur),
            sharpen: found(effects, EffectSlot::Sharpen, defaults.sharpen),
            invert: found(effects, EffectSlot::Invert, EffectKind::Invert),
            stroke: found(effects, EffectSlot::Stroke, defaults.stroke),
        }
    }

    /// The stack, bottom first.
    pub open spec fn stack(self) -> Seq<Effect> {
        seq![self.hsb, self.blur, self.sharpen, self.invert, self.stroke]
    }

    /// The five effects that a stack stands for: of each the first, and one that
    /// is missing is there switched off.
    pub fn from_data(effects: &Vec<Effect>, defaults: &EffectDefaults) -> (w: Working)
        ensures
            w == Working::of(effects@, *defaults),
            defaults.inv() ==> w.inv(),
    {
        proof {
            lemma_found_slot(effects@, EffectSlot::HueSatBright, defaults.hue_sat_bright);
            lemma_found_slot(effects@, EffectSlot::Blur, defaults.blur);
            lemma_found_slot(effects@, EffectSlot::Sharpen, defaults.sharpen);
            lemma_found_slot(effects@, EffectSlot::Invert, EffectKind::Invert);
            lemma_found_slot(effects@, EffectSlot::Stroke, defaults.stroke);
        }
        Working {
            hsb: find_effect(effects, EffectSlot::HueSatBright, defaults.hue_sat_bright),
            blur: find_effect(effects, EffectSlot::Blur, defaults.blur),
            sharpen: find_effect(effects, EffectSlot::Sharpen, defaults.sharpen),
            invert: find_effect(effects, EffectSlot::Invert, EffectKind::Invert),
            stroke: find_effect(effects, EffectSlot::Stroke, defaults.stroke),
        }
    }

    /// The stack, bottom first. An effect that is off stays in it.
    pub fn assemble(&self) -> (effects: Vec<Effect>)
        ensures
            effects@ == self.stack(),
    {
        let mut effects: Vec<Effect> = Vec::new();
        effects.push(self.hsb);
        effects.push(self.blur);
        effects.push(self.sharpen);
        effects.push(self.invert);
        effects.push(self.stroke);
        assert(effects@ =~= self.stack());
        effects
    }

    /// Switch an effect.
    pub fn toggle(&mut self, slot: EffectSlot, on: bool)
        ensures
            *final(self) == old(self).with(
                slot,
                Effect { enabled: on, ..old(self).at(slot) },
            ),
            old(self).inv() ==> final(self).inv(),
    {
        match slot {
            EffectSlot::HueSatBright => {
                self.hsb.enabled = on;
            },
            EffectSlot::Blur => {
                self.blur.enabled = on;
            },
            EffectSlot::Sharpen => {
                self.sharpen.enabled = on;
            },
            EffectSlot::Invert => {
                self.invert.enabled = on;
            },
            EffectSlot::Stroke => {
                self.stroke.enabled = on;
            },
        }
    }

    /// Set a number of an effect.
    pub fn set(&mut self, n: EffectNumber, value: Single)
        ensures
            *final(self) == old(self).with(
                n.slot(),
                Effect {
                    kind: with_number(old(self).at(n.slot()).kind, n, value),
                    ..old(self).at(n.slot())
                },
            ),
            old(self).inv() ==> final(self).inv(),
    {
        match n {
            EffectNumber::Hue | EffectNumber::Saturation | EffectNumber::Brightness => {
                self.hsb.kind = set_number(self.hsb.kind, n, value);
            },
            EffectNumber::RadiusX | EffectNumber::RadiusY => {
                self.blur.kind = set_number(self.blur.kind, n, value);
            },
            EffectNumber::Amount => {
                self.sharpen.kind = set_number(self.sharpen.kind, n, value);
            },
            EffectNumber::Opacity | EffectNumber::Thickness | EffectNumber::Offset => {
                self.stroke.kind = set_number(self.stroke.kind, n, value);
            },
        }
    }

    /// Set the color of the stroke.
    pub fn set_color(&mut self, value: Color)
        ensures
            *final(self) == (match old(self).stroke.kind {
                EffectKind::Stroke { opacity, thickness, offset, softness, .. } => Working {
                    stroke: Effect {
                        kind: EffectKind::Stroke {
                            color: value,
                            opacity,
                            thickness,
                            offset,
                            softness,
                        },
                        ..old(self).stroke
                    },
                    ..*old(self)
                },
                _ => *old(self),
            }),
            old(self).inv() ==> final(self).inv(),
    {
        match self.stroke.kind {
            EffectKind::Stroke { opacity, thickness, offset, softness, .. } => {
                self.stroke.kind =
                EffectKind::Stroke { color: value, opacity, thickness, offset, softness };
            },
            _ => {},
        }
    }

    /// Set how soft the stroke is.
    pub fn set_softness(&mut self, value: u32)
        ensures
            *final(self) == (match old(self).stroke.kind {
                EffectKind::Stroke { color, opacity, thickness, offset, .. } => Working {
                    stroke: Effect {
                        kind: EffectKind::Stroke {
                            color,
                            opacity,
                            thickness,
                            offset,
                            softness: value,
                        },
                        ..old(self).stroke
                    },
                    ..*old(self)
                },
                _ => *old(self),
            }),
            old(self).inv() ==> final(self).inv(),
    {
        match self.stroke.kind {
            EffectKind::Stroke { color, opacity, thickness, offset, .. } => {
                self.stroke.kind =
                EffectKind::Stroke { color, opacity, thickness, offset, softness: value };
            },
            _ => {},
        }
    }
}

proof fn lemma_found_slot(effects: Seq<Effect>, slot: EffectSlot, fallback: EffectKind)
    ensures
        fallback.slot() == slot ==> found(effects, slot, fallback).kind.slot() == slot,
    decreases effects.len(),
{
    if effects.len() > 0 && effects[0].kind.slot() != slot {
        lemma_found_slot(effects.drop_first(), slot, fallback);
    }
}

/// A stack that was taken apart and put together again stands for the same five
/// effects: none is lost, not even one that is off.
pub proof fn law_effects_survive_a_round_trip(w: Working, defaults: EffectDefaults)
    requires
        w.inv(),
    ensures
        Working::of(w.stack(), defaults) == w,
{
    reveal_with_fuel(found, 6);
    let s = w.stack();
    assert(s.drop_first() =~= seq![w.blur, w.sharpen, w.invert, w.stroke]);
    assert(s.drop_first().drop_first() =~= seq![w.sharpen, w.invert, w.stroke]);
    assert(s.drop_first().drop_first().drop_first() =~= seq![w.invert, w.stroke]);
    assert(s.drop_first().drop_first().drop_first().drop_first() =~= seq![w.stroke]);
}

/// Switching an effect off and on again gives back what it was.
pub proof fn law_toggling_keeps_the_settings(w: Working, slot: EffectSlot, on: bool)
    ensures
        w.with(slot, Effect { enabled: on, ..w.at(slot) }).at(slot).kind == w.at(slot).kind,
        w.with(slot, Effect { enabled: w.at(slot).enabled, ..w.at(slot) }) == w,
{
}

/// The editor of a layer's effects.
pub struct EffectEditor {
    /// The layer, told by a name that it keeps.
    pub layer: String,
    /// The stack when the editor was opened.
    pub before: Vec<Effect>,
    pub working: Working,
    /// The edits were applied.
    pub applied: bool,
}

impl EffectEditor {
    /// Open the editor on a layer.
    pub fn open(
        layer: String,
        before: Vec<Effect>,
        defaults: &EffectDefaults,
    ) -> (e: EffectEditor)
        ensures
            e.layer == layer,
            e.before == before,
            e.working == Working::of(before@, *defaults),
            !e.applied,
            defaults.inv() ==> e.working.inv(),
    {
        let working = Working::from_data(&before, defaults);
        EffectEditor { layer, before, working, applied: false }
    }

    /// The edits are applied. The stack to record as the new one, unless nothing
    /// changed.
    pub fn apply(&mut self) -> (record: Option<Vec<Effect>>)
        ensures
            final(self).applied,
            final(self).layer == old(self).layer,
            final(self).before == old(self).before,
            final(self).working == old(self).working,
            record is Some == !same_stack(old(self).working.stack(), old(self).before@),
            record matches Some(after) ==> after@ == old(self).working.stack(),
    {
        self.applied = true;
        let after = self.working.assemble();
        if is_same_stack(&after, &self.before) {
            None
        } else {
            Some(after)
        }
    }

    /// The window closes. The stack to put back: the one that the layer had when
    /// the editor was opened, unless the edits were applied.
    pub fn close(&self) -> (restored: Option<Vec<Effect>>)
        ensures
            restored is Some == !self.applied,
            restored matches Some(stack) ==> stack@ == self.before@,
    {
        if self.applied {
            return None;
        }
        let mut stack: Vec<Effect> = Vec::new();
        let mut i: usize = 0;
        while i < self.before.len()
            invariant
                i <= self.before@.len(),
                stack@ == self.before@.take(i as int),
            decreases self.before@.len() - i,
        {
            stack.push(self.before[i]);
            i = i + 1;
            assert(stack@ =~= self.before@.take(i as int));
        }
        assert(stack@ =~= self.before@);
        Some(stack)
    }
}

/// The place of a layer, which may have moved while the editor was open.
pub fn layer_idx(ids: &Vec<String>, id: &str) -> (r: Option<usize>)
    ensures
        match r {
            Some(i) => i < ids@.len() && ids@[i as int]@ == id@ && forall|k: int|
                0 <= k < i ==> #[trigger] ids@[k]@ != id@,
            None => forall|k: int| 0 <= k < ids@.len() ==> #[trigger] ids@[k]@ != id@,
        },
{
    let mut i: usize = 0;
    while i < ids.len()
        invariant
            i <= ids@.len(),
            forall|k: int| 0 <= k < i ==> #[trigger] ids@[k]@ != id@,
        decreases ids@.len() - i,
    {
        if same(ids[i].as_str(), id) {
            return Some(i);
        }
        i = i + 1;
    }
    None
}

/// What the adjustment action does.
#[derive(Clone, Copy, Debug, PartialEq, Eq, Structural)]
pub enum AdjustmentEntry {
    /// Open the editor on this layer.
    Edit(usize),
    /// Put a new layer on top first.
    Create,
}

/// What the adjustment action does: it edits the active layer if that is an
/// adjustment layer, and else puts a new one on top.
pub fn add_or_edit(active: Option<usize>, has_effects: bool) -> (e: AdjustmentEntry)
    ensures
        e == (match active {
            Some(idx) => if has_effects {
                AdjustmentEntry::Edit(idx)
            } else {
                AdjustmentEntry::Create
            },
            None => AdjustmentEntry::Create,
        }),
{
    match active {
        Some(idx) => if has_effects {
            AdjustmentEntry::Edit(idx)
        } else {
            AdjustmentEntry::Create
        },
        None => AdjustmentEntry::Create,
    }
}

/// The two radii of a blur and whether they are linked.
#[derive(Clone, Copy, Debug, PartialEq, Eq, Structural)]
pub struct RadiusLock {
    pub horizontal: Double,
    pub vertical: Double,
    pub locked: bool,
}

impl RadiusLock {
    /// The radii after the horizontal one was moved.
    pub open spec fn moved_horizontal(self, value: Double) -> RadiusLock {
        RadiusLock {
            horizontal: value,
            vertical: if self.locked {
                value
            } else {
                self.vertical
            },
            ..self
        }
    }

    /// The radii after the vertical one was moved.
    pub open spec fn moved_vertical(self, value: Double) -> RadiusLock {
        RadiusLock {
            horizontal: if self.locked {
                value
            } else {
                self.horizontal
            },
            vertical: value,
            ..self
        }
    }

    /// The radii after the link was switched.
    pub open spec fn switched(self, locked: bool) -> RadiusLock {
        RadiusLock {
            vertical: if locked {
                self.horizontal
            } else {
                self.vertical
            },
            locked,
            ..self
        }
    }

    /// The horizontal radius was moved.
    pub fn move_horizontal(&mut self, value: Double)
        ensures
            *final(self) == old(self).moved_horizontal(value),
    {
        self.horizontal = value;
        if self.locked {
            self.vertical = value;
        }
    }

    /// The vertical radius was moved.
    pub fn move_vertical(&mut self, value: Double)
        ensures
            *final(self) == old(self).moved_vertical(value),
    {
        self.vertical = value;
        if self.locked {
            self.horizontal = value;
        }
    }

    /// The link was switched: linking takes the horizontal radius for both.
    pub fn switch(&mut self, locked: bool)
        ensures
            *final(self) == old(self).switched(locked),
    {
        self.locked = locked;
        if locked {
            self.vertical = self.horizontal;
        }
    }

    /// The icon of the link.
    pub fn icon(&self) -> (n: &'static str)
        ensures
            n@ == (if self.locked {
                "changes-prevent-symbolic"@
            } else {
                "changes-allow-symbolic"@
            }),
    {
        if self.locked {
            "changes-prevent-symbolic"
        } else {
            "changes-allow-symbolic"
        }
    }
}

/// Linked radii are equal from the moment they were linked, whichever is moved.
pub proof fn law_linked_radii_are_equal(r: RadiusLock, value: Double)
    ensures
        r.switched(true).horizontal == r.switched(true).vertical,
        r.locked ==> r.moved_horizontal(value).horizontal == r.moved_horizontal(value).vertical,
        r.locked ==> r.moved_vertical(value).horizontal == r.moved_vertical(value).vertical,
        !r.locked ==> r.moved_horizontal(value).vertical == r.vertical,
        !r.locked ==> r.moved_vertical(value).horizontal == r.horizontal,
{
}

/// Where a stroke lies, by its offset.
pub fn offset_place(offset: Double) -> (w: &'static str)
    ensures
        w@ == (if offset.lt_spec(Double { bits: CENTERED_IN }) {
            "inside"@
        } else if (Double { bits: CENTERED_OUT }).lt_spec(offset) {
            "outside"@
        } else {
            "center"@
        }),
{
    if offset.less(Double { bits: CENTERED_IN }) {
        "inside"
    } else if (Double { bits: CENTERED_OUT }).less(offset) {
        "outside"
    } else {
        "center"
    }
}

/// Two effects do the same exactly where they are of one kind and every number of theirs
/// is the same, color and softness included; doing the same goes both ways.
pub proof fn law_effects_that_do_the_same(a: EffectKind, b: EffectKind)
    ensures
        same_kind(a, b) == same_kind(b, a),
        same_kind(a, b) ==> a.slot() == b.slot(),
        a is Invert && b is Invert ==> same_kind(a, b),
        a is Stroke && b is Stroke ==> (same_kind(a, b) <==> a->color == b->color && a->softness
            == b->softness && same_number(a->opacity, b->opacity) && same_number(
            a->thickness,
            b->thickness,
        ) && same_number(a->offset, b->offset)),
        a is Blur && b is Blur ==> (same_kind(a, b) <==> same_number(a->radius_x, b->radius_x)
            && same_number(a->radius_y, b->radius_y)),
        a is HueSatBright && b is HueSatBright ==> (same_kind(a, b) <==> same_number(
            a->hue_degrees,
            b->hue_degrees,
        ) && same_number(a->saturation, b->saturation) && same_number(
            a->brightness,
            b->brightness,
        )),
        a is Sharpen && b is Sharpen ==> (same_kind(a, b) <==> same_number(a->amount, b->amount)),
{
}

/// Two measures are the same number exactly where neither is less than the other and
/// both are numbers.
pub proof fn law_the_same_number(a: Single, b: Single)
    ensures
        same_number(a, b) <==> a.le_spec(b) && b.le_spec(a),
        same_number(a, b) ==> !a.lt_spec(b) && !b.lt_spec(a),
        a.nan() ==> !same_number(a, b),
        !a.nan() ==> same_number(a, a),
{
}

/// Stacks do the same only where they hold as many effects, each switched as its
/// counterpart and doing the same.
pub proof fn law_stacks_that_do_the_same(a: Vec<Effect>, b: Vec<Effect>, i: int)
    ensures
        same_stack(a@, b@) ==> a@.len() == b@.len(),
        same_stack(a@, b@) && 0 <= i < a@.len() ==> a@[i].enabled == b@[i].enabled && same_kind(
            a@[i].kind,
            b@[i].kind,
        ),
        a@.len() != b@.len() ==> !same_stack(a@, b@),
        a@.len() == b@.len() && 0 <= i < a@.len() && a@[i].enabled != b@[i].enabled ==> !same_stack(
            a@,
            b@,
        ),
{
}

/// The effect that is found for a slot is the first of that slot in the stack; where
/// there is none it is the given one, switched off.
pub proof fn law_the_first_effect_of_a_slot(
    effects: Seq<Effect>,
    slot: EffectSlot,
    fallback: EffectKind,
)
    ensures
        (forall|k: int| 0 <= k < effects.len() ==> (#[trigger] effects[k]).kind.slot() != slot)
            ==> found(effects, slot, fallback) == (Effect { kind: fallback, enabled: false }),
        (exists|k: int| 0 <= k < effects.len() && (#[trigger] effects[k]).kind.slot() == slot)
            ==> exists|i: int|
            0 <= i < effects.len() && found(effects, slot, fallback) == #[trigger] effects[i]
                && effects[i].kind.slot() == slot && forall|j: int|
                0 <= j < i ==> (#[trigger] effects[j]).kind.slot() != slot,
    decreases effects.len(),
{
    if effects.len() > 0 {
        let rest = effects.drop_first();
        assert(forall|k: int| 0 < k < effects.len() ==> #[trigger] effects[k] == rest[k - 1]);
        assert(forall|k: int| 0 <= k < rest.len() ==> #[trigger] rest[k] == effects[k + 1]);
        if effects[0].kind.slot() == slot {
            assert(found(effects, slot, fallback) == effects[0]);
        } else {
            law_the_first_effect_of_a_slot(rest, slot, fallback);
            if exists|k: int| 0 <= k < effects.len() && (#[trigger] effects[k]).kind.slot() == slot {
                let k = choose|k: int|
                    0 <= k < effects.len() && (#[trigger] effects[k]).kind.slot() == slot;
                assert(rest[k - 1].kind.slot() == slot);
                let i = choose|i: int|
                    0 <= i < rest.len() && found(rest, slot, fallback) == #[trigger] rest[i]
                        && rest[i].kind.slot() == slot && forall|j: int|
                        0 <= j < i ==> (#[trigger] rest[j]).kind.slot() != slot;
                assert(effects[i + 1] == rest[i]);
                assert forall|j: int| 0 <= j < i + 1 implies (#[trigger] effects[j]).kind.slot()
                    != slot by {
                    if j > 0 {
                        assert(rest[j - 1].kind.slot() != slot);
                    }
                }
            }
        }
    }
}

/// Each slot is the effect of its own name: read, replaced, and in its place of the
/// stack, bottom first.
pub proof fn law_each_slot_is_its_own_effect(w: Working, e: Effect, a: EffectSlot, b: EffectSlot)
    ensures
        w.at(EffectSlot::HueSatBright) == w.hsb,
        w.at(EffectSlot::Blur) == w.blur,
        w.at(EffectSlot::Sharpen) == w.sharpen,
        w.at(EffectSlot::Invert) == w.invert,
        w.at(EffectSlot::Stroke) == w.stroke,
        w.with(a, e).at(a) == e,
        a != b ==> w.with(a, e).at(b) == w.at(b),
        w.stack().len() == 5,
        w.stack()[0] == w.hsb && w.stack()[1] == w.blur && w.stack()[2] == w.sharpen
            && w.stack()[3] == w.invert && w.stack()[4] == w.stroke,
{
}

/// The effects of a kind belong to the slot of that kind.
pub proof fn law_kinds_and_their_slots(k: EffectKind)
    ensures
        k.slot() == EffectSlot::HueSatBright <==> k is HueSatBright,
        k.slot() == EffectSlot::Blur <==> k is Blur,
        k.slot() == EffectSlot::Sharpen <==> k is Sharpen,
        k.slot() == EffectSlot::Invert <==> k is Invert,
        k.slot() == EffectSlot::Stroke <==> k is Stroke,
{
}

/// A number that is set is the one that is told, and no other number of the effect
/// changes, nor its color and softness.
pub proof fn law_a_number_is_set_alone(k: EffectKind, n: EffectNumber, value: Single)
    ensures
        ({
            let l = with_number(k, n, value);
            &&& l.slot() == k.slot()
            &&& k.slot() != n.slot() ==> l == k
            &&& k is HueSatBright ==> {
                &&& n is Hue ==> l->hue_degrees == value
                &&& !(n is Hue) ==> l->hue_degrees == k->hue_degrees
                &&& n is Saturation ==> l->saturation == value
                &&& !(n is Saturation) ==> l->saturation == k->saturation
                &&& n is Brightness ==> l->brightness == value
                &&& !(n is Brightness) ==> l->brightness == k->brightness
            }
            &&& k is Blur ==> {
                &&& n is RadiusX ==> l->radius_x == value
                &&& !(n is RadiusX) ==> l->radius_x == k->radius_x
                &&& n is RadiusY ==> l->radius_y == value
                &&& !(n is RadiusY) ==> l->radius_y == k->radius_y
            }
            &&& k is Sharpen && n is Amount ==> l->amount == value
            &&& k is Stroke ==> {
                &&& l->color == k->color && l->softness == k->softness
                &&& n is Opacity ==> l->opacity == value
                &&& !(n is Opacity) ==> l->opacity == k->opacity
                &&& n is Thickness ==> l->thickness == value
                &&& !(n is Thickness) ==> l->thickness == k->thickness
                &&& n is Offset ==> l->offset == value
                &&& !(n is Offset) ==> l->offset == k->offset
            }
        }),
{
}

/// Each number belongs to the effect that has it.
pub proof fn law_numbers_and_their_effects(n: EffectNumber)
    ensures
        n.slot() == EffectSlot::HueSatBright <==> n is Hue || n is Saturation || n is Brightness,
        n.slot() == EffectSlot::Blur <==> n is RadiusX || n is RadiusY,
        n.slot() == EffectSlot::Sharpen <==> n is Amount,
        n.slot() == EffectSlot::Stroke <==> n is Opacity || n is Thickness || n is Offset,
{
}

/// Switching an effect, setting a number, the color or the softness changes that effect
/// and no other, and whether it is on only where it is switched.
pub proof fn law_edits_of_effects(
    a: &mut Working,
    slot: EffectSlot,
    on: bool,
    b: &mut Working,
    n: EffectNumber,
    value: Single,
    c: &mut Working,
    color: Color,
    d: &mut Working,
    softness: u32,
    other: EffectSlot,
)
    requires
        call_ensures(Working::toggle, (a, slot, on), ()),
        call_ensures(Working::set, (b, n, value), ()),
        call_ensures(Working::set_color, (c, color), ()),
        call_ensures(Working::set_softness, (d, softness), ()),
    ensures
        final(a).at(slot).enabled == on && final(a).at(slot).kind == old(a).at(slot).kind,
        other != slot ==> final(a).at(other) == old(a).at(other),
        final(b).at(n.slot()).enabled == old(b).at(n.slot()).enabled,
        final(b).at(n.slot()).kind == with_number(old(b).at(n.slot()).kind, n, value),
        other != n.slot() ==> final(b).at(other) == old(b).at(other),
        !(other is Stroke) ==> final(c).at(other) == old(c).at(other) && final(d).at(other)
            == old(d).at(other),
        final(c).stroke.enabled == old(c).stroke.enabled,
        final(d).stroke.enabled == old(d).stroke.enabled,
        old(c).stroke.kind is Stroke ==> final(c).stroke.kind == (EffectKind::Stroke {
            color,
            opacity: old(c).stroke.kind->opacity,
            thickness: old(c).stroke.kind->thickness,
            offset: old(c).stroke.kind->offset,
            softness: old(c).stroke.kind->softness,
        }),
        old(d).stroke.kind is Stroke ==> final(d).stroke.kind == (EffectKind::Stroke {
            color: old(d).stroke.kind->color,
            opacity: old(d).stroke.kind->opacity,
            thickness: old(d).stroke.kind->thickness,
            offset: old(d).stroke.kind->offset,
            softness,
        }),
{
}

/// What is applied is recorded exactly where it does something else than before, as the
/// five effects are; what is not applied is put back as it was when the window closes,
/// and what is applied is not.
pub proof fn law_applying_and_cancelling(
    e: &mut EffectEditor,
    record: Option<Vec<Effect>>,
    restored: Option<Vec<Effect>>,
    f: EffectEditor,
    cancelled: Option<Vec<Effect>>,
)
    requires
        call_ensures(EffectEditor::apply, (e,), record),
        call_ensures(EffectEditor::close, (&*final(e),), restored),
        !f.applied,
        call_ensures(EffectEditor::close, (&f,), cancelled),
    ensures
        record is None <==> same_stack(old(e).working.stack(), old(e).before@),
        record is Some ==> record->0@ == old(e).working.stack(),
        restored is None,
        cancelled is Some && cancelled->0@ == f.before@,
{
}

/// The editor opens on the effects that the layer has, with nothing applied; the action
/// edits the active layer where it has effects, and makes a new one where it has none.
pub proof fn law_opening_the_effects(
    layer: String,
    before: Vec<Effect>,
    defaults: EffectDefaults,
    e: EffectEditor,
    active: Option<usize>,
    has_effects: bool,
    entry: AdjustmentEntry,
)
    requires
        call_ensures(EffectEditor::open, (layer, before, &defaults), e),
        call_ensures(add_or_edit, (active, has_effects), entry),
    ensures
        e.layer@ == layer@ && e.before@ == before@ && !e.applied,
        e.working.hsb == found(before@, EffectSlot::HueSatBright, defaults.hue_sat_bright),
        e.working.blur == found(before@, EffectSlot::Blur, defaults.blur),
        e.working.sharpen == found(before@, EffectSlot::Sharpen, defaults.sharpen),
        e.working.invert == found(before@, EffectSlot::Invert, EffectKind::Invert),
        e.working.stroke == found(before@, EffectSlot::Stroke, defaults.stroke),
        entry is Edit <==> active is Some && has_effects,
        entry matches AdjustmentEntry::Edit(i) ==> active == Some(i),
{
}

/// A radius that is moved goes where it is moved, alone or with the other where they are
/// linked; linking takes the horizontal one, and unlinking moves neither.
pub proof fn law_radii_go_where_they_are_moved(
    a: &mut RadiusLock,
    b: &mut RadiusLock,
    c: &mut RadiusLock,
    value: Double,
    locked: bool,
    icon: &'static str,
)
    requires
        call_ensures(RadiusLock::move_horizontal, (a, value), ()),
        call_ensures(RadiusLock::move_vertical, (b, value), ()),
        call_ensures(RadiusLock::switch, (c, locked), ()),
        call_ensures(RadiusLock::icon, (&*final(c),), icon),
    ensures
        final(a).horizontal == value && final(a).locked == old(a).locked,
        final(a).vertical == if old(a).locked {
            value
        } else {
            old(a).vertical
        },
        final(b).vertical == value && final(b).locked == old(b).locked,
        final(b).horizontal == if old(b).locked {
            value
        } else {
            old(b).horizontal
        },
        final(c).locked == locked && final(c).horizontal == old(c).horizontal,
        locked ==> final(c).vertical == old(c).horizontal,
        !locked ==> final(c).vertical == old(c).vertical,
        locked ==> icon@ == "changes-prevent-symbolic"@,
        !locked ==> icon@ == "changes-allow-symbolic"@,
{
}

/// A stroke lies inside where its offset is clearly below nought, outside where it is
/// clearly above, and in the middle about nought.
pub proof fn law_where_a_stroke_lies(offset: Double, w: &'static str)
    requires
        call_ensures(offset_place, (offset,), w),
    ensures
        !offset.nan() && offset.place() < -0x3fd5_1eb8_51eb_851f ==> w@ == "inside"@,
        !offset.nan() && offset.place() > 0x3fd5_1eb8_51eb_851f ==> w@ == "outside"@,
        -0x3fd5_1eb8_51eb_851f <= offset.place() <= 0x3fd5_1eb8_51eb_851f ==> w@ == "center"@,
{
}

/// Moving a radius leaves the link as it is, and switching the link leaves the horizontal
/// radius. The color and the softness of a stroke are set alone, and of the other effects
/// nothing is touched.
pub proof fn law_what_a_control_leaves_alone(
    a: &mut RadiusLock,
    b: &mut RadiusLock,
    c: &mut RadiusLock,
    value: Double,
    locked: bool,
    w: &mut Working,
    color: Color,
    v: &mut Working,
    softness: u32,
)
    requires
        call_ensures(RadiusLock::move_horizontal, (a, value), ()),
        call_ensures(RadiusLock::move_vertical, (b, value), ()),
        call_ensures(RadiusLock::switch, (c, locked), ()),
        call_ensures(Working::set_color, (w, color), ()),
        call_ensures(Working::set_softness, (v, softness), ()),
    ensures
        final(a).locked == old(a).locked,
        final(b).locked == old(b).locked,
        final(c).locked == locked && final(c).horizontal == old(c).horizontal,
        !locked ==> final(c).vertical == old(c).vertical,
        final(w).hsb == old(w).hsb && final(w).blur == old(w).blur && final(w).sharpen == old(
            w,
        ).sharpen && final(w).invert == old(w).invert && final(w).stroke.enabled == old(
            w,
        ).stroke.enabled,
        final(v).hsb == old(v).hsb && final(v).blur == old(v).blur && final(v).sharpen == old(
            v,
        ).sharpen && final(v).invert == old(v).invert && final(v).stroke.enabled == old(
            v,
        ).stroke.enabled,
        old(w).stroke.kind is Stroke ==> final(w).stroke.kind is Stroke
            && final(w).stroke.kind->color == color && final(w).stroke.kind->softness == old(
            w,
        ).stroke.kind->softness && final(w).stroke.kind->opacity == old(w).stroke.kind->opacity
            && final(w).stroke.kind->thickness == old(w).stroke.kind->thickness
            && final(w).stroke.kind->offset == old(w).stroke.kind->offset,
        old(v).stroke.kind is Stroke ==> final(v).stroke.kind is Stroke
            && final(v).stroke.kind->softness == softness && final(v).stroke.kind->color == old(
            v,
        ).stroke.kind->color && final(v).stroke.kind->opacity == old(v).stroke.kind->opacity
            && final(v).stroke.kind->thickness == old(v).stroke.kind->thickness
            && final(v).stroke.kind->offset == old(v).stroke.kind->offset,
{
}

} // verus!

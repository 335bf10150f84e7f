//! The brush stroke: its capture for history, and the shape correction that
//! takes over when the pen rests.
//!
//! When the pen rests for a while during a stroke, a recognised shape takes the
//! stroke's place and the stroke glides onto it. Lifting the pen, or undoing,
//! while it glides lands the final shape at once. Whichever way a stroke ends,
//! it is recorded once.

use vstd::prelude::*;

use crate::geometry::{Color, InputSample, Point};
use crate::ieee::Single;

verus! {

/// Frames of the glide onto a corrected shape.
pub const TOTAL_FRAMES: u32 = 20;

/// A recognised shape.
#[derive(Clone, Copy, Debug, PartialEq, Eq, Structural)]
pub enum ShapeKind {
    Line,
    Ellipse,
    Rectangle,
}

/// When and how strokes are corrected.
#[derive(Clone, Copy, Debug, PartialEq, Eq, Structural)]
pub struct ShapeCorrection {
    pub enabled: bool,
    pub trigger_delay_ms: u32,
    pub animation_speed_ms: u32,
    pub correct_line: bool,
    pub correct_circle: bool,
    pub correct_rectangle: bool,
}

/// The timer that a stroke holds.
#[derive(Clone, Copy, Debug, PartialEq, Eq, Structural)]
pub enum StrokeTimer {
    /// None is running.
    Off,
    /// Fires once the pen has rested.
    Idle,
    /// Drives the glide, at this frame.
    Glide(u32),
}

/// The layer that a stroke goes to, captured when it began.
pub struct StrokeTarget {
    pub idx: usize,
    pub id: String,
}

/// A stroke's paint.
#[derive(Clone, Copy, Debug, PartialEq, Eq, Structural)]
pub struct StrokePaint {
    pub color: Color,
    pub opacity: Single,
    pub erase: bool,
}

/// The stroke in progress.
pub struct Stroke {
    pub samples: Vec<InputSample>,
    pub paint: StrokePaint,
    pub correction: ShapeCorrection,
    pub timer: StrokeTimer,
    /// The samples of the shape that the stroke glides onto.
    pub corrected: Option<Vec<InputSample>>,
    pub target: Option<StrokeTarget>,
    /// Drawing Assist holds the stroke to a guide line.
    pub assisted: bool,
}

/// A stroke as a value.
pub ghost struct StrokeView {
    pub samples: Seq<InputSample>,
    pub paint: StrokePaint,
    pub correction: ShapeCorrection,
    pub timer: StrokeTimer,
    pub corrected: Option<Seq<InputSample>>,
    pub target: Option<(usize, Seq<char>)>,
    pub assisted: bool,
}

/// A stroke's target as a value.
pub open spec fn target_view(t: Option<StrokeTarget>) -> Option<(usize, Seq<char>)> {
    match t {
        Some(t) => Some((t.idx, t.id@)),
        None => None,
    }
}

/// Samples as a value.
pub open spec fn samples_view(s: Option<Vec<InputSample>>) -> Option<Seq<InputSample>> {
    match s {
        Some(s) => Some(s@),
        None => None,
    }
}

impl View for Stroke {
    type V = StrokeView;

    open spec fn view(&self) -> StrokeView {
        StrokeView {
            samples: self.samples@,
            paint: self.paint,
            correction: self.correction,
            timer: self.timer,
            corrected: samples_view(self.corrected),
            target: target_view(self.target),
            assisted: self.assisted,
        }
    }
}

impl StrokeView {
    /// The stroke once it has been handed over to be committed and recorded:
    /// nothing of it is left to hand over.
    pub open spec fn landed(self) -> StrokeView {
        StrokeView { timer: StrokeTimer::Off, corrected: None, target: None, ..self }
    }
}

impl ShapeCorrection {
    /// Whether this kind of shape is corrected.
    pub open spec fn corrects(self, kind: ShapeKind) -> bool {
        match kind {
            ShapeKind::Line => self.correct_line,
            ShapeKind::Ellipse => self.correct_circle,
            ShapeKind::Rectangle => self.correct_rectangle,
        }
    }

    /// Whether this kind of shape is corrected.
    pub fn allows(self, kind: ShapeKind) -> (r: bool)
        ensures
            r == self.corrects(kind),
    {
        match kind {
            ShapeKind::Line => self.correct_line,
            ShapeKind::Ellipse => self.correct_circle,
            ShapeKind::Rectangle => self.correct_rectangle,
        }
    }
}

/// The paint of a new stroke. An adjustment's mask is grayscale and is not
/// erased.
pub fn stroke_paint(
    color: Color,
    gray: Color,
    opacity: Single,
    eraser: bool,
    on_adjustment: bool,
) -> (p: StrokePaint)
    ensures
        p == (StrokePaint {
            color: if on_adjustment {
                gray
            } else {
                color
            },
            opacity,
            erase: eraser && !on_adjustment,
        }),
{
    StrokePaint {
        color: if on_adjustment {
            gray
        } else {
            color
        },
        opacity,
        erase: !on_adjustment && eraser,
    }
}

/// The corrected stroke: every sample moves to its place on the shape and keeps
/// how the pen was held.
pub open spec fn moved(samples: Seq<InputSample>, places: Seq<Point>) -> Seq<InputSample> {
    Seq::new(
        samples.len(),
        |i: int| InputSample { position: places[i], ..samples[i] },
    )
}

/// The corrected stroke: every sample moves to its place on the shape and keeps
/// how the pen was held.
pub fn move_samples(samples: &Vec<InputSample>, places: &Vec<Point>) -> (r: Vec<InputSample>)
    requires
        samples@.len() == places@.len(),
    ensures
        r@ == moved(samples@, places@),
{
    let mut out: Vec<InputSample> = Vec::with_capacity(samples.len());
    let mut i: usize = 0;
    while i < samples.len()
        invariant
            i <= samples.len(),
            samples@.len() == places@.len(),
            out@ == moved(samples@, places@).take(i as int),
        decreases samples.len() - i,
    {
        let s = samples[i];
        out.push(
            InputSample {
                position: places[i],
                pressure: s.pressure,
                tilt_x: s.tilt_x,
                tilt_y: s.tilt_y,
                rotation: s.rotation,
                time_ms: s.time_ms,
            },
        );
        assert(out@ =~= moved(samples@, places@).take(i + 1));
        i = i + 1;
    }
    assert(out@ =~= moved(samples@, places@));
    out
}

/// Milliseconds between two frames of the glide.
pub fn frame_interval(animation_speed_ms: u32) -> (ms: u32)
    ensures
        ms == (if animation_speed_ms / TOTAL_FRAMES == 0 {
            1
        } else {
            animation_speed_ms / TOTAL_FRAMES
        }),
        ms >= 1,
{
    let ms: u32 = animation_speed_ms / TOTAL_FRAMES;
    if ms < 1 {
        1
    } else {
        ms
    }
}

/// How one frame of the glide went on the canvas.
#[derive(Clone, Copy, Debug, PartialEq, Eq, Structural)]
pub enum FrameDrawn {
    /// The stroke buffer could not be started afresh.
    NoBuffer,
    /// A stamp failed.
    Broken,
    /// The frame is in the buffer.
    Whole,
}

/// One call that draws samples into a fresh stroke buffer.
#[derive(Clone, Copy, Debug, PartialEq, Eq, Structural)]
pub enum RedrawCall {
    /// Drop what the buffer holds.
    Discard,
    /// Start the buffer afresh.
    Begin,
    /// Have the engine begin with the first sample.
    First,
    /// Have the engine take the sample at this place.
    Next(usize),
    /// Have the engine end the stroke.
    End,
}

/// The calls that draw so many samples into a fresh stroke buffer.
pub open spec fn redraw_spec(samples: nat) -> Seq<RedrawCall> {
    seq![RedrawCall::Discard, RedrawCall::Begin] + Seq::new(
        samples,
        |i: int| if i == 0 {
            RedrawCall::First
        } else {
            RedrawCall::Next(i as usize)
        },
    ) + seq![RedrawCall::End]
}

/// The calls that draw so many samples into a fresh stroke buffer. They are made
/// one after the other until one fails.
pub fn redraw_calls(samples: usize) -> (calls: Vec<RedrawCall>)
    ensures
        calls@ == redraw_spec(samples as nat),
{
    let mut calls: Vec<RedrawCall> = Vec::new();
    calls.push(RedrawCall::Discard);
    calls.push(RedrawCall::Begin);
    let mut i: usize = 0;
    while i < samples
        invariant
            i <= samples,
            calls@ == redraw_spec(i as nat).drop_last(),
        decreases samples - i,
    {
        calls.push(
            if i == 0 {
                RedrawCall::First
            } else {
                RedrawCall::Next(i)
            },
        );
        assert(calls@ =~= redraw_spec((i + 1) as nat).drop_last());
        i = i + 1;
    }
    calls.push(RedrawCall::End);
    assert(calls@ =~= redraw_spec(samples as nat));
    calls
}

/// How a frame went on the canvas, given the first call that failed: without a
/// fresh buffer nothing was drawn, and any later failure leaves a broken frame.
pub fn frame_drawn(failed: Option<usize>) -> (d: FrameDrawn)
    ensures
        d == (match failed {
            None => FrameDrawn::Whole,
            Some(i) => if i < 2 {
                FrameDrawn::NoBuffer
            } else {
                FrameDrawn::Broken
            },
        }),
{
    match failed {
        None => FrameDrawn::Whole,
        Some(i) => if i < 2 {
            FrameDrawn::NoBuffer
        } else {
            FrameDrawn::Broken
        },
    }
}

/// What follows one frame of the glide.
pub enum FrameNext {
    /// Give up; lifting the pen still lands the shape.
    Stop,
    /// The next frame comes.
    Go,
    /// The shape is drawn: commit it and record it for this target.
    Commit(Option<StrokeTarget>),
    /// Drop what the buffer holds.
    Discard,
}

/// How a stroke ends.
pub enum StrokeEnd {
    /// It was gliding: draw these samples at once, then commit and record them
    /// for this target; where drawing fails, drop the stroke.
    Corrected(Vec<InputSample>, Option<StrokeTarget>),
    /// Commit it as it was drawn and record it for this target.
    Freehand(Option<StrokeTarget>),
}

impl Stroke {
    /// No stroke.
    pub fn new(paint: StrokePaint, correction: ShapeCorrection) -> (s: Stroke)
        ensures
            s@ == (StrokeView {
                samples: Seq::empty(),
                paint,
                correction,
                timer: StrokeTimer::Off,
                corrected: None,
                target: None,
                assisted: false,
            }),
    {
        let s = Stroke {
            samples: Vec::new(),
            paint,
            correction,
            timer: StrokeTimer::Off,
            corrected: None,
            target: None,
            assisted: false,
        };
        assert(s@.samples =~= Seq::empty());
        s
    }

    /// Begin a stroke. A smudging brush paints into the layer as it goes, so it
    /// is never corrected.
    pub fn begin(
        &mut self,
        first: InputSample,
        paint: StrokePaint,
        correction: ShapeCorrection,
        smudge: bool,
        target: Option<StrokeTarget>,
        assisted: bool,
    )
        ensures
            final(self)@ == (StrokeView {
                samples: seq![first],
                paint,
                correction: ShapeCorrection {
                    enabled: correction.enabled && !smudge,
                    ..correction
                },
                timer: StrokeTimer::Off,
                corrected: None,
                target: target_view(target),
                assisted,
            }),
    {
        self.samples = Vec::new();
        self.samples.push(first);
        self.paint = paint;
        self.correction = ShapeCorrection {
            enabled: correction.enabled && !smudge,
            trigger_delay_ms: correction.trigger_delay_ms,
            animation_speed_ms: correction.animation_speed_ms,
            correct_line: correction.correct_line,
            correct_circle: correction.correct_circle,
            correct_rectangle: correction.correct_rectangle,
        };
        self.timer = StrokeTimer::Off;
        self.corrected = None;
        self.target = target;
        self.assisted = assisted;
        assert(self@.samples =~= seq![first]);
    }

    /// Whether a resting pen is to correct the stroke: not while a guide line
    /// holds it, and not with a brush whose overlaps are the point.
    pub open spec fn correctable(v: StrokeView, buildup: bool) -> bool {
        !v.assisted && v.correction.enabled && !buildup
    }

    /// Take the next sample, unless the engine has finished the stroke. The
    /// result is the delay of the idle timer to start, if one is to run; any
    /// timer that was running is cancelled.
    pub fn extend(&mut self, drawing: bool, sample: InputSample, buildup: bool) -> (delay: Option<
        Option<u32>,
    >)
        ensures
            if !drawing {
                delay is None && final(self)@ == old(self)@
            } else {
                let rest = Stroke::correctable(old(self)@, buildup);
                &&& final(self)@ == (StrokeView {
                    samples: old(self)@.samples.push(sample),
                    timer: if rest {
                        StrokeTimer::Idle
                    } else {
                        StrokeTimer::Off
                    },
                    ..old(self)@
                })
                &&& delay == Some(
                    if rest {
                        Some(old(self).correction.trigger_delay_ms)
                    } else {
                        None
                    },
                )
            },
    {
        if !drawing {
            return None;
        }
        self.samples.push(sample);
        self.timer = StrokeTimer::Off;
        if self.assisted || !self.correction.enabled || buildup {
            return Some(None);
        }
        self.timer = StrokeTimer::Idle;
        Some(Some(self.correction.trigger_delay_ms))
    }

    /// The pen has rested. True goes on to correct the stroke: it is still being
    /// drawn, a shape was recognised, and shapes of its kind are corrected.
    pub fn rested(&mut self, drawing: bool, shape: Option<ShapeKind>) -> (go: bool)
        ensures
            final(self)@ == (StrokeView { timer: StrokeTimer::Off, ..old(self)@ }),
            go == (drawing && (shape matches Some(kind) && old(self).correction.corrects(kind))),
    {
        self.timer = StrokeTimer::Off;
        if !drawing {
            return false;
        }
        match shape {
            None => false,
            Some(kind) => self.correction.allows(kind),
        }
    }

    /// The shape is known: each sample has its place on it. The result is the
    /// frame interval of the glide; none where the places do not match the
    /// samples one for one.
    pub fn correct(&mut self, places: &Vec<Point>) -> (interval: Option<u32>)
        ensures
            if places@.len() != old(self)@.samples.len() {
                interval is None && final(self)@ == old(self)@
            } else {
                &&& interval matches Some(ms)
                &&& ms == (if old(self).correction.animation_speed_ms / TOTAL_FRAMES == 0 {
                    1
                } else {
                    old(self).correction.animation_speed_ms / TOTAL_FRAMES
                })
                &&& final(self)@ == (StrokeView {
                    corrected: Some(moved(old(self)@.samples, places@)),
                    timer: StrokeTimer::Glide(0),
                    ..old(self)@
                })
            },
    {
        if places.len() != self.samples.len() {
            return None;
        }
        self.corrected = Some(move_samples(&self.samples, places));
        self.timer = StrokeTimer::Glide(0);
        Some(frame_interval(self.correction.animation_speed_ms))
    }

    /// One frame of the glide went so. The last frame settles the shape.
    pub fn frame(&mut self, drawn: FrameDrawn) -> (next: FrameNext)
        requires
            old(self).timer is Glide,
            old(self).timer->Glide_0 < TOTAL_FRAMES,
        ensures
            ({
                let f = old(self).timer->Glide_0;
                match drawn {
                    FrameDrawn::NoBuffer => {
                        &&& next is Stop
                        &&& final(self)@ == (StrokeView { timer: StrokeTimer::Off, ..old(self)@ })
                    },
                    FrameDrawn::Broken => {
                        &&& next is Discard
                        &&& final(self)@ == (StrokeView {
                            timer: StrokeTimer::Off,
                            corrected: None,
                            ..old(self)@
                        })
                    },
                    FrameDrawn::Whole => if f + 1 == TOTAL_FRAMES {
                        &&& next matches FrameNext::Commit(target)
                        &&& target_view(target) == old(self)@.target
                        &&& final(self)@ == old(self)@.landed()
                    } else {
                        &&& next is Go
                        &&& final(self)@ == (StrokeView {
                            timer: StrokeTimer::Glide((f + 1) as u32),
                            ..old(self)@
                        })
                    },
                }
            }),
    {
        let f: u32 = match self.timer {
            StrokeTimer::Glide(f) => f,
            _ => 0,
        };
        match drawn {
            FrameDrawn::NoBuffer => {
                self.timer = StrokeTimer::Off;
                FrameNext::Stop
            },
            FrameDrawn::Broken => {
                self.corrected = None;
                self.timer = StrokeTimer::Off;
                FrameNext::Discard
            },
            FrameDrawn::Whole => {
                if f + 1 >= TOTAL_FRAMES {
                    self.corrected = None;
                    self.timer = StrokeTimer::Off;
                    FrameNext::Commit(self.target.take())
                } else {
                    self.timer = StrokeTimer::Glide(f + 1);
                    FrameNext::Go
                }
            },
        }
    }

    /// The pen is up: any timer is cancelled, and a stroke that was gliding
    /// lands on its shape.
    pub fn end(&mut self) -> (r: StrokeEnd)
        ensures
            final(self)@ == old(self)@.landed(),
            match old(self)@.corrected {
                Some(samples) => {
                    &&& r matches StrokeEnd::Corrected(s, target)
                    &&& s@ == samples
                    &&& target_view(target) == old(self)@.target
                },
                None => {
                    &&& r matches StrokeEnd::Freehand(target)
                    &&& target_view(target) == old(self)@.target
                },
            },
    {
        self.timer = StrokeTimer::Off;
        let target = self.target.take();
        match self.corrected.take() {
            Some(samples) => StrokeEnd::Corrected(samples, target),
            None => StrokeEnd::Freehand(target),
        }
    }

    /// Whether a stroke is still to be landed before history may move.
    pub fn pending(&self, drawing: bool) -> (r: bool)
        ensures
            r == (self@.corrected is Some || drawing),
    {
        self.corrected.is_some() || drawing
    }
}

/// The pixels to measure a committed stroke against: those read just before the
/// commit, else those cut from a snapshot of the whole layer. None where there
/// are neither, or where they are not as many as those after it.
pub fn before_region(
    read: Option<Vec<u8>>,
    cut: Option<Vec<u8>>,
    after: &Vec<u8>,
) -> (r: Option<Vec<u8>>)
    ensures
        ({
            let chosen = if read is Some {
                read
            } else {
                cut
            };
            if chosen is Some && chosen->Some_0@.len() == after@.len() {
                r == chosen
            } else {
                r is None
            }
        }),
{
    let chosen = match read {
        Some(buf) => Some(buf),
        None => cut,
    };
    match chosen {
        Some(buf) => if buf.len() == after.len() {
            Some(buf)
        } else {
            None
        },
        None => None,
    }
}

/// A stroke is recorded at most once: the last frame of the glide and the lifted
/// pen both hand the target over and leave none, so whichever comes second has
/// nothing to record and lands nothing.
pub proof fn law_stroke_is_recorded_once(v: StrokeView)
    ensures
        v.landed().target is None,
        v.landed().corrected is None,
        !(v.landed().timer is Glide),
        v.landed().landed() == v.landed(),
{
}

/// A corrected stroke has the samples of the drawn one: as many, at the same
/// times, with the pen held in the same way.
pub proof fn law_correction_keeps_pen_dynamics(
    samples: Seq<InputSample>,
    places: Seq<Point>,
    i: int,
)
    requires
        samples.len() == places.len(),
        0 <= i < samples.len(),
    ensures
        moved(samples, places).len() == samples.len(),
        moved(samples, places)[i].position == places[i],
        moved(samples, places)[i].pressure == samples[i].pressure,
        moved(samples, places)[i].tilt_x == samples[i].tilt_x,
        moved(samples, places)[i].tilt_y == samples[i].tilt_y,
        moved(samples, places)[i].rotation == samples[i].rotation,
        moved(samples, places)[i].time_ms == samples[i].time_ms,
{
}

/// Whether a recognised shape is corrected depends on the switch of its own kind alone:
/// a line's on `correct_line`, an ellipse's on `correct_circle` and a rectangle's on
/// `correct_rectangle`. Turning that switch turns the answer, and turning any other
/// leaves it.
pub proof fn law_each_kind_has_its_own_switch(
    c: ShapeCorrection,
    line: bool,
    ellipse: bool,
    rectangle: bool,
    on: bool,
)
    requires
        call_ensures(ShapeCorrection::allows, (c, ShapeKind::Line), line),
        call_ensures(ShapeCorrection::allows, (c, ShapeKind::Ellipse), ellipse),
        call_ensures(ShapeCorrection::allows, (c, ShapeKind::Rectangle), rectangle),
    ensures
        line <==> c.correct_line,
        ellipse <==> c.correct_circle,
        rectangle <==> c.correct_rectangle,
        ({
            let d = ShapeCorrection { correct_line: on, ..c };
            &&& d.corrects(ShapeKind::Line) == on
            &&& d.corrects(ShapeKind::Ellipse) == ellipse
            &&& d.corrects(ShapeKind::Rectangle) == rectangle
        }),
        ({
            let d = ShapeCorrection { correct_circle: on, ..c };
            &&& d.corrects(ShapeKind::Line) == line
            &&& d.corrects(ShapeKind::Ellipse) == on
            &&& d.corrects(ShapeKind::Rectangle) == rectangle
        }),
        ({
            let d = ShapeCorrection { correct_rectangle: on, ..c };
            &&& d.corrects(ShapeKind::Line) == line
            &&& d.corrects(ShapeKind::Ellipse) == ellipse
            &&& d.corrects(ShapeKind::Rectangle) == on
        }),
{
}

/// A pen that rests corrects a stroke exactly while it is being drawn and a shape was
/// recognised whose own switch is on. Only the timer goes, either way.
pub proof fn law_a_resting_pen_corrects_by_the_kinds_switch(
    s: &mut Stroke,
    drawing: bool,
    shape: Option<ShapeKind>,
    go: bool,
)
    requires
        call_ensures(Stroke::rested, (s, drawing, shape), go),
    ensures
        go ==> drawing && shape is Some,
        drawing && shape == Some(ShapeKind::Line) ==> go == old(s).correction.correct_line,
        drawing && shape == Some(ShapeKind::Ellipse) ==> go == old(s).correction.correct_circle,
        drawing && shape == Some(ShapeKind::Rectangle) ==> go
            == old(s).correction.correct_rectangle,
        final(s).timer is Off,
        final(s).samples@ == old(s).samples@,
        final(s)@.corrected == old(s)@.corrected,
        final(s)@.target == old(s)@.target,
        final(s).correction == old(s).correction,
{
}

/// A new stroke holds its first sample and nothing of the one before it. Only smudging
/// takes correction from it; every other switch is as it was set.
pub proof fn law_a_stroke_begins_afresh(
    s: &mut Stroke,
    first: InputSample,
    paint: StrokePaint,
    correction: ShapeCorrection,
    smudge: bool,
    target: Option<StrokeTarget>,
    assisted: bool,
)
    requires
        call_ensures(Stroke::begin, (s, first, paint, correction, smudge, target, assisted), ()),
    ensures
        final(s).samples@ == seq![first],
        final(s).paint == paint,
        final(s).correction.enabled <==> correction.enabled && !smudge,
        final(s).correction.trigger_delay_ms == correction.trigger_delay_ms,
        final(s).correction.animation_speed_ms == correction.animation_speed_ms,
        final(s).correction.correct_line == correction.correct_line,
        final(s).correction.correct_circle == correction.correct_circle,
        final(s).correction.correct_rectangle == correction.correct_rectangle,
        final(s).timer is Off,
        final(s).corrected is None,
        target is Some <==> final(s).target is Some,
        target is Some ==> final(s).target->0.idx == target->0.idx && final(s).target->0.id@
            == target->0.id@,
        final(s).assisted == assisted,
{
}

/// A sample is added at the end of a stroke that is being drawn. The idle timer then
/// runs, with the delay that was set, exactly where strokes are corrected, no guide
/// holds this one and the brush does not build up.
pub proof fn law_a_sample_restarts_the_idle_timer(
    s: &mut Stroke,
    drawing: bool,
    sample: InputSample,
    buildup: bool,
    delay: Option<Option<u32>>,
)
    requires
        call_ensures(Stroke::extend, (s, drawing, sample, buildup), delay),
    ensures
        delay is Some <==> drawing,
        !drawing ==> final(s)@ == old(s)@,
        drawing ==> {
            let idle = old(s).correction.enabled && !old(s).assisted && !buildup;
            &&& final(s).samples@.len() == old(s).samples@.len() + 1
            &&& final(s).samples@.last() == sample
            &&& forall|i: int|
                0 <= i < old(s).samples@.len() ==> #[trigger] final(s).samples@[i]
                    == old(s).samples@[i]
            &&& delay->0 is Some <==> idle
            &&& final(s).timer is Idle <==> idle
            &&& final(s).timer is Off <==> !idle
            &&& delay->0 matches Some(ms) ==> ms == old(s).correction.trigger_delay_ms
            &&& final(s)@.corrected == old(s)@.corrected
            &&& final(s)@.target == old(s)@.target
            &&& final(s).paint == old(s).paint
        },
{
}

/// The glide has as many frames as it counts: each whole frame moves it on by one, the
/// last one hands the target over, and from the start it takes all of them.
pub proof fn law_the_glide_ends_with_its_last_frame(
    s: &mut Stroke,
    drawn: FrameDrawn,
    next: FrameNext,
    f: u32,
)
    requires
        old(s).timer == StrokeTimer::Glide(f),
        f < TOTAL_FRAMES,
        call_ensures(Stroke::frame, (s, drawn), next),
    ensures
        next is Go <==> drawn is Whole && f + 1 < 20,
        next is Commit <==> drawn is Whole && f + 1 == 20,
        next is Discard <==> drawn is Broken,
        next is Stop <==> drawn is NoBuffer,
        next is Go ==> final(s).timer is Glide && final(s).timer->Glide_0 == f + 1
            && final(s)@.corrected == old(s)@.corrected && final(s)@.target == old(s)@.target,
        !(next is Go) ==> final(s).timer is Off,
        next is Stop ==> final(s)@.corrected == old(s)@.corrected && final(s)@.target
            == old(s)@.target,
        next is Discard ==> final(s).corrected is None && final(s)@.target == old(s)@.target,
        next matches FrameNext::Commit(target) ==> final(s).corrected is None
            && final(s).target is None && target_view(target) == old(s)@.target,
        final(s).samples@ == old(s).samples@,
{
}

/// A shape takes a stroke over only where it has a place for every sample; then the
/// glide starts at its first frame, at an even pace that is never faster than a
/// millisecond.
pub proof fn law_a_shape_takes_over_from_its_first_frame(
    s: &mut Stroke,
    places: Vec<Point>,
    interval: Option<u32>,
)
    requires
        call_ensures(Stroke::correct, (s, &places), interval),
    ensures
        interval is Some <==> places@.len() == old(s).samples@.len(),
        interval is None ==> final(s)@ == old(s)@,
        interval matches Some(ms) ==> {
            &&& ms >= 1
            &&& ms > 1 ==> 20 * ms <= old(s).correction.animation_speed_ms
            &&& old(s).correction.animation_speed_ms < 20 * (ms + 1)
            &&& final(s).timer == StrokeTimer::Glide(0)
            &&& final(s).corrected is Some
            &&& final(s).corrected->0@.len() == places@.len()
            &&& final(s).samples@ == old(s).samples@
            &&& final(s)@.target == old(s)@.target
            &&& forall|i: int|
                0 <= i < places@.len() ==> (#[trigger] final(s).corrected->0@[i]).position
                    == places@[i]
        },
{
}

/// A lifted pen lands the shape that the stroke glides onto, or the stroke as it was
/// drawn where it does not, for the target that it began with, and leaves nothing to
/// land.
pub proof fn law_a_lifted_pen_lands_the_stroke(s: &mut Stroke, r: StrokeEnd, again: bool)
    requires
        call_ensures(Stroke::end, (s,), r),
        call_ensures(Stroke::pending, (&*final(s), false), again),
    ensures
        r is Corrected <==> old(s).corrected is Some,
        match r {
            StrokeEnd::Corrected(samples, target) => samples@ == old(s).corrected->0@
                && target_view(target) == old(s)@.target,
            StrokeEnd::Freehand(target) => target_view(target) == old(s)@.target,
        },
        !again,
        final(s).target is None,
        final(s).timer is Off,
        final(s).samples@ == old(s).samples@,
        final(s).correction == old(s).correction,
        final(s).paint == old(s).paint,
{
}

/// A frame is drawn on a buffer that is first emptied and begun, sample by sample in
/// their order, and is ended once: a failure of the first two leaves no buffer, and any
/// later one a broken frame.
pub proof fn law_a_frame_is_drawn_in_order(samples: nat, i: int, failed: Option<usize>, d: FrameDrawn)
    requires
        samples <= usize::MAX,
        call_ensures(frame_drawn, (failed,), d),
    ensures
        ({
            let calls = redraw_spec(samples);
            &&& calls.len() == samples + 3
            &&& calls[0] == RedrawCall::Discard && calls[1] == RedrawCall::Begin
            &&& calls.last() == RedrawCall::End
            &&& samples > 0 ==> calls[2] == RedrawCall::First
            &&& 1 <= i < samples ==> calls[i + 2] == RedrawCall::Next(i as usize)
        }),
        d is Whole <==> failed is None,
        d is NoBuffer <==> failed is Some && failed->0 <= 1,
        d is Broken <==> failed is Some && failed->0 >= 2,
{
}

/// The eraser erases and paints in its color anywhere but on an adjustment's mask, which
/// is painted in gray.
pub proof fn law_a_mask_is_painted_in_gray(
    color: Color,
    gray: Color,
    opacity: Single,
    eraser: bool,
    on_adjustment: bool,
    p: StrokePaint,
)
    requires
        call_ensures(stroke_paint, (color, gray, opacity, eraser, on_adjustment), p),
    ensures
        on_adjustment ==> p.color == gray && !p.erase,
        !on_adjustment ==> p.color == color && p.erase == eraser,
        p.opacity == opacity,
{
}

/// What a stroke is measured against was read before it where it could be, and is as
/// large as what is there after it; else there is nothing to measure against.
pub proof fn law_a_stroke_is_measured_against_what_was_there(
    read: Option<Vec<u8>>,
    cut: Option<Vec<u8>>,
    after: Vec<u8>,
    r: Option<Vec<u8>>,
)
    requires
        call_ensures(before_region, (read, cut, &after), r),
    ensures
        r is Some ==> r->0@.len() == after@.len(),
        r is Some && read is Some ==> r == read,
        r is Some && read is None ==> r == cut,
        read is Some && read->0@.len() == after@.len() ==> r is Some,
        read is None && cut is Some && cut->0@.len() == after@.len() ==> r is Some,
{
}

/// Until a stroke has landed history waits: while the pen draws, and while a shape is
/// still to land.
pub proof fn law_history_waits_for_a_stroke(s: Stroke, drawing: bool, waits: bool)
    requires
        call_ensures(Stroke::pending, (&s, drawing), waits),
    ensures
        waits <==> drawing || s.corrected is Some,
{
}

/// The frames of the glide are evenly
/// spaced over its time, and a millisecond apart at least.
pub proof fn law_frames_are_evenly_spaced(speed: u32, ms: u32)
    requires
        call_ensures(frame_interval, (speed,), ms),
    ensures
        ms >= 1,
        speed >= 20 ==> 20 * ms <= speed < 20 * (ms + 1),
        speed < 20 ==> ms == 1,
{
}

/// Whether a stroke is painted the same way, on the same target and held to the same
/// guide, with the same shapes corrected.
pub open spec fn same_kind_of_stroke(a: StrokeView, b: StrokeView) -> bool {
    &&& a.paint == b.paint
    &&& a.correction == b.correction
    &&& a.target == b.target
    &&& a.assisted == b.assisted
}

/// A stroke stays the kind it began as: samples, rests and a correction change nothing of
/// how and where it is painted, and only samples add to what was drawn.
pub proof fn law_a_stroke_stays_as_it_began(
    a: &mut Stroke,
    drawing: bool,
    sample: InputSample,
    buildup: bool,
    delay: Option<Option<u32>>,
    b: &mut Stroke,
    shape: Option<ShapeKind>,
    go: bool,
    c: &mut Stroke,
    places: Vec<Point>,
    interval: Option<u32>,
    d: &mut Stroke,
    drawn: FrameDrawn,
    next: FrameNext,
)
    requires
        call_ensures(Stroke::extend, (a, drawing, sample, buildup), delay),
        call_ensures(Stroke::rested, (b, drawing, shape), go),
        call_ensures(Stroke::correct, (c, &places), interval),
        old(d).timer is Glide,
        old(d).timer->Glide_0 < TOTAL_FRAMES,
        call_ensures(Stroke::frame, (d, drawn), next),
    ensures
        same_kind_of_stroke(old(a)@, final(a)@) && final(a)@.corrected == old(a)@.corrected,
        same_kind_of_stroke(old(b)@, final(b)@) && final(b)@.corrected == old(b)@.corrected,
        same_kind_of_stroke(old(c)@, final(c)@),
        !(next is Commit) ==> same_kind_of_stroke(old(d)@, final(d)@),
        drawing ==> final(a)@.samples == old(a)@.samples.push(sample),
        !drawing ==> final(a)@.samples == old(a)@.samples,
        final(b)@.samples == old(b)@.samples,
        final(c)@.samples == old(c)@.samples,
        final(d)@.samples == old(d)@.samples,
        final(b)@.timer is Off,
{
}

} // verus!
